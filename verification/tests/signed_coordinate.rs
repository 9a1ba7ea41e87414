use argentum_game_coordinate_system::signed_coordinate::{
    CoordinateOverflowError, SignedCoordinate,
};

#[test]
fn signed_new() {
    let result = SignedCoordinate::new(1, -2, 3);
    let expected = SignedCoordinate { x: 1, y: -2, z: 3 };
    assert_eq!(result, expected);
}

#[test]
fn signed_splat() {
    let coord = SignedCoordinate::splat(-9);
    assert_eq!(coord.x, coord.y);
    assert_eq!(coord.y, coord.z);
    assert_eq!(coord.x, -9);
}

#[test]
fn signed_arbitrary() {
    let mut g = quickcheck::Gen::new(64);
    let coord = SignedCoordinate::arbitrary(&mut g);
    let x_fine = coord.x >= SignedCoordinate::min_value().x && coord.x <= SignedCoordinate::max_value().x;
    let y_fine = coord.y >= SignedCoordinate::min_value().y && coord.y <= SignedCoordinate::max_value().y;
    let z_fine = coord.z >= SignedCoordinate::min_value().z && coord.z <= SignedCoordinate::max_value().z;
    assert!(x_fine && y_fine && z_fine);
}

#[test]
fn signed_min_pos() {
    let expected = SignedCoordinate {
        x: i64::MIN,
        y: i64::MIN,
        z: i64::MIN,
    };
    assert_eq!(expected, SignedCoordinate::min_value());
    assert_eq!(expected.x, i64::MIN);
    assert_eq!(expected.y, i64::MIN);
    assert_eq!(expected.z, i64::MIN);
}

#[test]
fn signed_max_pos() {
    let expected = SignedCoordinate {
        x: i64::MAX,
        y: i64::MAX,
        z: i64::MAX,
    };
    assert_eq!(expected, SignedCoordinate::max_value());
    assert_eq!(expected.x, i64::MAX);
    assert_eq!(expected.y, i64::MAX);
    assert_eq!(expected.z, i64::MAX);
}

#[test]
fn signed_display() {
    let pos = SignedCoordinate { x: 1, y: 2, z: 3 };

    assert_eq!(pos.to_text(), "(SignedCoordinate: 1, 2, 3)")
}

#[test]
fn signed_add() {
    let result = SignedCoordinate::new(1, 2, 3)
        .add(SignedCoordinate::new(5, 0, 10))
        .unwrap();
    let expected = SignedCoordinate::new(6, 2, 13);
    assert_eq!(result, expected);
}

#[test]
fn signed_add_single() {
    let result = SignedCoordinate::new(1, 2, 3).add_scalar(5).unwrap();
    let expected = SignedCoordinate::new(6, 7, 8);
    assert_eq!(result, expected);
}

#[test]
fn signed_add_assign() {
    let mut result = SignedCoordinate::new(10, 15, 30);
    result.add_assign(SignedCoordinate::new(-5, 10, 23)).unwrap();
    let expected = SignedCoordinate::new(5, 25, 53);
    assert_eq!(result, expected);
}

#[test]
fn signed_add_assign_single() {
    let mut result = SignedCoordinate::new(-15, 15, 30);
    result.add_assign_scalar(17).unwrap();
    let expected = SignedCoordinate::new(2, 32, 47);
    assert_eq!(result, expected);
}

#[test]
fn signed_add_overflow() {
    let operand = SignedCoordinate::max_value();
    let result = operand.add(SignedCoordinate::splat(1));
    assert_eq!(result, Err(CoordinateOverflowError(operand)));
}

#[test]
fn signed_add_overflow_single() {
    let operand = SignedCoordinate::max_value();
    let result = operand.add_scalar(1);
    assert_eq!(result, Err(CoordinateOverflowError(operand)));
}

#[test]
fn signed_sub() {
    let result = SignedCoordinate::new(1, 2, 3)
        .sub(SignedCoordinate::new(5, 0, 10))
        .unwrap();
    let expected = SignedCoordinate::new(-4, 2, -7);
    assert_eq!(result, expected);
}

#[test]
fn signed_sub_single() {
    let result = SignedCoordinate::new(1, 2, 3).sub_scalar(2).unwrap();
    let expected = SignedCoordinate::new(-1, 0, 1);
    assert_eq!(result, expected);
}

#[test]
fn signed_sub_assign() {
    let mut result = SignedCoordinate::new(10, 15, 30);
    result.sub_assign(SignedCoordinate::new(-5, 10, 23)).unwrap();
    let expected = SignedCoordinate::new(15, 5, 7);
    assert_eq!(result, expected);
}

#[test]
fn signed_sub_assign_single() {
    let mut result = SignedCoordinate::new(10, 16, 30);
    result.sub_assign_scalar(7).unwrap();
    let expected = SignedCoordinate::new(3, 9, 23);
    assert_eq!(result, expected);
}

#[test]
fn signed_sub_overflow() {
    let operand = SignedCoordinate::min_value();
    let result = operand.sub(SignedCoordinate::splat(1));
    assert_eq!(result, Err(CoordinateOverflowError(operand)));
}

#[test]
fn signed_sub_overflow_single() {
    let operand = SignedCoordinate::min_value();
    let result = operand.sub_scalar(1);
    assert_eq!(result, Err(CoordinateOverflowError(operand)));
}

#[test]
fn signed_mul() {
    let result = SignedCoordinate::new(5, 2, 4)
        .mul(SignedCoordinate::new(1, 0, 2))
        .unwrap();
    let expected = SignedCoordinate::new(5, 0, 8);
    assert_eq!(result, expected);
}

#[test]
fn signed_mul_single() {
    let result = SignedCoordinate::new(5, 2, 4).mul_scalar(1).unwrap();
    let expected = SignedCoordinate::new(5, 2, 4);
    assert_eq!(result, expected);
}

#[test]
fn signed_mul_assign() {
    let mut result = SignedCoordinate::new(3, 360, 2);
    result.mul_assign(SignedCoordinate::new(-5, 2, 7)).unwrap();
    let expected = SignedCoordinate::new(-15, 720, 14);
    assert_eq!(result, expected);
}

#[test]
fn signed_mul_assign_single() {
    let mut result = SignedCoordinate::new(3, 360, -2);
    result.mul_assign_scalar(-2).unwrap();
    let expected = SignedCoordinate::new(-6, -720, 4);
    assert_eq!(result, expected);
}

#[test]
fn signed_mul_overflow() {
    let operand = SignedCoordinate::max_value();
    let result = operand.mul(SignedCoordinate::splat(2));
    assert_eq!(result, Err(CoordinateOverflowError(operand)));
}

#[test]
fn signed_mul_overflow_single() {
    let operand = SignedCoordinate::max_value();
    let result = operand.mul_scalar(2);
    assert_eq!(result, Err(CoordinateOverflowError(operand)));
}

#[test]
fn signed_div() {
    let result = SignedCoordinate::new(5, 2, 4)
        .div(SignedCoordinate::new(1, 2, 2))
        .unwrap();
    let expected = SignedCoordinate::new(5, 1, 2);
    assert_eq!(result, expected);
}

#[test]
fn signed_div_single() {
    let result = SignedCoordinate::new(8, 2, 4).div_scalar(2).unwrap();
    let expected = SignedCoordinate::new(4, 1, 2);
    assert_eq!(result, expected);
}

#[test]
fn signed_div_assign() {
    let mut result = SignedCoordinate::new(5, 360, 24);
    result.div_assign(SignedCoordinate::new(-5, 2, 4)).unwrap();
    let expected = SignedCoordinate::new(-1, 180, 6);
    assert_eq!(result, expected);
}

#[test]
fn signed_div_assign_single() {
    let mut result = SignedCoordinate::new(5, -360, 24);
    result.div_assign_scalar(-2).unwrap();
    let expected = SignedCoordinate::new(-2, 180, -12);
    assert_eq!(result, expected);
}

#[test]
fn signed_div_by_zero() {
    let operand = SignedCoordinate::max_value();
    let result = operand.div(SignedCoordinate::splat(0));
    assert_eq!(result, Err(CoordinateOverflowError(operand)));
}

#[test]
fn signed_div_by_zero_single() {
    let operand = SignedCoordinate::max_value();
    let result = operand.div_scalar(0);
    assert_eq!(result, Err(CoordinateOverflowError(operand)));
}

#[test]
fn signed_rem() {
    let result = SignedCoordinate::new(7, -12, 4)
        .rem(SignedCoordinate::new(5, 7, 2))
        .unwrap();
    let expected = SignedCoordinate::new(2, -5, 0);
    assert_eq!(result, expected);
}

#[test]
fn signed_rem_single() {
    let result = SignedCoordinate::new(7, -2, 4).rem_scalar(5).unwrap();
    let expected = SignedCoordinate::new(2, -2, 4);
    assert_eq!(result, expected);
}

#[test]
fn signed_rem_assign() {
    let mut result = SignedCoordinate::new(7, -11, 38);
    result.rem_assign(SignedCoordinate::splat(6)).unwrap();
    let expected = SignedCoordinate::new(1, -5, 2);
    assert_eq!(result, expected);
}

#[test]
fn signed_rem_assign_single() {
    let mut result = SignedCoordinate::new(7, -11, 38);
    result.rem_assign_scalar(6).unwrap();
    let expected = SignedCoordinate::new(1, -5, 2);
    assert_eq!(result, expected);
}

#[test]
fn signed_neg() {
    let result = SignedCoordinate::splat(7).neg().unwrap();
    let expected = SignedCoordinate::splat(-7);
    assert_eq!(result, expected);
}

#[test]
fn signed_neg_overflow() {
    let operand = SignedCoordinate::min_value();
    let result = operand.neg();
    assert_eq!(result, Err(CoordinateOverflowError(operand)));
}

#[test]
fn signed_not() {
    let result = SignedCoordinate::max_value().not();
    let expected = SignedCoordinate::min_value();
    assert_eq!(result, expected);
}

#[test]
fn signed_bit_and() {
    let coord_a = SignedCoordinate::new(0b10101010, 0b00001111, 0b10101100);
    let coord_b = SignedCoordinate::splat(0b11001100);
    let result = coord_a.bitand(coord_b);
    let expected = SignedCoordinate::new(0b10001000, 0b00001100, 0b10001100);
    assert_eq!(result, expected);
}

#[test]
fn signed_bit_and_single() {
    let coord_a = SignedCoordinate::new(0b10101010, 0b00001111, 0b10101100);
    let coord_b = 0b11001100;
    let result = coord_a.bitand_scalar(coord_b);
    let expected = SignedCoordinate::new(0b10001000, 0b00001100, 0b10001100);
    assert_eq!(result, expected);
}

#[test]
fn signed_bit_and_assign() {
    let mut coord_a = SignedCoordinate::new(0b10101010, 0b00001111, 0b10101100);
    let coord_b = SignedCoordinate::splat(0b11001100);
    coord_a.bitand_assign(coord_b);
    let expected = SignedCoordinate::new(0b10001000, 0b00001100, 0b10001100);
    assert_eq!(coord_a, expected);
}

#[test]
fn signed_bit_and_assign_single() {
    let mut coord_a = SignedCoordinate::new(0b10101010, 0b00001111, 0b10101100);
    let coord_b = 0b11001100;
    coord_a.bitand_assign_scalar(coord_b);
    let expected = SignedCoordinate::new(0b10001000, 0b00001100, 0b10001100);
    assert_eq!(coord_a, expected);
}

#[test]
fn signed_bit_or() {
    let coord_a = SignedCoordinate::new(0b10101010, 0b00001111, 0b10101100);
    let coord_b = SignedCoordinate::splat(0b11001100);
    let result = coord_a.bitor(coord_b);
    let expected = SignedCoordinate::new(0b11101110, 0b11001111, 0b11101100);
    assert_eq!(result, expected);
}

#[test]
fn signed_bit_or_single() {
    let coord_a = SignedCoordinate::new(0b10101010, 0b00001111, 0b10101100);
    let coord_b = 0b11001100;
    let result = coord_a.bitor_scalar(coord_b);
    let expected = SignedCoordinate::new(0b11101110, 0b11001111, 0b11101100);
    assert_eq!(result, expected);
}

#[test]
fn signed_bit_or_assign() {
    let mut coord_a = SignedCoordinate::new(0b10101010, 0b00001111, 0b10101100);
    let coord_b = SignedCoordinate::splat(0b11001100);
    coord_a.bitor_assign(coord_b);
    let expected = SignedCoordinate::new(0b11101110, 0b11001111, 0b11101100);
    assert_eq!(coord_a, expected);
}

#[test]
fn signed_bit_or_assign_single() {
    let mut coord_a = SignedCoordinate::new(0b10101010, 0b00001111, 0b10101100);
    let coord_b = 0b11001100;
    coord_a.bitor_assign_scalar(coord_b);
    let expected = SignedCoordinate::new(0b11101110, 0b11001111, 0b11101100);
    assert_eq!(coord_a, expected);
}

#[test]
fn signed_bit_xor() {
    let coord_a = SignedCoordinate::new(0b10101010, 0b00001111, 0b10101100);
    let coord_b = SignedCoordinate::splat(0b11001100);
    let result = coord_a.bitxor(coord_b);
    let expected = SignedCoordinate::new(0b01100110, 0b11000011, 0b01100000);
    assert_eq!(result, expected);
}

#[test]
fn signed_bit_xor_single() {
    let coord_a = SignedCoordinate::new(0b10101010, 0b00001111, 0b10101100);
    let coord_b = 0b11001100;
    let result = coord_a.bitxor_scalar(coord_b);
    let expected = SignedCoordinate::new(0b01100110, 0b11000011, 0b01100000);
    assert_eq!(result, expected);
}

#[test]
fn signed_bit_xor_assign() {
    let mut coord_a = SignedCoordinate::new(0b10101010, 0b00001111, 0b10101100);
    let coord_b = SignedCoordinate::splat(0b11001100);
    coord_a.bitxor_assign(coord_b);
    let expected = SignedCoordinate::new(0b01100110, 0b11000011, 0b01100000);
    assert_eq!(coord_a, expected);
}

#[test]
fn signed_bit_xor_assign_single() {
    let mut coord_a = SignedCoordinate::new(0b10101010, 0b00001111, 0b10101100);
    let coord_b = 0b11001100;
    coord_a.bitxor_assign_scalar(coord_b);
    let expected = SignedCoordinate::new(0b01100110, 0b11000011, 0b01100000);
    assert_eq!(coord_a, expected);
}
