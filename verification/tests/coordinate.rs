use argentum_game_coordinate_system::coordinate::{Coord, CoordinateOverflowError};

#[test]
fn new() {
    let result = Coord::new(1, -2, 3);
    let expected = Coord { x: 1, y: -2, z: 3 };
    assert_eq!(result, expected);
    assert_eq!(result.x, 1);
    assert_eq!(result.y, -2);
    assert_eq!(result.z, 3);
}

#[test]
fn splat() {
    let coord = Coord::splat(7);
    assert_eq!(coord.x, coord.y);
    assert_eq!(coord.y, coord.z);
    assert_eq!(coord.x, 7);
}

#[test]
fn arbitrary() {
    let mut g = quickcheck::Gen::new(64);
    let coord = Coord::arbitrary(&mut g);
    let x_fine = coord.x >= Coord::min_value().x && coord.x <= Coord::max_value().x;
    let y_fine = coord.y >= Coord::min_value().y && coord.y <= Coord::max_value().y;
    let z_fine = coord.z >= Coord::min_value().z && coord.z <= Coord::max_value().z;
    assert!(x_fine && y_fine && z_fine);
}

#[test]
fn min_pos() {
    let expected = Coord {
        x: i32::MIN,
        y: i32::MIN,
        z: i32::MIN,
    };
    assert_eq!(expected, Coord::min_value());
    assert_eq!(expected.x, i32::MIN);
    assert_eq!(expected.y, i32::MIN);
    assert_eq!(expected.z, i32::MIN);
}

#[test]
fn max_pos() {
    let expected = Coord {
        x: i32::MAX,
        y: i32::MAX,
        z: i32::MAX,
    };
    assert_eq!(expected, Coord::max_value());
    assert_eq!(expected.x, i32::MAX);
    assert_eq!(expected.y, i32::MAX);
    assert_eq!(expected.z, i32::MAX);
}

#[test]
fn display() {
    let pos = Coord { x: 1, y: 2, z: 3 };

    assert_eq!(pos.to_text(), "(Coordinate: 1, 2, 3)")
}

#[test]
fn display_negative() {
    let pos = Coord {
        x: -1,
        y: -22,
        z: 333,
    };

    assert_eq!(pos.to_text(), "(Coordinate: -1, -22, 333)")
}

#[test]
fn display_extremes() {
    let pos = Coord {
        x: i32::MIN,
        y: 0,
        z: i32::MAX,
    };

    assert_eq!(pos.to_text(), "(Coordinate: -2147483648, 0, 2147483647)")
}

#[test]
fn overflow_error_text() {
    let e = CoordinateOverflowError(Coord::new(1, 2, 3));
    assert_eq!(
        e.to_text(),
        "(Coordinate: 1, 2, 3) is experiencing integer overflow."
    );
}

#[test]
fn add() {
    let result = Coord::new(1, 2, 3).add(Coord::new(5, 0, 10)).unwrap();
    let expected = Coord::new(6, 2, 13);
    assert_eq!(result, expected);
}

#[test]
fn add_single() {
    let result = Coord::new(1, 2, 3).add_scalar(5).unwrap();
    let expected = Coord::new(6, 7, 8);
    assert_eq!(result, expected);
}

#[test]
fn add_assign() {
    let mut result = Coord::new(10, 15, 30);
    result.add_assign(Coord::new(-5, 10, 23)).unwrap();
    let expected = Coord::new(5, 25, 53);
    assert_eq!(result, expected);
}

#[test]
fn add_assign_single() {
    let mut result = Coord::new(-15, 15, 30);
    result.add_assign_scalar(17).unwrap();
    let expected = Coord::new(2, 32, 47);
    assert_eq!(result, expected);
}

#[test]
fn add_overflow() {
    let operand = Coord::max_value();
    let result = operand.add(Coord::splat(1));
    assert_eq!(result, Err(CoordinateOverflowError(operand)));
}

#[test]
fn add_overflow_single() {
    let operand = Coord::max_value();
    let result = operand.add_scalar(1);
    assert_eq!(result, Err(CoordinateOverflowError(operand)));
}

#[test]
fn add_assign_overflow_leaves_value() {
    let mut result = Coord::max_value();
    assert!(result.add_assign(Coord::splat(1)).is_err());
    assert_eq!(result, Coord::max_value());
}

#[test]
fn sub() {
    let result = Coord::new(1, 2, 3).sub(Coord::new(5, 0, 10)).unwrap();
    let expected = Coord::new(-4, 2, -7);
    assert_eq!(result, expected);
}

#[test]
fn sub_single() {
    let result = Coord::new(1, 2, 3).sub_scalar(2).unwrap();
    let expected = Coord::new(-1, 0, 1);
    assert_eq!(result, expected);
}

#[test]
fn sub_assign() {
    let mut result = Coord::new(10, 15, 30);
    result.sub_assign(Coord::new(-5, 10, 23)).unwrap();
    let expected = Coord::new(15, 5, 7);
    assert_eq!(result, expected);
}

#[test]
fn sub_assign_single() {
    let mut result = Coord::new(10, 16, 30);
    result.sub_assign_scalar(7).unwrap();
    let expected = Coord::new(3, 9, 23);
    assert_eq!(result, expected);
}

#[test]
fn sub_overflow() {
    let operand = Coord::min_value();
    let result = operand.sub(Coord::splat(1));
    assert_eq!(result, Err(CoordinateOverflowError(operand)));
}

#[test]
fn sub_overflow_single() {
    let operand = Coord::min_value();
    let result = operand.sub_scalar(1);
    assert_eq!(result, Err(CoordinateOverflowError(operand)));
}

#[test]
fn mul() {
    let result = Coord::new(5, 2, 4).mul(Coord::new(1, 0, 2)).unwrap();
    let expected = Coord::new(5, 0, 8);
    assert_eq!(result, expected);
}

#[test]
fn mul_single() {
    let result = Coord::new(5, 2, 4).mul_scalar(1).unwrap();
    let expected = Coord::new(5, 2, 4);
    assert_eq!(result, expected);
}

#[test]
fn mul_assign() {
    let mut result = Coord::new(3, 360, 2);
    result.mul_assign(Coord::new(-5, 2, 7)).unwrap();
    let expected = Coord::new(-15, 720, 14);
    assert_eq!(result, expected);
}

#[test]
fn mul_assign_single() {
    let mut result = Coord::new(3, 360, -2);
    result.mul_assign_scalar(-2).unwrap();
    let expected = Coord::new(-6, -720, 4);
    assert_eq!(result, expected);
}

#[test]
fn mul_overflow() {
    let operand = Coord::max_value();
    let result = operand.mul(Coord::splat(2));
    assert_eq!(result, Err(CoordinateOverflowError(operand)));
}

#[test]
fn mul_overflow_single() {
    let operand = Coord::max_value();
    let result = operand.mul_scalar(2);
    assert_eq!(result, Err(CoordinateOverflowError(operand)));
}

#[test]
fn div() {
    let result = Coord::new(5, 2, 4).div(Coord::new(1, 2, 2)).unwrap();
    let expected = Coord::new(5, 1, 2);
    assert_eq!(result, expected);
}

#[test]
fn div_single() {
    let result = Coord::new(8, 2, 4).div_scalar(2).unwrap();
    let expected = Coord::new(4, 1, 2);
    assert_eq!(result, expected);
}

#[test]
fn div_assign() {
    let mut result = Coord::new(5, 360, 24);
    result.div_assign(Coord::new(-5, 2, 4)).unwrap();
    let expected = Coord::new(-1, 180, 6);
    assert_eq!(result, expected);
}

#[test]
fn div_assign_single() {
    let mut result = Coord::new(5, -360, 24);
    result.div_assign_scalar(-2).unwrap();
    let expected = Coord::new(-2, 180, -12);
    assert_eq!(result, expected);
}

#[test]
fn div_by_zero() {
    let operand = Coord::max_value();
    let result = operand.div(Coord::splat(0));
    assert_eq!(result, Err(CoordinateOverflowError(operand)));
}

#[test]
fn div_by_zero_single() {
    let operand = Coord::max_value();
    let result = operand.div_scalar(0);
    assert_eq!(result, Err(CoordinateOverflowError(operand)));
}

#[test]
fn div_overflow() {
    let operand = Coord::min_value();
    let result = operand.div(Coord::splat(-1));
    assert_eq!(result, Err(CoordinateOverflowError(operand)));
}

#[test]
fn rem() {
    let result = Coord::new(7, -12, 4).rem(Coord::new(5, 7, 2)).unwrap();
    let expected = Coord::new(2, -5, 0);
    assert_eq!(result, expected);
}

#[test]
fn rem_single() {
    let result = Coord::new(7, -2, 4).rem_scalar(5).unwrap();
    let expected = Coord::new(2, -2, 4);
    assert_eq!(result, expected);
}

#[test]
fn rem_assign() {
    let mut result = Coord::new(7, -11, 38);
    result.rem_assign(Coord::splat(6)).unwrap();
    let expected = Coord::new(1, -5, 2);
    assert_eq!(result, expected);
}

#[test]
fn rem_assign_single() {
    let mut result = Coord::new(7, -11, 38);
    result.rem_assign_scalar(6).unwrap();
    let expected = Coord::new(1, -5, 2);
    assert_eq!(result, expected);
}

#[test]
fn rem_by_zero() {
    let operand = Coord::splat(17);
    let result = operand.rem(Coord::splat(0));
    assert_eq!(result, Err(CoordinateOverflowError(operand)));
}

#[test]
fn neg() {
    let result = Coord::splat(7).neg().unwrap();
    let expected = Coord::splat(-7);
    assert_eq!(result, expected);
}

#[test]
fn neg_overflow() {
    let operand = Coord::min_value();
    let result = operand.neg();
    assert_eq!(result, Err(CoordinateOverflowError(operand)));
}

#[test]
fn not() {
    let result = Coord::max_value().not();
    let expected = Coord::min_value();
    assert_eq!(result, expected);
}

#[test]
fn not_involution() {
    let coord = Coord::new(12345, -678, 0);
    assert_eq!(coord.not().not(), coord);
}

#[test]
fn add_splat_zero_identity() {
    let coord = Coord::new(-41, 0, 2_000_000_000);
    assert_eq!(coord.add(Coord::splat(0)).unwrap(), coord);
}

#[test]
fn bit_and() {
    let coord_a = Coord::new(0b10101010, 0b00001111, 0b10101100);
    let coord_b = Coord::splat(0b11001100);
    let result = coord_a.bitand(coord_b);
    let expected = Coord::new(0b10001000, 0b00001100, 0b10001100);
    assert_eq!(result, expected);
}

#[test]
fn bit_and_single() {
    let coord_a = Coord::new(0b10101010, 0b00001111, 0b10101100);
    let coord_b = 0b11001100;
    let result = coord_a.bitand_scalar(coord_b);
    let expected = Coord::new(0b10001000, 0b00001100, 0b10001100);
    assert_eq!(result, expected);
}

#[test]
fn bit_and_assign() {
    let mut coord_a = Coord::new(0b10101010, 0b00001111, 0b10101100);
    let coord_b = Coord::splat(0b11001100);
    coord_a.bitand_assign(coord_b);
    let expected = Coord::new(0b10001000, 0b00001100, 0b10001100);
    assert_eq!(coord_a, expected);
}

#[test]
fn bit_and_assign_single() {
    let mut coord_a = Coord::new(0b10101010, 0b00001111, 0b10101100);
    let coord_b = 0b11001100;
    coord_a.bitand_assign_scalar(coord_b);
    let expected = Coord::new(0b10001000, 0b00001100, 0b10001100);
    assert_eq!(coord_a, expected);
}

#[test]
fn bit_or() {
    let coord_a = Coord::new(0b10101010, 0b00001111, 0b10101100);
    let coord_b = Coord::splat(0b11001100);
    let result = coord_a.bitor(coord_b);
    let expected = Coord::new(0b11101110, 0b11001111, 0b11101100);
    assert_eq!(result, expected);
}

#[test]
fn bit_or_single() {
    let coord_a = Coord::new(0b10101010, 0b00001111, 0b10101100);
    let coord_b = 0b11001100;
    let result = coord_a.bitor_scalar(coord_b);
    let expected = Coord::new(0b11101110, 0b11001111, 0b11101100);
    assert_eq!(result, expected);
}

#[test]
fn bit_or_assign() {
    let mut coord_a = Coord::new(0b10101010, 0b00001111, 0b10101100);
    let coord_b = Coord::splat(0b11001100);
    coord_a.bitor_assign(coord_b);
    let expected = Coord::new(0b11101110, 0b11001111, 0b11101100);
    assert_eq!(coord_a, expected);
}

#[test]
fn bit_or_assign_single() {
    let mut coord_a = Coord::new(0b10101010, 0b00001111, 0b10101100);
    let coord_b = 0b11001100;
    coord_a.bitor_assign_scalar(coord_b);
    let expected = Coord::new(0b11101110, 0b11001111, 0b11101100);
    assert_eq!(coord_a, expected);
}

#[test]
fn bit_xor() {
    let coord_a = Coord::new(0b10101010, 0b00001111, 0b10101100);
    let coord_b = Coord::splat(0b11001100);
    let result = coord_a.bitxor(coord_b);
    let expected = Coord::new(0b01100110, 0b11000011, 0b01100000);
    assert_eq!(result, expected);
}

#[test]
fn bit_xor_single() {
    let coord_a = Coord::new(0b10101010, 0b00001111, 0b10101100);
    let coord_b = 0b11001100;
    let result = coord_a.bitxor_scalar(coord_b);
    let expected = Coord::new(0b01100110, 0b11000011, 0b01100000);
    assert_eq!(result, expected);
}

#[test]
fn bit_xor_assign() {
    let mut coord_a = Coord::new(0b10101010, 0b00001111, 0b10101100);
    let coord_b = Coord::splat(0b11001100);
    coord_a.bitxor_assign(coord_b);
    let expected = Coord::new(0b01100110, 0b11000011, 0b01100000);
    assert_eq!(coord_a, expected);
}

#[test]
fn bit_xor_assign_single() {
    let mut coord_a = Coord::new(0b10101010, 0b00001111, 0b10101100);
    let coord_b = 0b11001100;
    coord_a.bitxor_assign_scalar(coord_b);
    let expected = Coord::new(0b01100110, 0b11000011, 0b01100000);
    assert_eq!(coord_a, expected);
}
