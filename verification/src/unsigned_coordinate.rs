//! An unsigned coordinate over a wide field type, for hosts whose space has
//! no negative half.

use crate::coordinate_trait::CoordinateTrait;
use crate::text::int_text;
use vstd::prelude::*;
use vstd::string::StringExecFns;

verus! {

/// True when `v` is representable in the unsigned coordinate's field type.
pub open spec fn in_range(v: int) -> bool {
    0 <= v <= u64::MAX
}

/// 3D unsigned coordinate in absolute space.
#[derive(Clone, Copy, Debug, PartialEq, Eq, Structural)]
pub struct UnsignedCoordinate {
    pub x: u64,
    pub y: u64,
    pub z: u64,
}

/// An arithmetic operation's true result could not be represented in the
/// field type; carries the pre-overflow operand for diagnostics.
#[derive(Clone, Copy, Debug, PartialEq, Eq, Structural)]
pub struct CoordinateOverflowError(pub UnsignedCoordinate);

impl CoordinateOverflowError {
    /// The diagnostic text of the error.
    pub open spec fn text_view(self) -> Seq<char> {
        self.0.text_view() + " is experiencing integer overflow."@
    }

    /// Renders the diagnostic text of the error.
    pub fn to_text(&self) -> (r: String)
        ensures
            r@ == self.text_view(),
    {
        let mut s = self.0.to_text();
        s.append(" is experiencing integer overflow.");
        s
    }
}

impl UnsignedCoordinate {
    /// The coordinate with every axis set to `n`.
    pub open spec fn spec_splat(n: u64) -> UnsignedCoordinate {
        UnsignedCoordinate { x: n, y: n, z: n }
    }

    /// True when the component-wise sum is representable on every axis.
    pub open spec fn add_in_range(self, rhs: UnsignedCoordinate) -> bool {
        in_range(self.x + rhs.x) && in_range(self.y + rhs.y) && in_range(self.z + rhs.z)
    }

    /// The component-wise sum, meaningful when `add_in_range` holds.
    pub open spec fn spec_add(self, rhs: UnsignedCoordinate) -> UnsignedCoordinate {
        UnsignedCoordinate {
            x: (self.x + rhs.x) as u64,
            y: (self.y + rhs.y) as u64,
            z: (self.z + rhs.z) as u64,
        }
    }

    /// True when the component-wise difference is representable on every axis.
    pub open spec fn sub_in_range(self, rhs: UnsignedCoordinate) -> bool {
        in_range(self.x - rhs.x) && in_range(self.y - rhs.y) && in_range(self.z - rhs.z)
    }

    /// The component-wise difference, meaningful when `sub_in_range` holds.
    pub open spec fn spec_sub(self, rhs: UnsignedCoordinate) -> UnsignedCoordinate {
        UnsignedCoordinate {
            x: (self.x - rhs.x) as u64,
            y: (self.y - rhs.y) as u64,
            z: (self.z - rhs.z) as u64,
        }
    }

    /// True when the component-wise product is representable on every axis.
    pub open spec fn mul_in_range(self, rhs: UnsignedCoordinate) -> bool {
        in_range(self.x * rhs.x) && in_range(self.y * rhs.y) && in_range(self.z * rhs.z)
    }

    /// The component-wise product, meaningful when `mul_in_range` holds.
    pub open spec fn spec_mul(self, rhs: UnsignedCoordinate) -> UnsignedCoordinate {
        UnsignedCoordinate {
            x: (self.x * rhs.x) as u64,
            y: (self.y * rhs.y) as u64,
            z: (self.z * rhs.z) as u64,
        }
    }

    /// True when every axis of the component-wise quotient or remainder is
    /// defined: no divisor axis is zero.
    pub open spec fn div_defined(self, rhs: UnsignedCoordinate) -> bool {
        rhs.x != 0 && rhs.y != 0 && rhs.z != 0
    }

    /// The component-wise quotient, meaningful when `div_defined` holds.
    pub open spec fn spec_div(self, rhs: UnsignedCoordinate) -> UnsignedCoordinate {
        UnsignedCoordinate { x: self.x / rhs.x, y: self.y / rhs.y, z: self.z / rhs.z }
    }

    /// The component-wise remainder, meaningful when `div_defined` holds.
    pub open spec fn spec_rem(self, rhs: UnsignedCoordinate) -> UnsignedCoordinate {
        UnsignedCoordinate { x: self.x % rhs.x, y: self.y % rhs.y, z: self.z % rhs.z }
    }

    /// The component-wise bitwise AND.
    pub open spec fn spec_bitand(self, rhs: UnsignedCoordinate) -> UnsignedCoordinate {
        UnsignedCoordinate { x: self.x & rhs.x, y: self.y & rhs.y, z: self.z & rhs.z }
    }

    /// The component-wise bitwise OR.
    pub open spec fn spec_bitor(self, rhs: UnsignedCoordinate) -> UnsignedCoordinate {
        UnsignedCoordinate { x: self.x | rhs.x, y: self.y | rhs.y, z: self.z | rhs.z }
    }

    /// The component-wise bitwise XOR.
    pub open spec fn spec_bitxor(self, rhs: UnsignedCoordinate) -> UnsignedCoordinate {
        UnsignedCoordinate { x: self.x ^ rhs.x, y: self.y ^ rhs.y, z: self.z ^ rhs.z }
    }

    /// The component-wise bitwise NOT.
    pub open spec fn spec_not(self) -> UnsignedCoordinate {
        UnsignedCoordinate { x: !self.x, y: !self.y, z: !self.z }
    }

    /// The canonical textual form: the type's name and the axes in order.
    pub open spec fn text_view(self) -> Seq<char> {
        "(UnsignedCoordinate: "@ + int_text(self.x as int) + ", "@ + int_text(self.y as int)
            + ", "@ + int_text(self.z as int) + ")"@
    }

    /// Represents the largest possible `UnsignedCoordinate` on all axes.
    pub fn max_value() -> (r: Self)
        ensures
            r == Self::spec_splat(u64::MAX),
    {
        UnsignedCoordinate::splat(u64::MAX)
    }

    /// Represents the smallest possible `UnsignedCoordinate` on all axes.
    pub fn min_value() -> (r: Self)
        ensures
            r == Self::spec_splat(0),
    {
        UnsignedCoordinate::splat(0)
    }

    /// Creates a new `UnsignedCoordinate` from its three axes.
    pub fn new(x: u64, y: u64, z: u64) -> (r: Self)
        ensures
            r.x == x,
            r.y == y,
            r.z == z,
    {
        UnsignedCoordinate { x, y, z }
    }

    /// Creates a new `UnsignedCoordinate`, assigning all axes to the input.
    pub fn splat(n: u64) -> (r: Self)
        ensures
            r == Self::spec_splat(n),
    {
        UnsignedCoordinate::new(n, n, n)
    }

    /// Checked component-wise addition; fails atomically when any axis
    /// overflows, carrying the left operand.
    pub fn add(self, rhs: Self) -> (r: Result<Self, CoordinateOverflowError>)
        ensures
            r is Ok <==> self.add_in_range(rhs),
            r matches Ok(c) ==> c == self.spec_add(rhs),
            r matches Err(e) ==> e.0 == self,
    {
        let x = match self.x.checked_add(rhs.x) {
            Some(v) => v,
            None => {
                return Err(CoordinateOverflowError(self));
            },
        };
        let y = match self.y.checked_add(rhs.y) {
            Some(v) => v,
            None => {
                return Err(CoordinateOverflowError(self));
            },
        };
        let z = match self.z.checked_add(rhs.z) {
            Some(v) => v,
            None => {
                return Err(CoordinateOverflowError(self));
            },
        };
        Ok(UnsignedCoordinate::new(x, y, z))
    }

    /// Checked addition of a scalar to every axis.
    pub fn add_scalar(self, rhs: u64) -> (r: Result<Self, CoordinateOverflowError>)
        ensures
            r is Ok <==> self.add_in_range(Self::spec_splat(rhs)),
            r matches Ok(c) ==> c == self.spec_add(Self::spec_splat(rhs)),
            r matches Err(e) ==> e.0 == self,
    {
        self.add(UnsignedCoordinate::splat(rhs))
    }

    /// In-place checked addition: on failure the value is left unchanged.
    pub fn add_assign(&mut self, rhs: Self) -> (r: Result<(), CoordinateOverflowError>)
        ensures
            r is Ok <==> old(self).add_in_range(rhs),
            r is Ok ==> *final(self) == old(self).spec_add(rhs),
            r matches Err(e) ==> *final(self) == *old(self) && e.0 == *old(self),
    {
        match (*self).add(rhs) {
            Ok(c) => {
                *self = c;
                Ok(())
            },
            Err(e) => Err(e),
        }
    }

    /// In-place checked addition of a scalar: on failure the value is left
    /// unchanged.
    pub fn add_assign_scalar(&mut self, rhs: u64) -> (r: Result<(), CoordinateOverflowError>)
        ensures
            r is Ok <==> old(self).add_in_range(Self::spec_splat(rhs)),
            r is Ok ==> *final(self) == old(self).spec_add(Self::spec_splat(rhs)),
            r matches Err(e) ==> *final(self) == *old(self) && e.0 == *old(self),
    {
        self.add_assign(UnsignedCoordinate::splat(rhs))
    }

    /// Checked component-wise subtraction; fails atomically when any axis
    /// underflows, carrying the left operand.
    pub fn sub(self, rhs: Self) -> (r: Result<Self, CoordinateOverflowError>)
        ensures
            r is Ok <==> self.sub_in_range(rhs),
            r matches Ok(c) ==> c == self.spec_sub(rhs),
            r matches Err(e) ==> e.0 == self,
    {
        let x = match self.x.checked_sub(rhs.x) {
            Some(v) => v,
            None => {
                return Err(CoordinateOverflowError(self));
            },
        };
        let y = match self.y.checked_sub(rhs.y) {
            Some(v) => v,
            None => {
                return Err(CoordinateOverflowError(self));
            },
        };
        let z = match self.z.checked_sub(rhs.z) {
            Some(v) => v,
            None => {
                return Err(CoordinateOverflowError(self));
            },
        };
        Ok(UnsignedCoordinate::new(x, y, z))
    }

    /// Checked subtraction of a scalar from every axis.
    pub fn sub_scalar(self, rhs: u64) -> (r: Result<Self, CoordinateOverflowError>)
        ensures
            r is Ok <==> self.sub_in_range(Self::spec_splat(rhs)),
            r matches Ok(c) ==> c == self.spec_sub(Self::spec_splat(rhs)),
            r matches Err(e) ==> e.0 == self,
    {
        self.sub(UnsignedCoordinate::splat(rhs))
    }

    /// In-place checked subtraction: on failure the value is left unchanged.
    pub fn sub_assign(&mut self, rhs: Self) -> (r: Result<(), CoordinateOverflowError>)
        ensures
            r is Ok <==> old(self).sub_in_range(rhs),
            r is Ok ==> *final(self) == old(self).spec_sub(rhs),
            r matches Err(e) ==> *final(self) == *old(self) && e.0 == *old(self),
    {
        match (*self).sub(rhs) {
            Ok(c) => {
                *self = c;
                Ok(())
            },
            Err(e) => Err(e),
        }
    }

    /// In-place checked subtraction of a scalar: on failure the value is left
    /// unchanged.
    pub fn sub_assign_scalar(&mut self, rhs: u64) -> (r: Result<(), CoordinateOverflowError>)
        ensures
            r is Ok <==> old(self).sub_in_range(Self::spec_splat(rhs)),
            r is Ok ==> *final(self) == old(self).spec_sub(Self::spec_splat(rhs)),
            r matches Err(e) ==> *final(self) == *old(self) && e.0 == *old(self),
    {
        self.sub_assign(UnsignedCoordinate::splat(rhs))
    }

    /// Checked component-wise multiplication; fails atomically when any axis
    /// overflows, carrying the left operand.
    pub fn mul(self, rhs: Self) -> (r: Result<Self, CoordinateOverflowError>)
        ensures
            r is Ok <==> self.mul_in_range(rhs),
            r matches Ok(c) ==> c == self.spec_mul(rhs),
            r matches Err(e) ==> e.0 == self,
    {
        let x = match self.x.checked_mul(rhs.x) {
            Some(v) => v,
            None => {
                return Err(CoordinateOverflowError(self));
            },
        };
        let y = match self.y.checked_mul(rhs.y) {
            Some(v) => v,
            None => {
                return Err(CoordinateOverflowError(self));
            },
        };
        let z = match self.z.checked_mul(rhs.z) {
            Some(v) => v,
            None => {
                return Err(CoordinateOverflowError(self));
            },
        };
        Ok(UnsignedCoordinate::new(x, y, z))
    }

    /// Checked multiplication of every axis by a scalar.
    pub fn mul_scalar(self, rhs: u64) -> (r: Result<Self, CoordinateOverflowError>)
        ensures
            r is Ok <==> self.mul_in_range(Self::spec_splat(rhs)),
            r matches Ok(c) ==> c == self.spec_mul(Self::spec_splat(rhs)),
            r matches Err(e) ==> e.0 == self,
    {
        self.mul(UnsignedCoordinate::splat(rhs))
    }

    /// In-place checked multiplication: on failure the value is left
    /// unchanged.
    pub fn mul_assign(&mut self, rhs: Self) -> (r: Result<(), CoordinateOverflowError>)
        ensures
            r is Ok <==> old(self).mul_in_range(rhs),
            r is Ok ==> *final(self) == old(self).spec_mul(rhs),
            r matches Err(e) ==> *final(self) == *old(self) && e.0 == *old(self),
    {
        match (*self).mul(rhs) {
            Ok(c) => {
                *self = c;
                Ok(())
            },
            Err(e) => Err(e),
        }
    }

    /// In-place checked multiplication by a scalar: on failure the value is
    /// left unchanged.
    pub fn mul_assign_scalar(&mut self, rhs: u64) -> (r: Result<(), CoordinateOverflowError>)
        ensures
            r is Ok <==> old(self).mul_in_range(Self::spec_splat(rhs)),
            r is Ok ==> *final(self) == old(self).spec_mul(Self::spec_splat(rhs)),
            r matches Err(e) ==> *final(self) == *old(self) && e.0 == *old(self),
    {
        self.mul_assign(UnsignedCoordinate::splat(rhs))
    }

    /// Checked component-wise division; fails atomically on a zero divisor,
    /// carrying the left operand.
    pub fn div(self, rhs: Self) -> (r: Result<Self, CoordinateOverflowError>)
        ensures
            r is Ok <==> self.div_defined(rhs),
            r matches Ok(c) ==> c == self.spec_div(rhs),
            r matches Err(e) ==> e.0 == self,
    {
        let x = match self.x.checked_div(rhs.x) {
            Some(v) => v,
            None => {
                return Err(CoordinateOverflowError(self));
            },
        };
        let y = match self.y.checked_div(rhs.y) {
            Some(v) => v,
            None => {
                return Err(CoordinateOverflowError(self));
            },
        };
        let z = match self.z.checked_div(rhs.z) {
            Some(v) => v,
            None => {
                return Err(CoordinateOverflowError(self));
            },
        };
        Ok(UnsignedCoordinate::new(x, y, z))
    }

    /// Checked division of every axis by a scalar.
    pub fn div_scalar(self, rhs: u64) -> (r: Result<Self, CoordinateOverflowError>)
        ensures
            r is Ok <==> self.div_defined(Self::spec_splat(rhs)),
            r matches Ok(c) ==> c == self.spec_div(Self::spec_splat(rhs)),
            r matches Err(e) ==> e.0 == self,
    {
        self.div(UnsignedCoordinate::splat(rhs))
    }

    /// In-place checked division: on failure the value is left unchanged.
    pub fn div_assign(&mut self, rhs: Self) -> (r: Result<(), CoordinateOverflowError>)
        ensures
            r is Ok <==> old(self).div_defined(rhs),
            r is Ok ==> *final(self) == old(self).spec_div(rhs),
            r matches Err(e) ==> *final(self) == *old(self) && e.0 == *old(self),
    {
        match (*self).div(rhs) {
            Ok(c) => {
                *self = c;
                Ok(())
            },
            Err(e) => Err(e),
        }
    }

    /// In-place checked division by a scalar: on failure the value is left
    /// unchanged.
    pub fn div_assign_scalar(&mut self, rhs: u64) -> (r: Result<(), CoordinateOverflowError>)
        ensures
            r is Ok <==> old(self).div_defined(Self::spec_splat(rhs)),
            r is Ok ==> *final(self) == old(self).spec_div(Self::spec_splat(rhs)),
            r matches Err(e) ==> *final(self) == *old(self) && e.0 == *old(self),
    {
        self.div_assign(UnsignedCoordinate::splat(rhs))
    }

    /// Checked component-wise remainder; fails atomically on a zero divisor,
    /// carrying the left operand.
    pub fn rem(self, rhs: Self) -> (r: Result<Self, CoordinateOverflowError>)
        ensures
            r is Ok <==> self.div_defined(rhs),
            r matches Ok(c) ==> c == self.spec_rem(rhs),
            r matches Err(e) ==> e.0 == self,
    {
        let x = match self.x.checked_rem(rhs.x) {
            Some(v) => v,
            None => {
                return Err(CoordinateOverflowError(self));
            },
        };
        let y = match self.y.checked_rem(rhs.y) {
            Some(v) => v,
            None => {
                return Err(CoordinateOverflowError(self));
            },
        };
        let z = match self.z.checked_rem(rhs.z) {
            Some(v) => v,
            None => {
                return Err(CoordinateOverflowError(self));
            },
        };
        Ok(UnsignedCoordinate::new(x, y, z))
    }

    /// Checked remainder of every axis by a scalar.
    pub fn rem_scalar(self, rhs: u64) -> (r: Result<Self, CoordinateOverflowError>)
        ensures
            r is Ok <==> self.div_defined(Self::spec_splat(rhs)),
            r matches Ok(c) ==> c == self.spec_rem(Self::spec_splat(rhs)),
            r matches Err(e) ==> e.0 == self,
    {
        self.rem(UnsignedCoordinate::splat(rhs))
    }

    /// In-place checked remainder: on failure the value is left unchanged.
    pub fn rem_assign(&mut self, rhs: Self) -> (r: Result<(), CoordinateOverflowError>)
        ensures
            r is Ok <==> old(self).div_defined(rhs),
            r is Ok ==> *final(self) == old(self).spec_rem(rhs),
            r matches Err(e) ==> *final(self) == *old(self) && e.0 == *old(self),
    {
        match (*self).rem(rhs) {
            Ok(c) => {
                *self = c;
                Ok(())
            },
            Err(e) => Err(e),
        }
    }

    /// In-place checked remainder by a scalar: on failure the value is left
    /// unchanged.
    pub fn rem_assign_scalar(&mut self, rhs: u64) -> (r: Result<(), CoordinateOverflowError>)
        ensures
            r is Ok <==> old(self).div_defined(Self::spec_splat(rhs)),
            r is Ok ==> *final(self) == old(self).spec_rem(Self::spec_splat(rhs)),
            r matches Err(e) ==> *final(self) == *old(self) && e.0 == *old(self),
    {
        self.rem_assign(UnsignedCoordinate::splat(rhs))
    }

    /// Component-wise bitwise NOT; never fails.
    pub fn not(self) -> (r: Self)
        ensures
            r == self.spec_not(),
    {
        UnsignedCoordinate::new(!self.x, !self.y, !self.z)
    }

    /// Component-wise bitwise AND; never fails.
    pub fn bitand(self, rhs: Self) -> (r: Self)
        ensures
            r == self.spec_bitand(rhs),
    {
        UnsignedCoordinate::new(self.x & rhs.x, self.y & rhs.y, self.z & rhs.z)
    }

    /// Bitwise AND of every axis with a scalar.
    pub fn bitand_scalar(self, rhs: u64) -> (r: Self)
        ensures
            r == self.spec_bitand(Self::spec_splat(rhs)),
    {
        self.bitand(UnsignedCoordinate::splat(rhs))
    }

    /// In-place component-wise bitwise AND.
    pub fn bitand_assign(&mut self, rhs: Self)
        ensures
            *final(self) == old(self).spec_bitand(rhs),
    {
        *self = (*self).bitand(rhs);
    }

    /// In-place bitwise AND of every axis with a scalar.
    pub fn bitand_assign_scalar(&mut self, rhs: u64)
        ensures
            *final(self) == old(self).spec_bitand(Self::spec_splat(rhs)),
    {
        self.bitand_assign(UnsignedCoordinate::splat(rhs));
    }

    /// Component-wise bitwise OR; never fails.
    pub fn bitor(self, rhs: Self) -> (r: Self)
        ensures
            r == self.spec_bitor(rhs),
    {
        UnsignedCoordinate::new(self.x | rhs.x, self.y | rhs.y, self.z | rhs.z)
    }

    /// Bitwise OR of every axis with a scalar.
    pub fn bitor_scalar(self, rhs: u64) -> (r: Self)
        ensures
            r == self.spec_bitor(Self::spec_splat(rhs)),
    {
        self.bitor(UnsignedCoordinate::splat(rhs))
    }

    /// In-place component-wise bitwise OR.
    pub fn bitor_assign(&mut self, rhs: Self)
        ensures
            *final(self) == old(self).spec_bitor(rhs),
    {
        *self = (*self).bitor(rhs);
    }

    /// In-place bitwise OR of every axis with a scalar.
    pub fn bitor_assign_scalar(&mut self, rhs: u64)
        ensures
            *final(self) == old(self).spec_bitor(Self::spec_splat(rhs)),
    {
        self.bitor_assign(UnsignedCoordinate::splat(rhs));
    }

    /// Component-wise bitwise XOR; never fails.
    pub fn bitxor(self, rhs: Self) -> (r: Self)
        ensures
            r == self.spec_bitxor(rhs),
    {
        UnsignedCoordinate::new(self.x ^ rhs.x, self.y ^ rhs.y, self.z ^ rhs.z)
    }

    /// Bitwise XOR of every axis with a scalar.
    pub fn bitxor_scalar(self, rhs: u64) -> (r: Self)
        ensures
            r == self.spec_bitxor(Self::spec_splat(rhs)),
    {
        self.bitxor(UnsignedCoordinate::splat(rhs))
    }

    /// In-place component-wise bitwise XOR.
    pub fn bitxor_assign(&mut self, rhs: Self)
        ensures
            *final(self) == old(self).spec_bitxor(rhs),
    {
        *self = (*self).bitxor(rhs);
    }

    /// In-place bitwise XOR of every axis with a scalar.
    pub fn bitxor_assign_scalar(&mut self, rhs: u64)
        ensures
            *final(self) == old(self).spec_bitxor(Self::spec_splat(rhs)),
    {
        self.bitxor_assign(UnsignedCoordinate::splat(rhs));
    }

    /// Renders the canonical textual form, embedding the type's name and the
    /// three axes in order.
    pub fn to_text(&self) -> (r: String)
        ensures
            r@ == self.text_view(),
    {
        let mut s = String::new();
        s.append("(UnsignedCoordinate: ");
        let x_text = crate::text::u64_text(self.x);
        s.append(x_text.as_str());
        s.append(", ");
        let y_text = crate::text::u64_text(self.y);
        s.append(y_text.as_str());
        s.append(", ");
        let z_text = crate::text::u64_text(self.z);
        s.append(z_text.as_str());
        s.append(")");
        proof {
            assert(s@ =~= self.text_view());
        }
        s
    }

    /// Creates a coordinate whose axes are drawn independently from the full
    /// range of the field type.
    pub fn arbitrary(g: &mut quickcheck::Gen) -> Self {
        UnsignedCoordinate::new(
            crate::random::arbitrary_u64(g),
            crate::random::arbitrary_u64(g),
            crate::random::arbitrary_u64(g),
        )
    }
}

impl CoordinateTrait for UnsignedCoordinate {
    type FieldType = u64;

    open spec fn spec_x(&self) -> u64 {
        self.x
    }

    open spec fn spec_y(&self) -> u64 {
        self.y
    }

    open spec fn spec_z(&self) -> u64 {
        self.z
    }

    open spec fn field_max() -> u64 {
        u64::MAX
    }

    open spec fn field_min() -> u64 {
        0
    }

    fn max_value() -> Self {
        UnsignedCoordinate::max_value()
    }

    fn min_value() -> Self {
        UnsignedCoordinate::min_value()
    }

    fn new(x: u64, y: u64, z: u64) -> Self {
        UnsignedCoordinate::new(x, y, z)
    }

    fn splat(n: u64) -> Self {
        UnsignedCoordinate::splat(n)
    }
}

} // verus!
