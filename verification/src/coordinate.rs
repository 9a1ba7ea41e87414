//! The canonical world-space coordinate: three integer axes with checked,
//! fail-fast arithmetic and component-wise bitwise operators.

use crate::coordinate_trait::CoordinateTrait;
use crate::text::int_text;
use vstd::prelude::*;
use vstd::string::StringExecFns;

verus! {

/// `Coord`'s field type.
///
/// i32: from -2,147,483,648 to 2,147,483,647. A larger size would double the
/// RAM usage per instance, and even this range is already generous for world
/// space.
pub type CoordinateType = i32;

/// The coordinate type to use when interfacing with the game world.
pub type Coordinate = Coord;

/// True when `v` is representable in the coordinate's field type.
pub open spec fn in_range(v: int) -> bool {
    CoordinateType::MIN <= v <= CoordinateType::MAX
}

/// 3D Coordinate in absolute space.
#[derive(Clone, Copy, Debug, PartialEq, Eq, Structural)]
pub struct Coord {
    pub x: CoordinateType,
    pub y: CoordinateType,
    pub z: CoordinateType,
}

/// An arithmetic operation's true result could not be represented in the
/// field type; carries the pre-overflow operand for diagnostics.
#[derive(Clone, Copy, Debug, PartialEq, Eq, Structural)]
pub struct CoordinateOverflowError(pub Coord);

impl CoordinateOverflowError {
    /// The diagnostic text of the error.
    pub open spec fn text_view(self) -> Seq<char> {
        self.0.text_view() + " is experiencing integer overflow."@
    }

    /// Renders the diagnostic text of the error.
    pub fn to_text(&self) -> (r: String)
        ensures
            r@ == self.text_view(),
    {
        let mut s = self.0.to_text();
        s.append(" is experiencing integer overflow.");
        s
    }
}

impl Coord {
    /// The coordinate with every axis set to `n`.
    pub open spec fn spec_splat(n: CoordinateType) -> Coord {
        Coord { x: n, y: n, z: n }
    }

    /// True when the component-wise sum is representable on every axis.
    pub open spec fn add_in_range(self, rhs: Coord) -> bool {
        in_range(self.x + rhs.x) && in_range(self.y + rhs.y) && in_range(self.z + rhs.z)
    }

    /// The component-wise sum, meaningful when `add_in_range` holds.
    pub open spec fn spec_add(self, rhs: Coord) -> Coord {
        Coord {
            x: (self.x + rhs.x) as CoordinateType,
            y: (self.y + rhs.y) as CoordinateType,
            z: (self.z + rhs.z) as CoordinateType,
        }
    }

    /// True when the component-wise difference is representable on every axis.
    pub open spec fn sub_in_range(self, rhs: Coord) -> bool {
        in_range(self.x - rhs.x) && in_range(self.y - rhs.y) && in_range(self.z - rhs.z)
    }

    /// The component-wise difference, meaningful when `sub_in_range` holds.
    pub open spec fn spec_sub(self, rhs: Coord) -> Coord {
        Coord {
            x: (self.x - rhs.x) as CoordinateType,
            y: (self.y - rhs.y) as CoordinateType,
            z: (self.z - rhs.z) as CoordinateType,
        }
    }

    /// True when the component-wise product is representable on every axis.
    pub open spec fn mul_in_range(self, rhs: Coord) -> bool {
        in_range(self.x * rhs.x) && in_range(self.y * rhs.y) && in_range(self.z * rhs.z)
    }

    /// The component-wise product, meaningful when `mul_in_range` holds.
    pub open spec fn spec_mul(self, rhs: Coord) -> Coord {
        Coord {
            x: (self.x * rhs.x) as CoordinateType,
            y: (self.y * rhs.y) as CoordinateType,
            z: (self.z * rhs.z) as CoordinateType,
        }
    }

    /// True when every axis of the component-wise quotient is defined and
    /// representable (no zero divisor, no overflowing quotient).
    pub open spec fn div_defined(self, rhs: Coord) -> bool {
        self.x.checked_div(rhs.x) is Some && self.y.checked_div(rhs.y) is Some
            && self.z.checked_div(rhs.z) is Some
    }

    /// True when every axis of the component-wise remainder is defined and
    /// representable (no zero divisor, no overflowing division).
    pub open spec fn rem_defined(self, rhs: Coord) -> bool {
        self.x.checked_rem(rhs.x) is Some && self.y.checked_rem(rhs.y) is Some
            && self.z.checked_rem(rhs.z) is Some
    }

    /// True when the component-wise negation is representable on every axis.
    pub open spec fn neg_in_range(self) -> bool {
        in_range(-self.x) && in_range(-self.y) && in_range(-self.z)
    }

    /// The component-wise negation, meaningful when `neg_in_range` holds.
    pub open spec fn spec_neg(self) -> Coord {
        Coord {
            x: (-self.x) as CoordinateType,
            y: (-self.y) as CoordinateType,
            z: (-self.z) as CoordinateType,
        }
    }

    /// The component-wise bitwise AND.
    pub open spec fn spec_bitand(self, rhs: Coord) -> Coord {
        Coord { x: self.x & rhs.x, y: self.y & rhs.y, z: self.z & rhs.z }
    }

    /// The component-wise bitwise OR.
    pub open spec fn spec_bitor(self, rhs: Coord) -> Coord {
        Coord { x: self.x | rhs.x, y: self.y | rhs.y, z: self.z | rhs.z }
    }

    /// The component-wise bitwise XOR.
    pub open spec fn spec_bitxor(self, rhs: Coord) -> Coord {
        Coord { x: self.x ^ rhs.x, y: self.y ^ rhs.y, z: self.z ^ rhs.z }
    }

    /// The component-wise bitwise NOT.
    pub open spec fn spec_not(self) -> Coord {
        Coord { x: !self.x, y: !self.y, z: !self.z }
    }

    /// The canonical textual form: the type's name and the axes in order.
    pub open spec fn text_view(self) -> Seq<char> {
        "(Coordinate: "@ + int_text(self.x as int) + ", "@ + int_text(self.y as int) + ", "@
            + int_text(self.z as int) + ")"@
    }

    /// Represents the largest possible `Coord` on all axes.
    pub fn max_value() -> (r: Self)
        ensures
            r == Self::spec_splat(CoordinateType::MAX),
    {
        Coord::splat(CoordinateType::MAX)
    }

    /// Represents the smallest possible `Coord` on all axes.
    pub fn min_value() -> (r: Self)
        ensures
            r == Self::spec_splat(CoordinateType::MIN),
    {
        Coord::splat(CoordinateType::MIN)
    }

    /// Creates a new `Coord` from its three axes.
    pub fn new(x: CoordinateType, y: CoordinateType, z: CoordinateType) -> (r: Self)
        ensures
            r.x == x,
            r.y == y,
            r.z == z,
    {
        Coord { x, y, z }
    }

    /// Creates a new `Coord`, assigning all axes to the input.
    pub fn splat(n: CoordinateType) -> (r: Self)
        ensures
            r == Self::spec_splat(n),
    {
        Coord::new(n, n, n)
    }

    /// Checked component-wise addition; fails atomically when any axis
    /// overflows, carrying the left operand.
    pub fn add(self, rhs: Self) -> (r: Result<Self, CoordinateOverflowError>)
        ensures
            r is Ok <==> self.add_in_range(rhs),
            r matches Ok(c) ==> c == self.spec_add(rhs),
            r matches Err(e) ==> e.0 == self,
    {
        let x = match self.x.checked_add(rhs.x) {
            Some(v) => v,
            None => {
                return Err(CoordinateOverflowError(self));
            },
        };
        let y = match self.y.checked_add(rhs.y) {
            Some(v) => v,
            None => {
                return Err(CoordinateOverflowError(self));
            },
        };
        let z = match self.z.checked_add(rhs.z) {
            Some(v) => v,
            None => {
                return Err(CoordinateOverflowError(self));
            },
        };
        Ok(Coord::new(x, y, z))
    }

    /// Checked addition of a scalar to every axis.
    pub fn add_scalar(self, rhs: CoordinateType) -> (r: Result<Self, CoordinateOverflowError>)
        ensures
            r is Ok <==> self.add_in_range(Self::spec_splat(rhs)),
            r matches Ok(c) ==> c == self.spec_add(Self::spec_splat(rhs)),
            r matches Err(e) ==> e.0 == self,
    {
        self.add(Coord::splat(rhs))
    }

    /// In-place checked addition: on failure the value is left unchanged.
    pub fn add_assign(&mut self, rhs: Self) -> (r: Result<(), CoordinateOverflowError>)
        ensures
            r is Ok <==> old(self).add_in_range(rhs),
            r is Ok ==> *final(self) == old(self).spec_add(rhs),
            r matches Err(e) ==> *final(self) == *old(self) && e.0 == *old(self),
    {
        match (*self).add(rhs) {
            Ok(c) => {
                *self = c;
                Ok(())
            },
            Err(e) => Err(e),
        }
    }

    /// In-place checked addition of a scalar: on failure the value is left
    /// unchanged.
    pub fn add_assign_scalar(&mut self, rhs: CoordinateType) -> (r: Result<
        (),
        CoordinateOverflowError,
    >)
        ensures
            r is Ok <==> old(self).add_in_range(Self::spec_splat(rhs)),
            r is Ok ==> *final(self) == old(self).spec_add(Self::spec_splat(rhs)),
            r matches Err(e) ==> *final(self) == *old(self) && e.0 == *old(self),
    {
        self.add_assign(Coord::splat(rhs))
    }

    /// Checked component-wise subtraction; fails atomically when any axis
    /// underflows, carrying the left operand.
    pub fn sub(self, rhs: Self) -> (r: Result<Self, CoordinateOverflowError>)
        ensures
            r is Ok <==> self.sub_in_range(rhs),
            r matches Ok(c) ==> c == self.spec_sub(rhs),
            r matches Err(e) ==> e.0 == self,
    {
        let x = match self.x.checked_sub(rhs.x) {
            Some(v) => v,
            None => {
                return Err(CoordinateOverflowError(self));
            },
        };
        let y = match self.y.checked_sub(rhs.y) {
            Some(v) => v,
            None => {
                return Err(CoordinateOverflowError(self));
            },
        };
        let z = match self.z.checked_sub(rhs.z) {
            Some(v) => v,
            None => {
                return Err(CoordinateOverflowError(self));
            },
        };
        Ok(Coord::new(x, y, z))
    }

    /// Checked subtraction of a scalar from every axis.
    pub fn sub_scalar(self, rhs: CoordinateType) -> (r: Result<Self, CoordinateOverflowError>)
        ensures
            r is Ok <==> self.sub_in_range(Self::spec_splat(rhs)),
            r matches Ok(c) ==> c == self.spec_sub(Self::spec_splat(rhs)),
            r matches Err(e) ==> e.0 == self,
    {
        self.sub(Coord::splat(rhs))
    }

    /// In-place checked subtraction: on failure the value is left unchanged.
    pub fn sub_assign(&mut self, rhs: Self) -> (r: Result<(), CoordinateOverflowError>)
        ensures
            r is Ok <==> old(self).sub_in_range(rhs),
            r is Ok ==> *final(self) == old(self).spec_sub(rhs),
            r matches Err(e) ==> *final(self) == *old(self) && e.0 == *old(self),
    {
        match (*self).sub(rhs) {
            Ok(c) => {
                *self = c;
                Ok(())
            },
            Err(e) => Err(e),
        }
    }

    /// In-place checked subtraction of a scalar: on failure the value is left
    /// unchanged.
    pub fn sub_assign_scalar(&mut self, rhs: CoordinateType) -> (r: Result<
        (),
        CoordinateOverflowError,
    >)
        ensures
            r is Ok <==> old(self).sub_in_range(Self::spec_splat(rhs)),
            r is Ok ==> *final(self) == old(self).spec_sub(Self::spec_splat(rhs)),
            r matches Err(e) ==> *final(self) == *old(self) && e.0 == *old(self),
    {
        self.sub_assign(Coord::splat(rhs))
    }

    /// Checked component-wise multiplication; fails atomically when any axis
    /// overflows, carrying the left operand.
    pub fn mul(self, rhs: Self) -> (r: Result<Self, CoordinateOverflowError>)
        ensures
            r is Ok <==> self.mul_in_range(rhs),
            r matches Ok(c) ==> c == self.spec_mul(rhs),
            r matches Err(e) ==> e.0 == self,
    {
        let x = match self.x.checked_mul(rhs.x) {
            Some(v) => v,
            None => {
                return Err(CoordinateOverflowError(self));
            },
        };
        let y = match self.y.checked_mul(rhs.y) {
            Some(v) => v,
            None => {
                return Err(CoordinateOverflowError(self));
            },
        };
        let z = match self.z.checked_mul(rhs.z) {
            Some(v) => v,
            None => {
                return Err(CoordinateOverflowError(self));
            },
        };
        Ok(Coord::new(x, y, z))
    }

    /// Checked multiplication of every axis by a scalar.
    pub fn mul_scalar(self, rhs: CoordinateType) -> (r: Result<Self, CoordinateOverflowError>)
        ensures
            r is Ok <==> self.mul_in_range(Self::spec_splat(rhs)),
            r matches Ok(c) ==> c == self.spec_mul(Self::spec_splat(rhs)),
            r matches Err(e) ==> e.0 == self,
    {
        self.mul(Coord::splat(rhs))
    }

    /// In-place checked multiplication: on failure the value is left
    /// unchanged.
    pub fn mul_assign(&mut self, rhs: Self) -> (r: Result<(), CoordinateOverflowError>)
        ensures
            r is Ok <==> old(self).mul_in_range(rhs),
            r is Ok ==> *final(self) == old(self).spec_mul(rhs),
            r matches Err(e) ==> *final(self) == *old(self) && e.0 == *old(self),
    {
        match (*self).mul(rhs) {
            Ok(c) => {
                *self = c;
                Ok(())
            },
            Err(e) => Err(e),
        }
    }

    /// In-place checked multiplication by a scalar: on failure the value is
    /// left unchanged.
    pub fn mul_assign_scalar(&mut self, rhs: CoordinateType) -> (r: Result<
        (),
        CoordinateOverflowError,
    >)
        ensures
            r is Ok <==> old(self).mul_in_range(Self::spec_splat(rhs)),
            r is Ok ==> *final(self) == old(self).spec_mul(Self::spec_splat(rhs)),
            r matches Err(e) ==> *final(self) == *old(self) && e.0 == *old(self),
    {
        self.mul_assign(Coord::splat(rhs))
    }

    /// Checked component-wise division; fails atomically on a zero divisor or
    /// an overflowing quotient, carrying the left operand.
    pub fn div(self, rhs: Self) -> (r: Result<Self, CoordinateOverflowError>)
        ensures
            r is Ok <==> self.div_defined(rhs),
            r matches Ok(c) ==> Some(c.x) == self.x.checked_div(rhs.x) && Some(c.y)
                == self.y.checked_div(rhs.y) && Some(c.z) == self.z.checked_div(rhs.z),
            r matches Err(e) ==> e.0 == self,
    {
        let x = match self.x.checked_div(rhs.x) {
            Some(v) => v,
            None => {
                return Err(CoordinateOverflowError(self));
            },
        };
        let y = match self.y.checked_div(rhs.y) {
            Some(v) => v,
            None => {
                return Err(CoordinateOverflowError(self));
            },
        };
        let z = match self.z.checked_div(rhs.z) {
            Some(v) => v,
            None => {
                return Err(CoordinateOverflowError(self));
            },
        };
        Ok(Coord::new(x, y, z))
    }

    /// Checked division of every axis by a scalar.
    pub fn div_scalar(self, rhs: CoordinateType) -> (r: Result<Self, CoordinateOverflowError>)
        ensures
            r is Ok <==> self.div_defined(Self::spec_splat(rhs)),
            r matches Ok(c) ==> Some(c.x) == self.x.checked_div(rhs) && Some(c.y)
                == self.y.checked_div(rhs) && Some(c.z) == self.z.checked_div(rhs),
            r matches Err(e) ==> e.0 == self,
    {
        self.div(Coord::splat(rhs))
    }

    /// In-place checked division: on failure the value is left unchanged.
    pub fn div_assign(&mut self, rhs: Self) -> (r: Result<(), CoordinateOverflowError>)
        ensures
            r is Ok <==> old(self).div_defined(rhs),
            r is Ok ==> Some(final(self).x) == old(self).x.checked_div(rhs.x) && Some(
                final(self).y,
            ) == old(self).y.checked_div(rhs.y) && Some(final(self).z) == old(self).z.checked_div(
                rhs.z,
            ),
            r matches Err(e) ==> *final(self) == *old(self) && e.0 == *old(self),
    {
        match (*self).div(rhs) {
            Ok(c) => {
                *self = c;
                Ok(())
            },
            Err(e) => Err(e),
        }
    }

    /// In-place checked division by a scalar: on failure the value is left
    /// unchanged.
    pub fn div_assign_scalar(&mut self, rhs: CoordinateType) -> (r: Result<
        (),
        CoordinateOverflowError,
    >)
        ensures
            r is Ok <==> old(self).div_defined(Self::spec_splat(rhs)),
            r is Ok ==> Some(final(self).x) == old(self).x.checked_div(rhs) && Some(final(self).y)
                == old(self).y.checked_div(rhs) && Some(final(self).z) == old(self).z.checked_div(
                rhs,
            ),
            r matches Err(e) ==> *final(self) == *old(self) && e.0 == *old(self),
    {
        self.div_assign(Coord::splat(rhs))
    }

    /// Checked component-wise remainder; fails atomically on a zero divisor
    /// or an overflowing division, carrying the left operand.
    pub fn rem(self, rhs: Self) -> (r: Result<Self, CoordinateOverflowError>)
        ensures
            r is Ok <==> self.rem_defined(rhs),
            r matches Ok(c) ==> Some(c.x) == self.x.checked_rem(rhs.x) && Some(c.y)
                == self.y.checked_rem(rhs.y) && Some(c.z) == self.z.checked_rem(rhs.z),
            r matches Err(e) ==> e.0 == self,
    {
        let x = match self.x.checked_rem(rhs.x) {
            Some(v) => v,
            None => {
                return Err(CoordinateOverflowError(self));
            },
        };
        let y = match self.y.checked_rem(rhs.y) {
            Some(v) => v,
            None => {
                return Err(CoordinateOverflowError(self));
            },
        };
        let z = match self.z.checked_rem(rhs.z) {
            Some(v) => v,
            None => {
                return Err(CoordinateOverflowError(self));
            },
        };
        Ok(Coord::new(x, y, z))
    }

    /// Checked remainder of every axis by a scalar.
    pub fn rem_scalar(self, rhs: CoordinateType) -> (r: Result<Self, CoordinateOverflowError>)
        ensures
            r is Ok <==> self.rem_defined(Self::spec_splat(rhs)),
            r matches Ok(c) ==> Some(c.x) == self.x.checked_rem(rhs) && Some(c.y)
                == self.y.checked_rem(rhs) && Some(c.z) == self.z.checked_rem(rhs),
            r matches Err(e) ==> e.0 == self,
    {
        self.rem(Coord::splat(rhs))
    }

    /// In-place checked remainder: on failure the value is left unchanged.
    pub fn rem_assign(&mut self, rhs: Self) -> (r: Result<(), CoordinateOverflowError>)
        ensures
            r is Ok <==> old(self).rem_defined(rhs),
            r is Ok ==> Some(final(self).x) == old(self).x.checked_rem(rhs.x) && Some(
                final(self).y,
            ) == old(self).y.checked_rem(rhs.y) && Some(final(self).z) == old(self).z.checked_rem(
                rhs.z,
            ),
            r matches Err(e) ==> *final(self) == *old(self) && e.0 == *old(self),
    {
        match (*self).rem(rhs) {
            Ok(c) => {
                *self = c;
                Ok(())
            },
            Err(e) => Err(e),
        }
    }

    /// In-place checked remainder by a scalar: on failure the value is left
    /// unchanged.
    pub fn rem_assign_scalar(&mut self, rhs: CoordinateType) -> (r: Result<
        (),
        CoordinateOverflowError,
    >)
        ensures
            r is Ok <==> old(self).rem_defined(Self::spec_splat(rhs)),
            r is Ok ==> Some(final(self).x) == old(self).x.checked_rem(rhs) && Some(final(self).y)
                == old(self).y.checked_rem(rhs) && Some(final(self).z) == old(self).z.checked_rem(
                rhs,
            ),
            r matches Err(e) ==> *final(self) == *old(self) && e.0 == *old(self),
    {
        self.rem_assign(Coord::splat(rhs))
    }

    /// Checked component-wise negation; fails when any axis holds the
    /// smallest value, whose negation is not representable.
    pub fn neg(self) -> (r: Result<Self, CoordinateOverflowError>)
        ensures
            r is Ok <==> self.neg_in_range(),
            r matches Ok(c) ==> c == self.spec_neg(),
            r matches Err(e) ==> e.0 == self,
    {
        if self.x == CoordinateType::MIN || self.y == CoordinateType::MIN || self.z
            == CoordinateType::MIN {
            return Err(CoordinateOverflowError(self));
        }
        Ok(Coord::new(-self.x, -self.y, -self.z))
    }

    /// Component-wise bitwise NOT; never fails.
    pub fn not(self) -> (r: Self)
        ensures
            r == self.spec_not(),
    {
        Coord::new(!self.x, !self.y, !self.z)
    }

    /// Component-wise bitwise AND; never fails.
    pub fn bitand(self, rhs: Self) -> (r: Self)
        ensures
            r == self.spec_bitand(rhs),
    {
        Coord::new(self.x & rhs.x, self.y & rhs.y, self.z & rhs.z)
    }

    /// Bitwise AND of every axis with a scalar.
    pub fn bitand_scalar(self, rhs: CoordinateType) -> (r: Self)
        ensures
            r == self.spec_bitand(Self::spec_splat(rhs)),
    {
        self.bitand(Coord::splat(rhs))
    }

    /// In-place component-wise bitwise AND.
    pub fn bitand_assign(&mut self, rhs: Self)
        ensures
            *final(self) == old(self).spec_bitand(rhs),
    {
        *self = (*self).bitand(rhs);
    }

    /// In-place bitwise AND of every axis with a scalar.
    pub fn bitand_assign_scalar(&mut self, rhs: CoordinateType)
        ensures
            *final(self) == old(self).spec_bitand(Self::spec_splat(rhs)),
    {
        self.bitand_assign(Coord::splat(rhs));
    }

    /// Component-wise bitwise OR; never fails.
    pub fn bitor(self, rhs: Self) -> (r: Self)
        ensures
            r == self.spec_bitor(rhs),
    {
        Coord::new(self.x | rhs.x, self.y | rhs.y, self.z | rhs.z)
    }

    /// Bitwise OR of every axis with a scalar.
    pub fn bitor_scalar(self, rhs: CoordinateType) -> (r: Self)
        ensures
            r == self.spec_bitor(Self::spec_splat(rhs)),
    {
        self.bitor(Coord::splat(rhs))
    }

    /// In-place component-wise bitwise OR.
    pub fn bitor_assign(&mut self, rhs: Self)
        ensures
            *final(self) == old(self).spec_bitor(rhs),
    {
        *self = (*self).bitor(rhs);
    }

    /// In-place bitwise OR of every axis with a scalar.
    pub fn bitor_assign_scalar(&mut self, rhs: CoordinateType)
        ensures
            *final(self) == old(self).spec_bitor(Self::spec_splat(rhs)),
    {
        self.bitor_assign(Coord::splat(rhs));
    }

    /// Component-wise bitwise XOR; never fails.
    pub fn bitxor(self, rhs: Self) -> (r: Self)
        ensures
            r == self.spec_bitxor(rhs),
    {
        Coord::new(self.x ^ rhs.x, self.y ^ rhs.y, self.z ^ rhs.z)
    }

    /// Bitwise XOR of every axis with a scalar.
    pub fn bitxor_scalar(self, rhs: CoordinateType) -> (r: Self)
        ensures
            r == self.spec_bitxor(Self::spec_splat(rhs)),
    {
        self.bitxor(Coord::splat(rhs))
    }

    /// In-place component-wise bitwise XOR.
    pub fn bitxor_assign(&mut self, rhs: Self)
        ensures
            *final(self) == old(self).spec_bitxor(rhs),
    {
        *self = (*self).bitxor(rhs);
    }

    /// In-place bitwise XOR of every axis with a scalar.
    pub fn bitxor_assign_scalar(&mut self, rhs: CoordinateType)
        ensures
            *final(self) == old(self).spec_bitxor(Self::spec_splat(rhs)),
    {
        self.bitxor_assign(Coord::splat(rhs));
    }

    /// Renders the canonical textual form, embedding the type's name and the
    /// three axes in order.
    pub fn to_text(&self) -> (r: String)
        ensures
            r@ == self.text_view(),
    {
        let mut s = String::new();
        s.append("(Coordinate: ");
        let x_text = crate::text::i64_text(self.x as i64);
        s.append(x_text.as_str());
        s.append(", ");
        let y_text = crate::text::i64_text(self.y as i64);
        s.append(y_text.as_str());
        s.append(", ");
        let z_text = crate::text::i64_text(self.z as i64);
        s.append(z_text.as_str());
        s.append(")");
        proof {
            assert(s@ =~= self.text_view());
        }
        s
    }

    /// Creates a coordinate whose axes are drawn independently from the full
    /// range of the field type.
    pub fn arbitrary(g: &mut quickcheck::Gen) -> Self {
        Coord::new(
            crate::random::arbitrary_i32(g),
            crate::random::arbitrary_i32(g),
            crate::random::arbitrary_i32(g),
        )
    }
}

impl CoordinateTrait for Coord {
    type FieldType = CoordinateType;

    open spec fn spec_x(&self) -> CoordinateType {
        self.x
    }

    open spec fn spec_y(&self) -> CoordinateType {
        self.y
    }

    open spec fn spec_z(&self) -> CoordinateType {
        self.z
    }

    open spec fn field_max() -> CoordinateType {
        CoordinateType::MAX
    }

    open spec fn field_min() -> CoordinateType {
        CoordinateType::MIN
    }

    fn max_value() -> Self {
        Coord::max_value()
    }

    fn min_value() -> Self {
        Coord::min_value()
    }

    fn new(x: CoordinateType, y: CoordinateType, z: CoordinateType) -> Self {
        Coord::new(x, y, z)
    }

    fn splat(n: CoordinateType) -> Self {
        Coord::splat(n)
    }
}

/// Law: the all-zero coordinate is the additive identity. Adding it never
/// overflows and returns the other operand unchanged.
pub proof fn lemma_splat_zero_is_add_identity(c: Coord)
    ensures
        c.add_in_range(Coord::spec_splat(0)),
        c.spec_add(Coord::spec_splat(0)) == c,
{
}

/// Law: bitwise NOT is an involution on coordinates.
pub proof fn lemma_not_involution(c: Coord)
    ensures
        c.spec_not().spec_not() == c,
{
    let x = c.x;
    let y = c.y;
    let z = c.z;
    assert(!(!x) == x) by (bit_vector);
    assert(!(!y) == y) by (bit_vector);
    assert(!(!z) == z) by (bit_vector);
}

} // verus!
