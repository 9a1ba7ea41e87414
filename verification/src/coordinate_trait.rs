//! The interface that every coordinate type of this crate offers.

use vstd::prelude::*;

verus! {

/// The common constructors of a three-axis coordinate value, with the
/// guarantee that construction stores the given axes unchanged.
pub trait CoordinateTrait: Sized {
    /// The integer type of each axis.
    type FieldType;

    /// The value of the x axis.
    spec fn spec_x(&self) -> Self::FieldType;

    /// The value of the y axis.
    spec fn spec_y(&self) -> Self::FieldType;

    /// The value of the z axis.
    spec fn spec_z(&self) -> Self::FieldType;

    /// The largest value of the field type.
    spec fn field_max() -> Self::FieldType;

    /// The smallest value of the field type.
    spec fn field_min() -> Self::FieldType;

    /// The largest possible coordinate on all axes.
    fn max_value() -> (r: Self)
        ensures
            r.spec_x() == Self::field_max(),
            r.spec_y() == Self::field_max(),
            r.spec_z() == Self::field_max(),
    ;

    /// The smallest possible coordinate on all axes.
    fn min_value() -> (r: Self)
        ensures
            r.spec_x() == Self::field_min(),
            r.spec_y() == Self::field_min(),
            r.spec_z() == Self::field_min(),
    ;

    /// Creates a value from its three axes.
    fn new(x: Self::FieldType, y: Self::FieldType, z: Self::FieldType) -> (r: Self)
        ensures
            r.spec_x() == x,
            r.spec_y() == y,
            r.spec_z() == z,
    ;

    /// Creates a value with all axes equal to the input.
    fn splat(n: Self::FieldType) -> (r: Self)
        ensures
            r.spec_x() == n,
            r.spec_y() == n,
            r.spec_z() == n,
    ;
}

} // verus!
