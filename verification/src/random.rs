//! Randomized axis values for property-based testing, drawn through the
//! `quickcheck` crate's generator.

use vstd::prelude::*;

verus! {

#[verifier::external_type_specification]
#[verifier::external_body]
pub struct ExGen(quickcheck::Gen);

/// Relies on quickcheck's `Arbitrary` for `i32`: draws a value from the full
/// range of the type. The result depends on the generator's random state, so
/// nothing is promised of it.
#[verifier::external_body]
pub(crate) fn arbitrary_i32(g: &mut quickcheck::Gen) -> i32 {
    <i32 as quickcheck::Arbitrary>::arbitrary(g)
}

/// Relies on quickcheck's `Arbitrary` for `i64`: draws a value from the full
/// range of the type. The result depends on the generator's random state, so
/// nothing is promised of it.
#[verifier::external_body]
pub(crate) fn arbitrary_i64(g: &mut quickcheck::Gen) -> i64 {
    <i64 as quickcheck::Arbitrary>::arbitrary(g)
}

/// Relies on quickcheck's `Arbitrary` for `u64`: draws a value from the full
/// range of the type. The result depends on the generator's random state, so
/// nothing is promised of it.
#[verifier::external_body]
pub(crate) fn arbitrary_u64(g: &mut quickcheck::Gen) -> u64 {
    <u64 as quickcheck::Arbitrary>::arbitrary(g)
}

} // verus!
