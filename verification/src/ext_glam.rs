//! Declarations that let glam's quaternion type stand in the library's
//! signatures. The library never looks inside a quaternion: orientation
//! values are produced by the floating-point filter outside the library and
//! carried through it whole, so the type stays opaque here.

use vstd::prelude::*;

verus! {

/// Verus declaration of `glam::Quat`, the orientation value the sensor
/// array reports. Opaque: no field of it is visible to proofs.
#[verifier::external_type_specification]
#[verifier::external_body]
pub struct ExQuat(glam::Quat);

/// Relies on glam's `Clone` for `Quat` (a plain field-wise copy of a `Copy`
/// struct): the clone is the same value.
pub assume_specification[ <glam::Quat as Clone>::clone ](q: &glam::Quat) -> (r: glam::Quat)
    ensures
        r == *q,
;

} // verus!
