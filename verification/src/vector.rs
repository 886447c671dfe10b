//! The vectors and rotations of `bevy::math` that an extrusion carries, and
//! the four operations on them that it needs.
//!
//! Their components are floating-point numbers, which are not reasoned about
//! here: a vector or a rotation is a value that is handed on unopened, and
//! the result of each operation has a name. What the contracts of this crate
//! say of a mesh, they say over these names.

use bevy::math::{Quat, Vec3};
use vstd::prelude::*;

verus! {

#[verifier::external_type_specification]
#[verifier::external_body]
pub struct ExVec3(Vec3);

#[verifier::external_type_specification]
#[verifier::external_body]
pub struct ExQuat(Quat);

/// What `Vec3::try_normalize` gives for `v`: `v` scaled to length one, or
/// `None` where the reciprocal of its length, as computed, is not a positive
/// finite number. That is so for the zero vector, for a vector too short or
/// too long for its squared length to be represented, and for one with a
/// component that is not finite.
pub uninterp spec fn unit_of(v: Vec3) -> Option<Vec3>;

/// What `Quat::from_rotation_arc` gives for `from` and `to`: the shortest
/// rotation that turns the unit vector `from` onto the unit vector `to`.
pub uninterp spec fn arc_rotation(from: Vec3, to: Vec3) -> Quat;

/// What `Quat * Vec3` gives: `v` turned by `rotation`.
pub uninterp spec fn rotated(rotation: Quat, v: Vec3) -> Vec3;

/// What `Vec3 + Vec3` gives: the sum of `a` and `b`, component by component.
pub uninterp spec fn translated(a: Vec3, b: Vec3) -> Vec3;

/// `Vec3::try_normalize` of glam. It reads nothing but the vector, so its
/// result is taken to be a function of the vector; no more is claimed of it.
#[verifier::external_body]
pub(crate) fn try_unit(v: &Vec3) -> (unit: Option<Vec3>)
    ensures
        unit == unit_of(*v),
{
    v.try_normalize()
}

/// `Quat::from_rotation_arc` of glam. It reads nothing but the two vectors,
/// so its result is taken to be a function of them; no more is claimed of it.
/// glam documents it for unit vectors; on others it still returns, since the
/// assertions that would stop it stand behind glam's `glam-assert` features,
/// which are left off.
#[verifier::external_body]
pub(crate) fn rotation_arc(from: &Vec3, to: &Vec3) -> (rotation: Quat)
    ensures
        rotation == arc_rotation(*from, *to),
{
    Quat::from_rotation_arc(*from, *to)
}

/// `Quat * Vec3` of glam (`Quat::mul_vec3`). It reads nothing but the rotation
/// and the vector, so its result is taken to be a function of them; no more
/// is claimed of it. glam documents it for unit rotations; on others it still
/// returns, since the assertion that would stop it stands behind glam's
/// `glam-assert` features, which are left off.
#[verifier::external_body]
pub(crate) fn rotate(rotation: &Quat, v: &Vec3) -> (turned: Vec3)
    ensures
        turned == rotated(*rotation, *v),
{
    *rotation * *v
}

/// `Vec3 + Vec3` of glam. It reads nothing but the two vectors, so its result
/// is taken to be a function of them; no more is claimed of it.
#[verifier::external_body]
pub(crate) fn translate(a: &Vec3, b: &Vec3) -> (sum: Vec3)
    ensures
        sum == translated(*a, *b),
{
    *a + *b
}

} // verus!
