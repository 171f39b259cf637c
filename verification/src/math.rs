//! The matrix and vector arithmetic of `glam` that the cameras call.
//!
//! A matrix or a vector is opaque here: it is stored, copied and handed back
//! to `glam`, never looked into. What an operation returns is known by name
//! only. `glam` gives the same result for the same arguments wherever it
//! runs, as long as its `fast-math` feature is off, and it does not panic
//! as long as its assertion features are off; this crate switches none of
//! them on.

use vstd::prelude::*;
use glam::{Mat4, Vec3};

verus! {

/// `glam::Mat4`, a column-major 4x4 matrix of single-precision numbers.
#[verifier::external_type_specification]
#[verifier::external_body]
pub struct ExMat4(Mat4);

/// `glam::Vec3`, a vector of three single-precision numbers.
#[verifier::external_type_specification]
#[verifier::external_body]
pub struct ExVec3(Vec3);

/// What `glam` returns for the product `a * b` of two matrices.
pub uninterp spec fn mat4_product(a: Mat4, b: Mat4) -> Mat4;

/// What `glam::Mat4::inverse` returns for a matrix.
pub uninterp spec fn mat4_inverse_of(a: Mat4) -> Mat4;

/// What `glam::Mat4::look_at_rh` returns for an eye, a point looked at and
/// an up direction.
pub uninterp spec fn look_at_matrix(eye: Vec3, center: Vec3, up: Vec3) -> Mat4;

/// What `glam::Mat4::look_to_rh` returns for an eye, a viewing direction
/// and an up direction. The position of the eye enters the last column
/// only: the rotation is that of the two directions.
pub uninterp spec fn look_to_matrix(eye: Vec3, dir: Vec3, up: Vec3) -> Mat4;

/// The first three components of the last column of a matrix: where the
/// frame of a rigid transform has its origin.
pub uninterp spec fn translation_of(a: Mat4) -> Vec3;

/// The first three components of the third column of a matrix: the third
/// axis of the frame of a rigid transform.
pub uninterp spec fn third_axis_of(a: Mat4) -> Vec3;

/// What `glam` returns for the negation `-a` of a vector.
pub uninterp spec fn vec3_negated(a: Vec3) -> Vec3;

/// What `glam::IVec3::as_vec3` returns for the vector of the three whole
/// numbers: the vector whose components are these numbers.
pub uninterp spec fn vec3_of_whole(x: i32, y: i32, z: i32) -> Vec3;

/// What `glam::Mat4::from_diagonal` returns for the diagonal of the four
/// whole numbers: the matrix with these numbers on its diagonal and zero
/// everywhere else.
pub uninterp spec fn diagonal_matrix(x: i32, y: i32, z: i32, w: i32) -> Mat4;

/// Where the frame of a rigid transform looks: its third axis, negated.
pub open spec fn forward_of(a: Mat4) -> Vec3 {
    vec3_negated(third_axis_of(a))
}

/// The identity matrix.
pub open spec fn identity_matrix() -> Mat4 {
    diagonal_matrix(1, 1, 1, 1)
}

/// What `glam` returns for the difference `a - b` of two vectors.
pub uninterp spec fn vec3_difference(a: Vec3, b: Vec3) -> Vec3;

/// What `glam::Vec3::cross` returns for two vectors.
pub uninterp spec fn vec3_cross_product(a: Vec3, b: Vec3) -> Vec3;

/// What `glam::Vec3::normalize_or_zero` returns for a vector.
pub uninterp spec fn vec3_normalized(a: Vec3) -> Vec3;

/// `glam::Mat4::from_diagonal` on the diagonal that `glam::IVec4::new`
/// and `glam::IVec4::as_vec4` make of four whole numbers: a function of
/// the four numbers alone.
#[verifier::external_body]
pub(crate) fn mat4_diagonal(x: i32, y: i32, z: i32, w: i32) -> (m: Mat4)
    ensures
        m == diagonal_matrix(x, y, z, w),
{
    Mat4::from_diagonal(glam::IVec4::new(x, y, z, w).as_vec4())
}

/// `glam::Mat4 * glam::Mat4`: the product `a * b`, a function of the two
/// matrices alone.
#[verifier::external_body]
pub(crate) fn mat4_mul(a: Mat4, b: Mat4) -> (m: Mat4)
    ensures
        m == mat4_product(a, b),
{
    a * b
}

/// `glam::Mat4::inverse`, a function of the matrix alone. A singular
/// matrix yields a matrix that is not finite.
#[verifier::external_body]
pub(crate) fn mat4_inverse(a: Mat4) -> (m: Mat4)
    ensures
        m == mat4_inverse_of(a),
{
    a.inverse()
}

/// `glam::Mat4::look_at_rh`: right-handed view matrix for an eye at `eye`
/// looking at `center`, a function of the three vectors alone.
#[verifier::external_body]
pub(crate) fn mat4_look_at_rh(eye: Vec3, center: Vec3, up: Vec3) -> (m: Mat4)
    ensures
        m == look_at_matrix(eye, center, up),
{
    Mat4::look_at_rh(eye, center, up)
}

/// `glam::Mat4::look_to_rh`: right-handed view matrix for an eye at `eye`
/// looking in direction `dir`, a function of the three vectors alone.
#[verifier::external_body]
pub(crate) fn mat4_look_to_rh(eye: Vec3, dir: Vec3, up: Vec3) -> (m: Mat4)
    ensures
        m == look_to_matrix(eye, dir, up),
{
    Mat4::look_to_rh(eye, dir, up)
}

/// The first three components of column `w_axis` of a `glam::Mat4`,
/// through `glam::Vec4::truncate`.
#[verifier::external_body]
pub(crate) fn mat4_translation(a: Mat4) -> (v: Vec3)
    ensures
        v == translation_of(a),
{
    a.w_axis.truncate()
}

/// The first three components of column `z_axis` of a `glam::Mat4`,
/// through `glam::Vec4::truncate`.
#[verifier::external_body]
pub(crate) fn mat4_third_axis(a: Mat4) -> (v: Vec3)
    ensures
        v == third_axis_of(a),
{
    a.z_axis.truncate()
}

/// `Neg for glam::Vec3`: the vector `-a`, a function of the vector alone.
#[verifier::external_body]
pub(crate) fn vec3_neg(a: Vec3) -> (v: Vec3)
    ensures
        v == vec3_negated(a),
{
    -a
}

/// `glam::IVec3::as_vec3` on what `glam::IVec3::new` makes of three whole
/// numbers: a function of the three numbers alone.
#[verifier::external_body]
pub(crate) fn vec3_whole(x: i32, y: i32, z: i32) -> (v: Vec3)
    ensures
        v == vec3_of_whole(x, y, z),
{
    glam::IVec3::new(x, y, z).as_vec3()
}

/// `glam::Vec3 - glam::Vec3`, a function of the two vectors alone.
#[verifier::external_body]
pub(crate) fn vec3_sub(a: Vec3, b: Vec3) -> (v: Vec3)
    ensures
        v == vec3_difference(a, b),
{
    a - b
}

/// `glam::Vec3::cross`, a function of the two vectors alone.
#[verifier::external_body]
pub(crate) fn vec3_cross(a: Vec3, b: Vec3) -> (v: Vec3)
    ensures
        v == vec3_cross_product(a, b),
{
    a.cross(b)
}

/// `glam::Vec3::normalize_or_zero`, a function of the vector alone.
#[verifier::external_body]
pub(crate) fn vec3_normalize_or_zero(a: Vec3) -> (v: Vec3)
    ensures
        v == vec3_normalized(a),
{
    a.normalize_or_zero()
}

} // verus!
