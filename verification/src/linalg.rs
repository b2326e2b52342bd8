//! Trusted bindings to nalgebra's dense linear algebra.
//!
//! The kinematic engine is generic in the real scalar type, exactly as
//! nalgebra is. Scalar and matrix values are opaque to the verifier; every
//! arithmetic primitive the engine needs is a thin wrapper around a single
//! nalgebra (or num-traits) operation, and the verified code composes these
//! wrappers.

use vstd::prelude::*;

verus! {

#[verifier::external_type_specification]
#[verifier::external_body]
#[verifier::reject_recursive_types(T)]
#[verifier::reject_recursive_types(R)]
#[verifier::reject_recursive_types(C)]
#[verifier::reject_recursive_types(S)]
pub struct ExMatrix<T, R, C, S>(nalgebra::Matrix<T, R, C, S>);

#[verifier::external_type_specification]
#[verifier::external_body]
pub struct ExConst<const N: usize>(nalgebra::Const<N>);

#[verifier::external_type_specification]
#[verifier::external_body]
#[verifier::reject_recursive_types(T)]
pub struct ExArrayStorage<T, const R: usize, const C: usize>(nalgebra::ArrayStorage<T, R, C>);

// ---------------------------------------------------------------------------
// Scalar primitives.
// ---------------------------------------------------------------------------

/// Relies on `num_traits::One::one` (a supertrait of `nalgebra::RealField`).
#[verifier::external_body]
pub(crate) fn scalar_one<T: nalgebra::RealField + Copy>() -> T {
    T::one()
}

/// Relies on `num_traits::FromPrimitive::from_u32` (a supertrait of
/// `nalgebra::RealField`); the fallback arm is never taken for a standard
/// real scalar, whose conversion from `u32` always succeeds.
#[verifier::external_body]
pub(crate) fn scalar_from_u32<T: nalgebra::RealField + Copy>(n: u32) -> T {
    match T::from_u32(n) {
        Some(x) => x,
        None => T::zero(),
    }
}

/// Relies on the `-` of `nalgebra::RealField`'s field structure.
#[verifier::external_body]
pub(crate) fn scalar_sub<T: nalgebra::RealField + Copy>(a: T, b: T) -> T {
    a - b
}

/// Relies on the `/` of `nalgebra::RealField`'s field structure.
#[verifier::external_body]
pub(crate) fn scalar_div<T: nalgebra::RealField + Copy>(a: T, b: T) -> T {
    a / b
}

/// Relies on `nalgebra::ComplexField::sin`.
#[verifier::external_body]
pub(crate) fn scalar_sin<T: nalgebra::RealField + Copy>(a: T) -> T {
    a.sin()
}

/// Relies on `nalgebra::ComplexField::cos`.
#[verifier::external_body]
pub(crate) fn scalar_cos<T: nalgebra::RealField + Copy>(a: T) -> T {
    a.cos()
}

/// Relies on `nalgebra::ComplexField::abs`.
#[verifier::external_body]
pub(crate) fn scalar_abs<T: nalgebra::RealField + Copy>(a: T) -> T {
    a.abs()
}

/// Relies on the `<` of `nalgebra::RealField`'s total order.
#[verifier::external_body]
pub(crate) fn scalar_lt<T: nalgebra::RealField + Copy>(a: T, b: T) -> bool {
    a < b
}

// ---------------------------------------------------------------------------
// 3-vector and 3x3-matrix primitives.
// ---------------------------------------------------------------------------

/// Relies on `nalgebra::Matrix::identity` for 3x3 matrices.
#[verifier::external_body]
pub(crate) fn mat3_identity<T: nalgebra::RealField + Copy>() -> nalgebra::Matrix3<T> {
    nalgebra::Matrix3::identity()
}

/// Relies on nalgebra's `Matrix + Matrix` sum of two 3x3 matrices.
#[verifier::external_body]
pub(crate) fn mat3_add<T: nalgebra::RealField + Copy>(
    a: &nalgebra::Matrix3<T>,
    b: &nalgebra::Matrix3<T>,
) -> nalgebra::Matrix3<T> {
    a + b
}

/// Relies on nalgebra's `Matrix * Matrix` product of two 3x3 matrices.
#[verifier::external_body]
pub(crate) fn mat3_mul<T: nalgebra::RealField + Copy>(
    a: &nalgebra::Matrix3<T>,
    b: &nalgebra::Matrix3<T>,
) -> nalgebra::Matrix3<T> {
    a * b
}

/// Relies on nalgebra's `Matrix * scalar` scaling of a 3x3 matrix.
#[verifier::external_body]
pub(crate) fn mat3_scale<T: nalgebra::RealField + Copy>(
    m: &nalgebra::Matrix3<T>,
    s: T,
) -> nalgebra::Matrix3<T> {
    m * s
}

/// Relies on nalgebra's `Matrix * Vector` product of a 3x3 matrix and a
/// 3-vector.
#[verifier::external_body]
pub(crate) fn mat3_vec_mul<T: nalgebra::RealField + Copy>(
    m: &nalgebra::Matrix3<T>,
    v: &nalgebra::Vector3<T>,
) -> nalgebra::Vector3<T> {
    m * v
}

/// Relies on `nalgebra::Vector3::cross`.
#[verifier::external_body]
pub(crate) fn vec3_cross<T: nalgebra::RealField + Copy>(
    a: &nalgebra::Vector3<T>,
    b: &nalgebra::Vector3<T>,
) -> nalgebra::Vector3<T> {
    a.cross(b)
}

/// Relies on nalgebra's `Vector * scalar` scaling of a 3-vector.
#[verifier::external_body]
pub(crate) fn vec3_scale<T: nalgebra::RealField + Copy>(
    v: &nalgebra::Vector3<T>,
    s: T,
) -> nalgebra::Vector3<T> {
    v * s
}

/// Relies on nalgebra's unary `-` on a 3-vector.
#[verifier::external_body]
pub(crate) fn vec3_neg<T: nalgebra::RealField + Copy>(
    v: &nalgebra::Vector3<T>,
) -> nalgebra::Vector3<T> {
    -v
}

/// Relies on nalgebra's `Vector * RowVector` outer product of two 3-vectors.
#[verifier::external_body]
pub(crate) fn vec3_outer<T: nalgebra::RealField + Copy>(
    a: &nalgebra::Vector3<T>,
    b: &nalgebra::Vector3<T>,
) -> nalgebra::Matrix3<T> {
    a * b.transpose()
}

// ---------------------------------------------------------------------------
// 6-vector primitives.
// ---------------------------------------------------------------------------

/// Relies on `nalgebra::Vector6::new`, filling the angular then the linear
/// components.
#[verifier::external_body]
pub(crate) fn vec6_from_parts<T: nalgebra::RealField + Copy>(
    w: &nalgebra::Vector3<T>,
    v: &nalgebra::Vector3<T>,
) -> nalgebra::Vector6<T> {
    nalgebra::Vector6::new(w[0], w[1], w[2], v[0], v[1], v[2])
}

/// Relies on `nalgebra::Vector3::new` reading components 0..3 of a 6-vector.
#[verifier::external_body]
pub(crate) fn vec6_angular<T: nalgebra::RealField + Copy>(
    s: &nalgebra::Vector6<T>,
) -> nalgebra::Vector3<T> {
    nalgebra::Vector3::new(s[0], s[1], s[2])
}

/// Relies on `nalgebra::Vector3::new` reading components 3..6 of a 6-vector.
#[verifier::external_body]
pub(crate) fn vec6_linear<T: nalgebra::RealField + Copy>(
    s: &nalgebra::Vector6<T>,
) -> nalgebra::Vector3<T> {
    nalgebra::Vector3::new(s[3], s[4], s[5])
}

/// Relies on `nalgebra::Matrix::from_element` building the zero 6-vector.
#[verifier::external_body]
pub(crate) fn vec6_zero<T: nalgebra::RealField + Copy>() -> nalgebra::Vector6<T> {
    nalgebra::Vector6::from_element(T::zero())
}

// ---------------------------------------------------------------------------
// 4x4 homogeneous-transform primitives.
// ---------------------------------------------------------------------------

/// Relies on `nalgebra::Matrix::identity` for 4x4 matrices.
#[verifier::external_body]
pub(crate) fn mat4_identity<T: nalgebra::RealField + Copy>() -> nalgebra::Matrix4<T> {
    nalgebra::Matrix4::identity()
}

/// Relies on nalgebra's `Matrix * Matrix` product of two 4x4 matrices.
#[verifier::external_body]
pub(crate) fn mat4_mul<T: nalgebra::RealField + Copy>(
    a: &nalgebra::Matrix4<T>,
    b: &nalgebra::Matrix4<T>,
) -> nalgebra::Matrix4<T> {
    a * b
}

/// Relies on `nalgebra::Matrix::fixed_view` reading the upper-left 3x3
/// rotation block of a homogeneous transform.
#[verifier::external_body]
pub(crate) fn mat4_rotation<T: nalgebra::RealField + Copy>(
    xf: &nalgebra::Matrix4<T>,
) -> nalgebra::Matrix3<T> {
    xf.fixed_view::<3, 3>(0, 0).into_owned()
}

/// Relies on `nalgebra::Matrix::fixed_view` reading the translation column
/// (rows 0..3 of column 3) of a homogeneous transform.
#[verifier::external_body]
pub(crate) fn mat4_translation<T: nalgebra::RealField + Copy>(
    xf: &nalgebra::Matrix4<T>,
) -> nalgebra::Vector3<T> {
    xf.fixed_view::<3, 1>(0, 3).into_owned()
}

/// Relies on `nalgebra::Matrix::fixed_view_mut` placing a rotation block and
/// a translation column into an identity 4x4 matrix.
#[verifier::external_body]
pub(crate) fn mat4_from_parts<T: nalgebra::RealField + Copy>(
    rot: &nalgebra::Matrix3<T>,
    trans: &nalgebra::Vector3<T>,
) -> nalgebra::Matrix4<T> {
    let mut xf = nalgebra::Matrix4::identity();
    xf.fixed_view_mut::<3, 3>(0, 0).copy_from(rot);
    xf.fixed_view_mut::<3, 1>(0, 3).copy_from(trans);
    xf
}

/// Relies on `nalgebra::Rotation3::from_euler_angles`, which applies roll,
/// then pitch, then yaw.
#[verifier::external_body]
pub(crate) fn rotation_from_rpy<T: nalgebra::RealField + Copy>(
    rpy: &nalgebra::Vector3<T>,
) -> nalgebra::Matrix3<T> {
    nalgebra::Rotation3::from_euler_angles(rpy[0], rpy[1], rpy[2]).into_inner()
}

// ---------------------------------------------------------------------------
// 6x6 adjoint primitives.
// ---------------------------------------------------------------------------

/// Relies on `nalgebra::Matrix::fixed_view_mut` placing the diagonal 3x3
/// blocks and the lower-left 3x3 block into a zero 6x6 matrix.
#[verifier::external_body]
pub(crate) fn mat6_from_adjoint_blocks<T: nalgebra::RealField + Copy>(
    diag: &nalgebra::Matrix3<T>,
    lower: &nalgebra::Matrix3<T>,
) -> nalgebra::Matrix6<T> {
    let mut adj = nalgebra::Matrix6::from_element(T::zero());
    adj.fixed_view_mut::<3, 3>(0, 0).copy_from(diag);
    adj.fixed_view_mut::<3, 3>(3, 0).copy_from(lower);
    adj.fixed_view_mut::<3, 3>(3, 3).copy_from(diag);
    adj
}

/// Relies on nalgebra's `Matrix * Vector` product of a 6x6 matrix and a
/// 6-vector.
#[verifier::external_body]
pub(crate) fn mat6_vec_mul<T: nalgebra::RealField + Copy>(
    m: &nalgebra::Matrix6<T>,
    v: &nalgebra::Vector6<T>,
) -> nalgebra::Vector6<T> {
    m * v
}

} // verus!
