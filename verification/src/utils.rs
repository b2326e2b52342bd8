//! The Lie-group math engine: SO(3)/SE(3) exponential maps, the SO(3) left
//! Jacobian, and the SE(3) adjoint, over nalgebra matrices generic in the
//! real scalar.

use vstd::prelude::*;

use crate::linalg::{
    mat3_add, mat3_identity, mat3_mul, mat3_scale, mat3_vec_mul, mat4_from_parts, mat4_rotation,
    mat4_translation, mat6_from_adjoint_blocks, scalar_abs, scalar_cos, scalar_div,
    scalar_from_u32, scalar_lt, scalar_one, scalar_sin, scalar_sub, vec3_outer, vec3_scale,
    vec6_angular, vec6_linear,
};
use nalgebra::{Matrix3, Matrix4, Matrix6, Vector3, Vector6};

verus! {

/// Relies on `nalgebra::Vector3::cross_matrix`: the skew-symmetric
/// cross-product matrix of a 3-vector.
#[verifier::external_body]
pub fn wedge<T: nalgebra::RealField + Copy>(w: &Vector3<T>) -> Matrix3<T> {
    w.cross_matrix()
}

/// One half, built from field operations so it exists at any scalar
/// precision.
fn scalar_half<T: nalgebra::RealField + Copy>() -> T {
    scalar_div(scalar_one::<T>(), scalar_from_u32(2))
}

/// The small-angle threshold `1e-6` below which the left Jacobian switches
/// to its first-order approximation, built as `1 / 1_000_000` from field
/// operations so it exists at any scalar precision.
fn small_angle_threshold<T: nalgebra::RealField + Copy>() -> T {
    scalar_div(scalar_one::<T>(), scalar_from_u32(1_000_000))
}

/// The rotation matrix turning by `angle` about the unit vector `axis`, by
/// the Rodrigues construction `I + sin(a)·W + (1 - cos(a))·W²` with
/// `W = wedge(axis)`. At `angle == 0` this yields the identity with no
/// division anywhere, so no numerical blow-up.
pub fn exp_so3<T: nalgebra::RealField + Copy>(axis: &Vector3<T>, angle: T) -> Matrix3<T> {
    let ax_wedge = wedge(axis);
    let sin_term = mat3_scale(&ax_wedge, scalar_sin(angle));
    let cos_term = mat3_scale(
        &mat3_mul(&ax_wedge, &ax_wedge),
        scalar_sub(scalar_one(), scalar_cos(angle)),
    );
    mat3_add(&mat3_add(&mat3_identity(), &sin_term), &cos_term)
}

/// The left Jacobian of SO(3) for a rotation by `angle` about the unit
/// vector `axis`.
///
/// For `|angle| < 1e-6` the first-order approximation `I + 0.5·wedge(axis)`
/// is used; the closed form divides by `angle` and would blow up there.
/// Otherwise the closed form
/// `I·(sin a / a) + W·((1 - cos a) / a) + (axis·axisᵀ)·((1 - sin a) / a)`
/// is evaluated with `W = wedge(axis)`.
pub fn left_jacobian_so3<T: nalgebra::RealField + Copy>(
    axis: &Vector3<T>,
    angle: T,
) -> Matrix3<T> {
    let ax_wedge = wedge(axis);
    if scalar_lt(scalar_abs(angle), small_angle_threshold()) {
        mat3_add(&mat3_identity(), &mat3_scale(&ax_wedge, scalar_half()))
    } else {
        let one: T = scalar_one();
        let identity_term = mat3_scale(&mat3_identity(), scalar_div(scalar_sin(angle), angle));
        let wedge_term = mat3_scale(
            &ax_wedge,
            scalar_div(scalar_sub(one, scalar_cos(angle)), angle),
        );
        let outer_term = mat3_scale(
            &vec3_outer(axis, axis),
            scalar_div(scalar_sub(one, scalar_sin(angle)), angle),
        );
        mat3_add(&mat3_add(&identity_term, &wedge_term), &outer_term)
    }
}

/// The homogeneous SE(3) transform of a motion by `angle` along the screw
/// `screw = [angular(3); linear(3)]`: the rotation block is
/// `exp_so3(axis, angle)` and the translation block is
/// `left_jacobian_so3(axis, angle) · rho · angle`, with `axis` the angular
/// part and `rho` the linear part. At `angle == 0` it is the identity
/// transform.
pub fn exp_se3<T: nalgebra::RealField + Copy>(screw: &Vector6<T>, angle: T) -> Matrix4<T> {
    let axis = vec6_angular(screw);
    let rho = vec6_linear(screw);
    let rot = exp_so3(&axis, angle);
    let jac = left_jacobian_so3(&axis, angle);
    let trans = vec3_scale(&mat3_vec_mul(&jac, &rho), angle);
    mat4_from_parts(&rot, &trans)
}

/// The 6x6 adjoint of a rigid transform `xf = [R, p; 0, 1]`, as the block
/// matrix `[[R, 0], [wedge(p)·R, R]]`.
pub fn adj_se3<T: nalgebra::RealField + Copy>(xf: &Matrix4<T>) -> Matrix6<T> {
    let rot = mat4_rotation(xf);
    let p = mat4_translation(xf);
    let p_wedge = wedge(&p);
    mat6_from_adjoint_blocks(&rot, &mat3_mul(&p_wedge, &rot))
}

} // verus!
