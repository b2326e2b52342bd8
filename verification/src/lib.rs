//! Forward kinematics and geometric Jacobians for an open serial kinematic
//! chain, in the product-of-exponentials formulation of screw theory.
//!
//! A [`chain::Chain`] is built once from an ordered joint description and
//! thereafter answers pose and Jacobian queries for arbitrary joint
//! configurations. The structural model — which joints are active, how
//! configuration entries index them, which ancestor joints drive each frame —
//! is verified; the floating-point matrix arithmetic itself is delegated to
//! nalgebra through the trusted bindings in [`linalg`].

pub mod chain;
pub mod kinematics;
pub mod linalg;
pub mod model;
pub mod utils;

pub use crate::chain::Chain;
pub use crate::chain::Frame;
pub use crate::kinematics::parse_from_root;
pub use crate::kinematics::revolute_joint_screw;
pub use crate::model::JointKind;
pub use crate::model::JointRecord;
pub use crate::model::KinError;
pub use crate::utils::adj_se3;
pub use crate::utils::exp_se3;
pub use crate::utils::exp_so3;
pub use crate::utils::left_jacobian_so3;
pub use crate::utils::wedge;
