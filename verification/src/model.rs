//! The joint description a chain is built from, and the error taxonomy of
//! construction and queries.

use vstd::prelude::*;

use nalgebra::Vector3;

verus! {

/// The actuation kind of a joint. Only revolute joints contribute a degree
/// of freedom; fixed joints pass through as pure rigid offsets; any other
/// kind is carried but never actuated.
#[derive(Clone, Copy, Debug, PartialEq, Eq, Structural)]
pub enum JointKind {
    Revolute,
    Fixed,
    Other,
}

/// One joint of the structural description, as the external parser hands it
/// over: its name, the link it hangs off, the link it carries, its kind, its
/// origin (translation and roll-pitch-yaw rotation relative to the previous
/// joint) and its local actuation axis.
#[verifier::reject_recursive_types(T)]
pub struct JointRecord<T> {
    pub name: String,
    pub parent_link: String,
    pub child_link: String,
    pub kind: JointKind,
    pub origin_xyz: Vector3<T>,
    pub origin_rpy: Vector3<T>,
    pub axis: Vector3<T>,
}

impl<T: Copy> Clone for JointRecord<T> {
    fn clone(&self) -> (res: Self)
        ensures
            res == *self,
    {
        JointRecord {
            name: self.name.clone(),
            parent_link: self.parent_link.clone(),
            child_link: self.child_link.clone(),
            kind: self.kind,
            origin_xyz: self.origin_xyz,
            origin_rpy: self.origin_rpy,
            axis: self.axis,
        }
    }
}

/// Everything that can go wrong while building a chain or answering a
/// query.
///
/// `RootJointNotFound` and `EmptyChain` are fatal at construction: no chain
/// is handed out. `UnknownFrame` and `InsufficientConfig` are recoverable
/// query failures, surfaced to the caller instead of reading out of bounds.
#[derive(Clone, Copy, Debug, PartialEq, Eq, Structural)]
pub enum KinError {
    /// No joint in the description bears the requested root name.
    RootJointNotFound,
    /// The chain holds no joint after the root.
    EmptyChain,
    /// The query target is absent from the model.
    UnknownFrame,
    /// The configuration vector is shorter than the target requires.
    InsufficientConfig,
}

impl KinError {
    /// A short description of the error.
    pub fn describe(&self) -> (r: &'static str)
        ensures
            r@ =~= self.spec_describe(),
    {
        match self {
            KinError::RootJointNotFound => "root joint not found",
            KinError::EmptyChain => "empty chain",
            KinError::UnknownFrame => "unknown frame",
            KinError::InsufficientConfig => "insufficient configuration length",
        }
    }

    /// What `describe` returns for each variant.
    pub open spec fn spec_describe(self) -> Seq<char> {
        match self {
            KinError::RootJointNotFound => "root joint not found"@,
            KinError::EmptyChain => "empty chain"@,
            KinError::UnknownFrame => "unknown frame"@,
            KinError::InsufficientConfig => "insufficient configuration length"@,
        }
    }
}

} // verus!
