//! The kinematic chain: built once from a joint description, immutable
//! afterwards, answering pose and Jacobian queries.

use vstd::prelude::*;

use crate::kinematics::{
    _fk, _jac, parse_from_root, revolute_joint_screw, spec_has_named, spec_ordered,
};
use crate::linalg::{mat4_from_parts, mat4_identity, mat4_mul, mat6_vec_mul, rotation_from_rpy};
use crate::model::{JointKind, JointRecord, KinError};
use crate::utils::{adj_se3, exp_se3};
use nalgebra::{Matrix4, Vector6};
use vstd::slice::slice_subrange;

verus! {

/// One queryable frame of the model: a link or joint name, the number of
/// active joints between the chain root and this frame (the number of
/// configuration entries a query for it consumes), and its home pose.
#[verifier::reject_recursive_types(T)]
pub struct Frame<T> {
    pub name: String,
    pub ancestors: usize,
    pub xf_home: Matrix4<T>,
}

/// The immutable kinematic model of an open serial chain.
///
/// `active_joints` is the canonical degree-of-freedom ordering: entry `i` of
/// every configuration vector actuates `active_joints[i]`, whose screw axis
/// is `screws[i]`. The ancestor chain of every frame is a prefix of
/// `active_joints`, so each frame only records its length. Name lookups give
/// the last matching frame.
#[verifier::reject_recursive_types(T)]
pub struct Chain<T> {
    /// The ordered joint chain the model was built from, root first.
    pub joints: Vec<JointRecord<T>>,
    /// Names of the revolute joints, in chain order.
    pub active_joints: Vec<String>,
    /// Space-frame screw axes, parallel to `active_joints`.
    pub screws: Vec<Vector6<T>>,
    /// The queryable frames, in construction order.
    pub frames: Vec<Frame<T>>,
}

/// The names of the revolute joints of `js`, in order.
pub open spec fn spec_active_names<T>(js: Seq<JointRecord<T>>) -> Seq<Seq<char>>
    decreases js.len(),
{
    if js.len() == 0 {
        Seq::empty()
    } else {
        let pre = spec_active_names(js.drop_last());
        if js.last().kind == JointKind::Revolute {
            pre.push(js.last().name@)
        } else {
            pre
        }
    }
}

/// The frame names and ancestor counts the builder records while walking
/// `js`: for each joint, its parent link with the count before the joint,
/// then the joint itself with the count after it.
pub open spec fn spec_frame_shapes<T>(js: Seq<JointRecord<T>>) -> Seq<(Seq<char>, int)>
    decreases js.len(),
{
    if js.len() == 0 {
        Seq::empty()
    } else {
        let pre = spec_frame_shapes(js.drop_last());
        let before = spec_active_names(js.drop_last()).len() as int;
        let after = spec_active_names(js).len() as int;
        pre.push((js.last().parent_link@, before)).push((js.last().name@, after))
    }
}

/// The name and ancestor count of each frame.
pub open spec fn spec_frames_view<T>(frames: Seq<Frame<T>>) -> Seq<(Seq<char>, int)> {
    frames.map_values(|f: Frame<T>| (f.name@, f.ancestors as int))
}

/// The character sequences of a sequence of names.
pub open spec fn spec_names_view(names: Seq<String>) -> Seq<Seq<char>> {
    names.map_values(|s: String| s@)
}

/// The index of the last frame named `name`, or `-1` when none is.
pub open spec fn spec_frame_index<T>(frames: Seq<Frame<T>>, name: Seq<char>) -> int
    decreases frames.len(),
{
    if frames.len() == 0 {
        -1
    } else if frames.last().name@ == name {
        frames.len() - 1
    } else {
        spec_frame_index(frames.drop_last(), name)
    }
}

/// The frame-index lookup stays in bounds, lands on the name it was given,
/// and fails only when no frame bears the name.
pub proof fn lemma_frame_index_bounds<T>(frames: Seq<Frame<T>>, name: Seq<char>)
    ensures
        -1 <= spec_frame_index(frames, name) < frames.len(),
        spec_frame_index(frames, name) >= 0 ==> frames[spec_frame_index(frames, name)].name@
            == name,
        spec_frame_index(frames, name) == -1 ==> forall|i: int|
            0 <= i < frames.len() ==> frames[i].name@ != name,
    decreases frames.len(),
{
    if frames.len() > 0 && frames.last().name@ != name {
        lemma_frame_index_bounds(frames.drop_last(), name);
        if spec_frame_index(frames, name) == -1 {
            assert forall|i: int| 0 <= i < frames.len() implies frames[i].name@ != name by {
                if i < frames.len() - 1 {
                    assert(frames.drop_last()[i] == frames[i]);
                } else {
                    assert(frames[i] == frames.last());
                }
            }
        }
    }
}

impl<T: nalgebra::RealField + Copy> Chain<T> {
    /// Every query of a well-formed chain stays in bounds: the screws are
    /// parallel to the active joints and every frame's ancestor count is at
    /// most the total degree-of-freedom count.
    pub open spec fn wf(self) -> bool {
        &&& self.screws@.len() == self.active_joints@.len()
        &&& forall|i: int|
            0 <= i < self.frames@.len() ==> (#[trigger] self.frames@[i]).ancestors
                <= self.active_joints@.len()
    }

    /// Whether the model can answer queries for `name`.
    pub open spec fn spec_has_frame(self, name: Seq<char>) -> bool {
        spec_frame_index(self.frames@, name) >= 0
    }

    /// The number of configuration entries a query for `name` consumes.
    pub open spec fn spec_frame_dof(self, name: Seq<char>) -> int {
        self.frames@[spec_frame_index(self.frames@, name)].ancestors as int
    }

    /// Builds the model: orders the description into the serial chain
    /// rooted at `root_name`, then walks it once, accumulating the home
    /// transform, recording a frame per parent link and per joint, giving
    /// each revolute joint its degree of freedom and space-frame screw
    /// axis, and finally recording the last joint's child link.
    ///
    /// Fails with `RootJointNotFound` exactly when no joint bears the root
    /// name, and with `EmptyChain` exactly when no joint follows the root.
    pub fn new(joints: &Vec<JointRecord<T>>, root_name: &String) -> (r: Result<Chain<T>, KinError>)
        ensures
            match r {
                Ok(c) => {
                    &&& spec_has_named(joints@, root_name@)
                    &&& spec_ordered(joints@, root_name@).len() >= 2
                    &&& c.wf()
                    &&& c.joints@ == spec_ordered(joints@, root_name@)
                    &&& spec_names_view(c.active_joints@) == spec_active_names(
                        spec_ordered(joints@, root_name@),
                    )
                    &&& c.screws@.len() == c.active_joints@.len()
                    &&& spec_frames_view(c.frames@) == spec_frame_shapes(
                        spec_ordered(joints@, root_name@),
                    ).push(
                        (
                            spec_ordered(joints@, root_name@).last().child_link@,
                            spec_active_names(spec_ordered(joints@, root_name@)).len() as int,
                        ),
                    )
                },
                Err(KinError::RootJointNotFound) => !spec_has_named(joints@, root_name@),
                Err(KinError::EmptyChain) => spec_has_named(joints@, root_name@) && spec_ordered(
                    joints@,
                    root_name@,
                ).len() == 1,
                Err(_) => false,
            },
    {
        let ordered = match parse_from_root(joints, root_name) {
            Ok(chain) => chain,
            Err(e) => {
                return Err(e);
            },
        };
        if ordered.len() < 2 {
            return Err(KinError::EmptyChain);
        }
        let ghost target_chain = spec_ordered(joints@, root_name@);
        let mut xf = mat4_identity();
        let mut frames: Vec<Frame<T>> = Vec::new();
        let mut active: Vec<String> = Vec::new();
        let mut screws: Vec<Vector6<T>> = Vec::new();
        let mut k: usize = 0;
        proof {
            assert(ordered@.take(0) =~= Seq::<JointRecord<T>>::empty());
            assert(spec_names_view(active@) =~= spec_active_names(ordered@.take(0)));
            assert(spec_frames_view(frames@) =~= spec_frame_shapes(ordered@.take(0)));
        }
        while k < ordered.len()
            invariant
                k <= ordered@.len(),
                ordered@ == target_chain,
                spec_names_view(active@) == spec_active_names(ordered@.take(k as int)),
                screws@.len() == active@.len(),
                spec_frames_view(frames@) == spec_frame_shapes(ordered@.take(k as int)),
                forall|i: int|
                    0 <= i < frames@.len() ==> (#[trigger] frames@[i]).ancestors <= active@.len(),
            decreases ordered@.len() - k,
        {
            let ghost active_pre = active@;
            let ghost frames_pre = frames@;
            let j = &ordered[k];
            let rot_rel = rotation_from_rpy(&j.origin_rpy);
            let xf_rel = mat4_from_parts(&rot_rel, &j.origin_xyz);
            frames.push(
                Frame { name: j.parent_link.clone(), ancestors: active.len(), xf_home: xf },
            );
            xf = mat4_mul(&xf, &xf_rel);
            if j.kind == JointKind::Revolute {
                active.push(j.name.clone());
                screws.push(revolute_joint_screw(&xf, &j.axis));
            }
            frames.push(Frame { name: j.name.clone(), ancestors: active.len(), xf_home: xf });
            k += 1;
            proof {
                let pre = ordered@.take(k - 1 as int);
                let cur = ordered@.take(k as int);
                assert(cur.drop_last() =~= pre);
                assert(cur.last() == ordered@[k - 1 as int]);
                assert(spec_names_view(active@) =~= spec_active_names(cur));
                assert(spec_frames_view(frames@) =~= spec_frame_shapes(cur));
            }
        }
        proof {
            assert(ordered@.take(ordered@.len() as int) =~= ordered@);
        }
        let last_child = ordered[ordered.len() - 1].child_link.clone();
        frames.push(Frame { name: last_child, ancestors: active.len(), xf_home: xf });
        let c = Chain { joints: ordered, active_joints: active, screws, frames };
        proof {
            assert(spec_frames_view(c.frames@) =~= spec_frame_shapes(target_chain).push(
                (target_chain.last().child_link@, spec_active_names(target_chain).len() as int),
            ));
        }
        Ok(c)
    }

    /// The index of the last frame named `target`, or `None` when the name
    /// is unknown — mirroring that later construction entries shadow
    /// earlier ones of the same name.
    fn frame_index(&self, target: &String) -> (r: Option<usize>)
        ensures
            match r {
                Some(i) => {
                    &&& spec_frame_index(self.frames@, target@) == i as int
                    &&& (i as int) < self.frames@.len()
                },
                None => spec_frame_index(self.frames@, target@) == -1,
            },
    {
        let mut i: usize = self.frames.len();
        proof {
            assert(self.frames@.take(i as int) =~= self.frames@);
        }
        while i > 0
            invariant
                i <= self.frames@.len(),
                spec_frame_index(self.frames@, target@) == spec_frame_index(
                    self.frames@.take(i as int),
                    target@,
                ),
            decreases i,
        {
            proof {
                assert(self.frames@.take(i as int).drop_last() =~= self.frames@.take(
                    i as int - 1,
                ));
            }
            if self.frames[i - 1].name == *target {
                return Some(i - 1);
            }
            i -= 1;
        }
        None
    }

    /// The first `k` screw axes — the screws of every ancestor chain of
    /// length `k`, since ancestor chains are prefixes of `active_joints`.
    fn screw_prefix(&self, k: usize) -> (r: Vec<Vector6<T>>)
        requires
            k <= self.screws@.len(),
        ensures
            r@ == self.screws@.subrange(0, k as int),
    {
        let mut sub: Vec<Vector6<T>> = Vec::new();
        let mut i: usize = 0;
        while i < k
            invariant
                i <= k,
                k <= self.screws@.len(),
                sub@ == self.screws@.subrange(0, i as int),
            decreases k - i,
        {
            sub.push(self.screws[i]);
            proof {
                assert(sub@ =~= self.screws@.subrange(0, i as int + 1));
            }
            i += 1;
        }
        sub
    }

    /// The pose of `target` in the base frame at `config`: the product of
    /// one exponential factor per ancestor joint, in chain order, times the
    /// target's home transform.
    ///
    /// Fails with `UnknownFrame` exactly when no frame bears the target
    /// name, and with `InsufficientConfig` exactly when the configuration
    /// holds fewer entries than the target has ancestor joints; entries
    /// beyond that count are ignored.
    pub fn fk(&self, config: &Vec<T>, target: &String) -> (r: Result<Matrix4<T>, KinError>)
        requires
            self.wf(),
        ensures
            match r {
                Ok(_) => self.spec_has_frame(target@) && config@.len() >= self.spec_frame_dof(
                    target@,
                ),
                Err(e) => {
                    &&& (e == KinError::UnknownFrame || e == KinError::InsufficientConfig)
                    &&& (e == KinError::UnknownFrame <==> !self.spec_has_frame(target@))
                    &&& (e == KinError::InsufficientConfig <==> self.spec_has_frame(target@)
                        && config@.len() < self.spec_frame_dof(target@))
                },
            },
    {
        let fi = match self.frame_index(target) {
            Some(i) => i,
            None => {
                return Err(KinError::UnknownFrame);
            },
        };
        let k = self.frames[fi].ancestors;
        if config.len() < k {
            return Err(KinError::InsufficientConfig);
        }
        let sub = self.screw_prefix(k);
        let cfg = slice_subrange(config.as_slice(), 0, k);
        Ok(_fk(&sub, &self.frames[fi].xf_home, cfg))
    }

    /// The space-frame geometric Jacobian of `target` at `config`, as its
    /// columns in ancestor order: rows 0..3 of a column are the angular
    /// contribution of that joint, rows 3..6 the linear one. There is
    /// exactly one column per ancestor joint of the target.
    ///
    /// Fails exactly as `fk` does.
    pub fn jacobian(&self, config: &Vec<T>, target: &String) -> (r: Result<
        Vec<Vector6<T>>,
        KinError,
    >)
        requires
            self.wf(),
        ensures
            match r {
                Ok(cols) => {
                    &&& self.spec_has_frame(target@)
                    &&& config@.len() >= self.spec_frame_dof(target@)
                    &&& cols@.len() == self.spec_frame_dof(target@)
                },
                Err(e) => {
                    &&& (e == KinError::UnknownFrame || e == KinError::InsufficientConfig)
                    &&& (e == KinError::UnknownFrame <==> !self.spec_has_frame(target@))
                    &&& (e == KinError::InsufficientConfig <==> self.spec_has_frame(target@)
                        && config@.len() < self.spec_frame_dof(target@))
                },
            },
    {
        let fi = match self.frame_index(target) {
            Some(i) => i,
            None => {
                return Err(KinError::UnknownFrame);
            },
        };
        let k = self.frames[fi].ancestors;
        if config.len() < k {
            return Err(KinError::InsufficientConfig);
        }
        let sub = self.screw_prefix(k);
        let cfg = slice_subrange(config.as_slice(), 0, k);
        Ok(_jac(&sub, cfg))
    }

    /// The pose and the Jacobian of `target` at `config` from one fused
    /// traversal: the running transform that yields each Jacobian column is
    /// reused, and the pose is that transform after all ancestor joints,
    /// times the target's home transform.
    ///
    /// Fails exactly as `fk` does; the Jacobian again has exactly one
    /// column per ancestor joint.
    pub fn fk_and_jac(&self, config: &Vec<T>, target: &String) -> (r: Result<
        (Matrix4<T>, Vec<Vector6<T>>),
        KinError,
    >)
        requires
            self.wf(),
        ensures
            match r {
                Ok(pj) => {
                    &&& self.spec_has_frame(target@)
                    &&& config@.len() >= self.spec_frame_dof(target@)
                    &&& pj.1@.len() == self.spec_frame_dof(target@)
                },
                Err(e) => {
                    &&& (e == KinError::UnknownFrame || e == KinError::InsufficientConfig)
                    &&& (e == KinError::UnknownFrame <==> !self.spec_has_frame(target@))
                    &&& (e == KinError::InsufficientConfig <==> self.spec_has_frame(target@)
                        && config@.len() < self.spec_frame_dof(target@))
                },
            },
    {
        let fi = match self.frame_index(target) {
            Some(i) => i,
            None => {
                return Err(KinError::UnknownFrame);
            },
        };
        let k = self.frames[fi].ancestors;
        if config.len() < k {
            return Err(KinError::InsufficientConfig);
        }
        let mut cols: Vec<Vector6<T>> = Vec::new();
        let mut xf = mat4_identity();
        let mut idx: usize = 0;
        while idx < k
            invariant
                cols@.len() == idx,
                idx <= k,
                k <= self.screws@.len(),
                k <= config@.len(),
            decreases k - idx,
        {
            xf = mat4_mul(&xf, &exp_se3(&self.screws[idx], config[idx]));
            let adj = adj_se3(&xf);
            cols.push(mat6_vec_mul(&adj, &self.screws[idx]));
            idx += 1;
        }
        Ok((mat4_mul(&xf, &self.frames[fi].xf_home), cols))
    }

    /// The total count of active joints of the whole chain — the length
    /// every full configuration vector must have.
    pub fn dof(&self) -> (r: usize)
        ensures
            r == self.screws@.len(),
    {
        self.screws.len()
    }
}

/// Relies on `rand::random_range`, drawing one scalar uniformly from the
/// half-open interval `-pi..pi`; the result depends on the thread's random
/// generator, so nothing is promised of it.
#[verifier::external_body]
fn sample_angle<T: nalgebra::RealField + rand::distr::uniform::SampleUniform + Copy>() -> T {
    rand::random_range(-T::pi()..T::pi())
}

impl<T: nalgebra::RealField + rand::distr::uniform::SampleUniform + Copy> Chain<T> {
    /// One uniformly random angle per active joint, in `active_joints`
    /// order, each drawn independently from `-pi..pi`; the length equals
    /// `dof()`.
    pub fn random_config(&self) -> (r: Vec<T>)
        ensures
            r@.len() == self.screws@.len(),
    {
        let n = self.dof();
        let mut config: Vec<T> = Vec::new();
        while config.len() < n
            invariant
                config@.len() <= n,
                n == self.screws@.len(),
            decreases n - config@.len(),
        {
            config.push(sample_angle());
        }
        config
    }
}

} // verus!
