//! Ordering a joint description into a serial chain, extracting revolute
//! screw axes, and the raw product-of-exponentials traversals.

use vstd::prelude::*;

use crate::linalg::{
    mat3_vec_mul, mat4_identity, mat4_mul, mat4_rotation, mat4_translation, mat6_vec_mul,
    vec3_cross, vec3_neg, vec6_from_parts, vec6_zero,
};
use crate::model::{JointRecord, KinError};
use crate::utils::{adj_se3, exp_se3};
use nalgebra::{Matrix4, Vector3, Vector6};

verus! {

/// Whether some joint of `js` bears the name `name`.
pub open spec fn spec_has_named<T>(js: Seq<JointRecord<T>>, name: Seq<char>) -> bool {
    exists|i: int| 0 <= i < js.len() && js[i].name@ == name
}

/// Whether `r` is the index of the first joint of `js` named `name`.
pub open spec fn spec_is_first_named<T>(
    js: Seq<JointRecord<T>>,
    name: Seq<char>,
    r: int,
) -> bool {
    &&& 0 <= r < js.len()
    &&& js[r].name@ == name
    &&& forall|i: int| 0 <= i < r ==> js[i].name@ != name
}

/// The index of the first joint of `js` named `name`; meaningful only when
/// `spec_has_named(js, name)` holds.
pub open spec fn spec_first_named<T>(js: Seq<JointRecord<T>>, name: Seq<char>) -> int {
    choose|r: int| spec_is_first_named(js, name, r)
}

/// At most one index is the first occurrence of a name.
pub proof fn lemma_first_named_unique<T>(
    js: Seq<JointRecord<T>>,
    name: Seq<char>,
    r1: int,
    r2: int,
)
    requires
        spec_is_first_named(js, name, r1),
        spec_is_first_named(js, name, r2),
    ensures
        r1 == r2,
{
}

/// The single greedy pass that orders a chain: each joint of `js`, in input
/// order, is appended to `acc` exactly when its parent link is the child
/// link of the joint appended last.
pub open spec fn spec_walk<T>(
    js: Seq<JointRecord<T>>,
    acc: Seq<JointRecord<T>>,
) -> Seq<JointRecord<T>>
    decreases js.len(),
{
    if js.len() == 0 {
        acc
    } else {
        let acc2 = if js[0].parent_link@ == acc.last().child_link@ {
            acc.push(js[0])
        } else {
            acc
        };
        spec_walk(js.skip(1), acc2)
    }
}

/// The serial chain reachable from the first joint of `js` named `name`:
/// that root joint, followed by every joint the greedy pass appends behind
/// it. Meaningful only when `spec_has_named(js, name)` holds.
pub open spec fn spec_ordered<T>(js: Seq<JointRecord<T>>, name: Seq<char>) -> Seq<JointRecord<T>> {
    spec_walk(js, seq![js[spec_first_named(js, name)]])
}

/// The index of the first joint of `joints` named `name`, or `None` when no
/// joint bears that name.
fn find_first_named<T>(joints: &Vec<JointRecord<T>>, name: &String) -> (r: Option<usize>)
    ensures
        match r {
            Some(i) => spec_is_first_named(joints@, name@, i as int),
            None => !spec_has_named(joints@, name@),
        },
{
    let mut i: usize = 0;
    while i < joints.len()
        invariant
            i <= joints@.len(),
            forall|j: int| 0 <= j < i ==> joints@[j].name@ != name@,
        decreases joints@.len() - i,
    {
        if joints[i].name == *name {
            return Some(i);
        }
        i += 1;
    }
    None
}

/// Orders the joint description into the serial chain that starts at the
/// joint named `root_name`: the result is that root joint followed by every
/// joint reachable from it by successive parent/child link matching, in
/// input order. Joints not reachable this way are ignored. Fails with
/// `RootJointNotFound` exactly when no joint bears the root name.
pub fn parse_from_root<T: Copy>(
    joints: &Vec<JointRecord<T>>,
    root_name: &String,
) -> (r: Result<Vec<JointRecord<T>>, KinError>)
    ensures
        match r {
            Ok(chain) => {
                &&& spec_has_named(joints@, root_name@)
                &&& chain@ == spec_ordered(joints@, root_name@)
                &&& chain@.len() >= 1
            },
            Err(e) => {
                &&& e == KinError::RootJointNotFound
                &&& !spec_has_named(joints@, root_name@)
            },
        },
{
    let ri = match find_first_named(joints, root_name) {
        Some(i) => i,
        None => {
            return Err(KinError::RootJointNotFound);
        },
    };
    let mut chain: Vec<JointRecord<T>> = Vec::new();
    chain.push(joints[ri].clone());
    proof {
        assert(spec_is_first_named(joints@, root_name@, ri as int));
        assert(spec_has_named(joints@, root_name@));
        lemma_first_named_unique(
            joints@,
            root_name@,
            ri as int,
            spec_first_named(joints@, root_name@),
        );
        assert(joints@.skip(0) =~= joints@);
        assert(chain@ =~= seq![joints@[ri as int]]);
    }
    let mut i: usize = 0;
    while i < joints.len()
        invariant
            i <= joints@.len(),
            chain@.len() >= 1,
            spec_walk(joints@.skip(i as int), chain@) == spec_ordered(joints@, root_name@),
        decreases joints@.len() - i,
    {
        proof {
            assert(joints@.skip(i as int).skip(1) =~= joints@.skip(i as int + 1));
        }
        if joints[i].parent_link == chain[chain.len() - 1].child_link {
            chain.push(joints[i].clone());
        }
        i += 1;
    }
    proof {
        assert(joints@.skip(joints@.len() as int) =~= Seq::<JointRecord<T>>::empty());
    }
    Ok(chain)
}

/// The screw axis of a revolute joint, in the fixed base frame at the home
/// configuration: the angular part is the local actuation axis carried into
/// the base frame by the joint's cumulative home rotation, and the linear
/// part is `-(axis x origin)` with `origin` the joint's home position.
pub fn revolute_joint_screw<T: nalgebra::RealField + Copy>(
    xf_joint: &Matrix4<T>,
    rev_axis: &Vector3<T>,
) -> Vector6<T> {
    let origin = mat4_translation(xf_joint);
    let axis = mat3_vec_mul(&mat4_rotation(xf_joint), rev_axis);
    let rho = vec3_neg(&vec3_cross(&axis, &origin));
    vec6_from_parts(&axis, &rho)
}

/// The product-of-exponentials pose: starting from the identity, one
/// exponential factor per configuration entry is multiplied on the right,
/// then the home transform.
pub fn _fk<T: nalgebra::RealField + Copy>(
    screws: &Vec<Vector6<T>>,
    xf_home: &Matrix4<T>,
    config: &[T],
) -> Matrix4<T>
    requires
        config@.len() <= screws@.len(),
{
    let mut xf = mat4_identity();
    let mut idx: usize = 0;
    while idx < config.len()
        invariant
            idx <= config@.len(),
            config@.len() <= screws@.len(),
        decreases config@.len() - idx,
    {
        xf = mat4_mul(&xf, &exp_se3(&screws[idx], config[idx]));
        idx += 1;
    }
    mat4_mul(&xf, xf_home)
}

/// The space-frame geometric Jacobian as its sequence of columns, one per
/// screw: column `i` is the adjoint of the running transform after joint
/// `i`, applied to screw `i`. Columns beyond the configuration's length
/// stay zero, never touched by the traversal.
pub fn _jac<T: nalgebra::RealField + Copy>(
    screws: &Vec<Vector6<T>>,
    config: &[T],
) -> (r: Vec<Vector6<T>>)
    requires
        config@.len() <= screws@.len(),
    ensures
        r@.len() == screws@.len(),
{
    let mut cols: Vec<Vector6<T>> = Vec::new();
    let mut xf = mat4_identity();
    let mut idx: usize = 0;
    while idx < config.len()
        invariant
            cols@.len() == idx,
            idx <= config@.len(),
            config@.len() <= screws@.len(),
        decreases config@.len() - idx,
    {
        xf = mat4_mul(&xf, &exp_se3(&screws[idx], config[idx]));
        let adj = adj_se3(&xf);
        cols.push(mat6_vec_mul(&adj, &screws[idx]));
        idx += 1;
    }
    while cols.len() < screws.len()
        invariant
            cols@.len() <= screws@.len(),
        decreases screws@.len() - cols@.len(),
    {
        cols.push(vec6_zero());
    }
    cols
}

} // verus!
