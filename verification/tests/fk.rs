// Regression tests against ground-truth screws, poses and Jacobians for a
// 6-DOF UR10-class arm and a 7-DOF KUKA-iiwa-class arm. The joint
// descriptions below reproduce the screw axes of those robots exactly.

use nalgebra::{Matrix4, Vector3};
use rustik::{Chain, JointKind, JointRecord};

fn rec(
    name: &str,
    parent: &str,
    child: &str,
    kind: JointKind,
    xyz: [f64; 3],
    rpy: [f64; 3],
    axis: [f64; 3],
) -> JointRecord<f64> {
    JointRecord {
        name: name.to_string(),
        parent_link: parent.to_string(),
        child_link: child.to_string(),
        kind,
        origin_xyz: Vector3::new(xyz[0], xyz[1], xyz[2]),
        origin_rpy: Vector3::new(rpy[0], rpy[1], rpy[2]),
        axis: Vector3::new(axis[0], axis[1], axis[2]),
    }
}

pub fn ur10_joints() -> Vec<JointRecord<f64>> {
    let r = JointKind::Revolute;
    let f = JointKind::Fixed;
    let z = [0.0, 0.0, 1.0];
    let y = [0.0, 1.0, 0.0];
    let x = [1.0, 0.0, 0.0];
    let o = [0.0, 0.0, 0.0];
    let half_pi = std::f64::consts::FRAC_PI_2;
    vec![
        rec("world_joint", "world", "base_link", f, o, o, z),
        rec("shoulder_pan_joint", "base_link", "shoulder_link", r, o, o, z),
        rec("shoulder_lift_joint", "shoulder_link", "upper_arm_link", r, o, o, y),
        rec("elbow_joint", "upper_arm_link", "forearm_link", r, [0.0, 0.0, 0.612], o, y),
        rec("wrist_1_joint", "forearm_link", "wrist_1_link", r, [0.0, 0.0, 0.5723], o, y),
        rec("wrist_2_joint", "wrist_1_link", "wrist_2_link", r, [0.0, 0.163941, 0.0], o, x),
        rec("wrist_3_joint", "wrist_2_link", "wrist_3_link", r, [0.1157, 0.0, 0.0], o, y),
        rec(
            "ee_fixed_joint",
            "wrist_3_link",
            "ee_link",
            f,
            [0.0, 0.0922, 0.0],
            [-half_pi, half_pi, 0.0],
            z,
        ),
    ]
}

pub fn kuka_joints() -> Vec<JointRecord<f64>> {
    let r = JointKind::Revolute;
    let f = JointKind::Fixed;
    let z = [0.0, 0.0, 1.0];
    let y = [0.0, 1.0, 0.0];
    let neg_y = [0.0, -1.0, 0.0];
    let o = [0.0, 0.0, 0.0];
    vec![
        rec("world_joint", "world", "base_link", f, o, o, z),
        rec("joint_a1", "base_link", "link_1", r, o, o, z),
        rec("joint_a2", "link_1", "link_2", r, [0.0, 0.0, 0.36], o, y),
        rec("joint_a3", "link_2", "link_3", r, o, o, z),
        rec("joint_a4", "link_3", "link_4", r, [0.0, 0.0, 0.42], o, neg_y),
        rec("joint_a5", "link_4", "link_5", r, o, o, z),
        rec("joint_a6", "link_5", "link_6", r, [0.0, 0.0, 0.40], o, y),
        rec("joint_a7", "link_6", "link_7", r, o, o, z),
        rec("ee_fixed_joint", "link_7", "ee_link", f, [0.0, 0.0, 0.081], o, z),
    ]
}

pub fn ur10_config() -> Vec<f64> {
    vec![
        -1.6333352864886936,
        1.9904832183698629,
        -1.058632445175561,
        0.9097905013220551,
        0.8112221073340007,
        -2.0020893277255416,
    ]
}

pub fn kuka_config() -> Vec<f64> {
    vec![
        -0.5770057653280771,
        0.8797884979496464,
        -0.6500974986020784,
        -0.04409327129573626,
        2.270870130215024,
        0.8326346174333068,
        -2.44789448732016,
    ]
}

#[test]
fn test_screws() {
    // Ground-truth screw columns [wx, wy, wz, vx, vy, vz], one per active
    // joint, in chain order.
    let gt_screws: [[f64; 6]; 6] = [
        [0.0, 0.0, 1.0, 0.0, 0.0, 0.0],
        [0.0, 1.0, 0.0, 0.0, 0.0, 0.0],
        [0.0, 1.0, 0.0, -0.612, 0.0, 0.0],
        [0.0, 1.0, 0.0, -1.1843, 0.0, 0.0],
        [1.0, 0.0, 0.0, 0.0, 1.1843, -0.163941],
        [0.0, 1.0, 0.0, -1.1843, 0.0, 0.1157],
    ];
    let robot = Chain::new(&ur10_joints(), &String::from("world_joint")).unwrap();
    assert_eq!(robot.active_joints.len(), 6);
    for (idx, screw) in robot.screws.iter().enumerate() {
        let mut diff = 0.0;
        for c in 0..6 {
            diff += (gt_screws[idx][c] - screw[c]).abs();
        }
        assert!(diff < 1.0e-6);
    }

    let gt_screws: [[f64; 6]; 7] = [
        [0.0, 0.0, 1.0, 0.0, 0.0, 0.0],
        [0.0, 1.0, 0.0, -0.36, 0.0, 0.0],
        [0.0, 0.0, 1.0, 0.0, 0.0, 0.0],
        [0.0, -1.0, 0.0, 0.78, 0.0, 0.0],
        [0.0, 0.0, 1.0, 0.0, 0.0, -0.0],
        [0.0, 1.0, 0.0, -1.18, 0.0, 0.0],
        [0.0, 0.0, 1.0, 0.0, 0.0, 0.0],
    ];
    let robot = Chain::<f64>::new(&kuka_joints(), &String::from("world_joint")).unwrap();
    assert_eq!(robot.active_joints.len(), 7);
    for (idx, screw) in robot.screws.iter().enumerate() {
        let mut diff = 0.0;
        for c in 0..6 {
            diff += (gt_screws[idx][c] - screw[c]).abs();
        }
        assert!(diff < 1.0e-6);
    }
}

#[test]
fn test_fk() {
    let t_gt: [[f64; 4]; 4] = [
        [-0.30469028, 0.70209945, 0.64359941, 0.16125383],
        [-0.01531924, 0.67202942, -0.74036598, -1.06391064],
        [-0.95232828, -0.23544177, -0.1940052, -0.03745314],
        [0.0, 0.0, 0.0, 1.0],
    ];
    let robot = Chain::new(&ur10_joints(), &String::from("world_joint")).unwrap();
    let pose: Matrix4<f64> = robot.fk(&ur10_config(), &String::from("ee_fixed_joint")).unwrap();
    let mut diff = 0.0;
    for i in 0..4 {
        for j in 0..4 {
            diff += (t_gt[i][j] - pose[(i, j)]).abs();
        }
    }
    assert!(diff < 1.0e-6);

    let t_gt: [[f64; 4]; 4] = [
        [0.43628054, 0.33805164, 0.8338947, 0.59856079],
        [-0.8799765, 0.35380273, 0.31696211, -0.33269581],
        [-0.18788466, -0.87209215, 0.45183475, 0.90813286],
        [0.0, 0.0, 0.0, 1.0],
    ];
    let robot = Chain::new(&kuka_joints(), &String::from("world_joint")).unwrap();
    let pose: Matrix4<f64> = robot.fk(&kuka_config(), &String::from("ee_fixed_joint")).unwrap();
    let mut diff = 0.0;
    for i in 0..4 {
        for j in 0..4 {
            diff += (t_gt[i][j] - pose[(i, j)]).abs();
        }
    }
    assert!(diff < 1.0e-6);
}

#[test]
fn test_jacobian() {
    // Ground-truth Jacobians, stored row-major: rows 0..3 angular, rows
    // 3..6 linear, one column per active ancestor joint.
    let j_gt: [[f64; 6]; 6] = [
        [0.0, 9.98045077e-01, 9.98045077e-01, 9.98045077e-01, 1.67211236e-02, 6.43599407e-01],
        [0.0, -6.24982014e-02, -6.24982014e-02, -6.24982014e-02, 2.67022646e-01, -7.40365980e-01],
        [1.0, 0.0, 0.0, 0.0, -9.63545178e-01, -1.94005203e-01],
        [0.0, 0.0, -1.55854525e-02, 5.74460418e-03, 9.64577219e-01, 1.78675165e-01],
        [0.0, 0.0, -2.48886909e-01, 9.17366226e-02, 9.78715501e-02, 7.17926100e-03],
        [0.0, 0.0, 5.58888540e-01, 1.01828807e+00, 4.38617059e-02, 5.65345401e-01],
    ];
    let robot = Chain::new(&ur10_joints(), &String::from("world_joint")).unwrap();
    let cols = robot.jacobian(&ur10_config(), &String::from("ee_fixed_joint")).unwrap();
    assert_eq!(cols.len(), 6);
    let mut diff = 0.0;
    for (c, col) in cols.iter().enumerate() {
        for r in 0..6 {
            diff += (j_gt[r][c] - col[r]).abs();
        }
    }
    assert!(diff < 1.0e-6);

    let j_gt: [[f64; 7]; 6] = [
        [
            0.0,
            0.5455169184296017,
            0.6458431523016438,
            -0.7575363936562216,
            0.6494029826015326,
            -0.5388746630729301,
            0.8338947036306463,
        ],
        [
            0.0,
            0.8380998101103896,
            -0.4203775755351518,
            -0.45671871805228875,
            -0.45452788899460106,
            0.29060956745529626,
            0.31696211271820174,
        ],
        [
            1.0,
            0.000000000004896588860146748,
            0.6373141427995015,
            0.46641893708017446,
            0.6096557752653093,
            0.7906707132564617,
            0.4518347511623808,
        ],
        [
            0.0,
            -0.3017159316397403,
            0.1513359271921429,
            0.20431925776231916,
            0.17765444283663986,
            -0.5366286472582854,
            -0.4381672383002741,
        ],
        [
            0.0,
            0.19638609063465665,
            0.23250353482897537,
            -0.6020023979873821,
            0.2422403866758025,
            -0.889505984816935,
            0.48683662155391083,
        ],
        [
            0.0,
            0.0,
            0.0,
            -0.2576363870336632,
            -0.008634894770328545,
            -0.038798239868654334,
            0.4671543626596568,
        ],
    ];
    let robot = Chain::new(&kuka_joints(), &String::from("world_joint")).unwrap();
    let cols = robot.jacobian(&kuka_config(), &String::from("ee_fixed_joint")).unwrap();
    assert_eq!(cols.len(), 7);
    let mut diff = 0.0;
    for (c, col) in cols.iter().enumerate() {
        for r in 0..6 {
            diff += (j_gt[r][c] - col[r]).abs();
        }
    }
    assert!(diff < 1.0e-6);
}
