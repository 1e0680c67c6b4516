use pendulum_bench::scene::{
    rotary_inverted_pendulum, Axis, BodyName, Dimensions, JointKind, Orientation, Point, Shape,
    CUBE_1, CUBE_3, CYLINDER_1, CYLINDER_2, GROUND, MOTORIZED_JOINT,
};

fn p(x: i64, y: i64, z: i64) -> Point {
    Point { x, y, z }
}

#[test]
fn standard_dimensions() {
    let d = Dimensions::standard();
    assert_eq!(d.cube_size, 1000);
    assert_eq!(d.cylinder_height, 3000);
    assert_eq!(d.cylinder_radius, 250);
    assert_eq!(d.ground_thickness, 10);
    assert_eq!(d.ground_side, 100_000);
}

#[test]
fn ground_to_first_cube_anchor_is_half_cube() {
    let scene = rotary_inverted_pendulum(Dimensions::standard());
    let j = scene.joints[0];
    assert_eq!(j.from, GROUND);
    assert_eq!(j.to, CUBE_1);
    assert_eq!(j.kind, JointKind::Fixed);
    // 0.5 m on the cube, in micrometres
    assert_eq!(j.anchor1, p(0, 500_000, 0));
    // the same point seen from the ground: 1.5 m above its centre, which is 10 mm down
    assert_eq!(j.anchor2, p(0, 1_510_000, 0));
}

#[test]
fn scene_has_seven_bodies_and_six_joints() {
    let scene = rotary_inverted_pendulum(Dimensions::standard());
    assert_eq!(scene.bodies.len(), 7);
    assert_eq!(scene.joints.len(), 6);
}

#[test]
fn motorized_joint_turns_first_cylinder_about_y() {
    let scene = rotary_inverted_pendulum(Dimensions::standard());
    assert_eq!(scene.motorized_joint, MOTORIZED_JOINT);
    let j = scene.joints[scene.motorized_joint];
    assert_eq!(j.from, CUBE_1);
    assert_eq!(j.to, CYLINDER_1);
    assert_eq!(j.kind, JointKind::Revolute { axis: Axis::Y });
    assert_eq!(j.anchor1, p(0, -1_000_000, 0));
    assert_eq!(j.anchor2, p(0, 500_000, 0));
}

#[test]
fn body_positions() {
    let scene = rotary_inverted_pendulum(Dimensions::standard());
    let pos: Vec<Point> = scene.bodies.iter().map(|b| b.position).collect();
    assert_eq!(
        pos,
        vec![
            p(0, -10_000, 0),
            p(0, 1_000_000, 0),
            p(0, 2_500_000, 0),
            p(0, 4_500_000, 0),
            p(0, 4_500_000, 2_000_000),
            p(0, 4_500_000, 4_000_000),
            p(0, 2_500_000, 4_000_000),
        ]
    );
}

#[test]
fn shapes_and_ground() {
    let scene = rotary_inverted_pendulum(Dimensions::standard());
    let ground = scene.bodies[GROUND];
    assert!(!ground.dynamic);
    assert!(!ground.rendered);
    assert_eq!(ground.mass_kg, None);
    assert_eq!(
        ground.shape,
        Shape::Cuboid { half_x: 100_000_000, half_y: 10_000, half_z: 100_000_000 }
    );
    assert_eq!(
        scene.bodies[CUBE_3].shape,
        Shape::Cuboid { half_x: 500_000, half_y: 500_000, half_z: 500_000 }
    );
    assert_eq!(
        scene.bodies[CYLINDER_2].shape,
        Shape::Cylinder { half_height: 1_500_000, radius: 250_000 }
    );
    assert_eq!(scene.bodies[CYLINDER_2].orientation, Orientation::QuarterTurnX);
    assert!(scene.bodies[CYLINDER_2].locks.translation_y);
    assert!(!scene.bodies[CYLINDER_2].locks.translation_x);
    let l = scene.bodies[CYLINDER_1].locks;
    assert!(l.translation_x && l.translation_y && l.translation_z);
    assert!(l.rotation_x && !l.rotation_y && l.rotation_z);
    for b in &scene.bodies[1..] {
        assert!(b.dynamic && b.rendered);
        assert_eq!(b.mass_kg, Some(1));
    }
}

#[test]
fn named_bodies() {
    let scene = rotary_inverted_pendulum(Dimensions::standard());
    let names: Vec<Option<&str>> = scene.bodies.iter().map(|b| b.name.map(|n| n.as_str())).collect();
    assert_eq!(
        names,
        vec![None, None, None, None, Some("cylinder_2"), Some("cube_3"), Some("cylinder_3")]
    );
    assert_eq!(BodyName::Cube3.as_str(), "cube_3");
}

#[test]
fn no_body_holds_two_joints() {
    let scene = rotary_inverted_pendulum(Dimensions::standard());
    let mut holders: Vec<usize> = scene.joints.iter().map(|j| j.from).collect();
    holders.sort();
    holders.dedup();
    assert_eq!(holders.len(), scene.joints.len());
    for j in &scene.joints {
        assert!(j.from < scene.bodies.len() && j.to < scene.bodies.len() && j.from != j.to);
    }
}

#[test]
fn far_joints_anchor_below_and_along() {
    let scene = rotary_inverted_pendulum(Dimensions::standard());
    assert_eq!(scene.joints[2].anchor2, p(0, 2_000_000, 0));
    assert_eq!(scene.joints[3].anchor2, p(0, 0, 2_000_000));
    assert_eq!(scene.joints[3].basis2, Orientation::QuarterTurnX);
    assert_eq!(scene.joints[4].anchor1, p(0, 1_500_000, 0));
    assert_eq!(scene.joints[4].anchor2, p(0, 0, -500_000));
    assert_eq!(scene.joints[4].kind, JointKind::Revolute { axis: Axis::Y });
    assert_eq!(scene.joints[5].anchor1, p(0, -500_000, 0));
    assert_eq!(scene.joints[5].anchor2, p(0, 1_500_000, 0));
}

#[test]
fn other_dimensions_scale() {
    let d = Dimensions {
        ground_thickness: 1,
        ground_side: 2,
        cube_size: 3,
        cylinder_radius: 1,
        cylinder_height: 5,
    };
    let scene = rotary_inverted_pendulum(d);
    assert_eq!(scene.joints[0].anchor1, p(0, 1500, 0));
    assert_eq!(scene.joints[0].anchor2, p(0, 5500, 0));
    assert_eq!(scene.bodies[CUBE_3].position, p(0, 9500, 8000));
}

fn world(b: &pendulum_bench::scene::Body, a: Point) -> Point {
    let q = b.position;
    match b.orientation {
        Orientation::Identity => p(q.x + a.x, q.y + a.y, q.z + a.z),
        Orientation::QuarterTurnX => p(q.x + a.x, q.y - a.z, q.z + a.y),
    }
}

#[test]
fn every_joint_anchors_meet() {
    for d in [
        Dimensions::standard(),
        Dimensions { ground_thickness: 3, ground_side: 7, cube_size: 5, cylinder_radius: 1, cylinder_height: 9 },
    ] {
        let scene = rotary_inverted_pendulum(d);
        for j in &scene.joints {
            assert_eq!(world(&scene.bodies[j.to], j.anchor1), world(&scene.bodies[j.from], j.anchor2));
        }
    }
    let scene = rotary_inverted_pendulum(Dimensions::standard());
    // the motor turns about the first cube's top
    let j = scene.joints[MOTORIZED_JOINT];
    assert_eq!(world(&scene.bodies[j.to], j.anchor1), p(0, 1_500_000, 0));
}

#[test]
fn joints_attach_each_body_to_an_earlier_one() {
    let scene = rotary_inverted_pendulum(Dimensions::standard());
    assert_eq!(scene.joints.len() + 1, scene.bodies.len());
    for (i, j) in scene.joints.iter().enumerate() {
        assert!((j.from == i + 1 && j.to <= i) || (j.to == i + 1 && j.from <= i));
    }
}
