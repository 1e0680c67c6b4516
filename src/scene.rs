//! The rotary inverted pendulum as data: its bodies, where they stand, and the joints that
//! hold them together. Lengths are given in millimetres and placed in micrometres, so that
//! every half length is exact.
use vstd::prelude::*;

verus! {

/// Largest dimension accepted, in millimetres (one kilometre).
pub const MAX_DIMENSION_MM: i64 = 1_000_000;

/// A point or an offset, in micrometres.
#[derive(Clone, Copy, Debug, PartialEq, Eq, Structural)]
pub struct Point {
    pub x: i64,
    pub y: i64,
    pub z: i64,
}

#[derive(Clone, Copy, Debug, PartialEq, Eq, Structural)]
pub enum Axis {
    X,
    Y,
    Z,
}

/// The orientation of a body, or of a joint's frame on a body.
#[derive(Clone, Copy, Debug, PartialEq, Eq, Structural)]
pub enum Orientation {
    Identity,
    /// A quarter turn about the X axis.
    QuarterTurnX,
}

/// A collision shape, by half extents, in micrometres.
#[derive(Clone, Copy, Debug, PartialEq, Eq, Structural)]
pub enum Shape {
    Cuboid { half_x: i64, half_y: i64, half_z: i64 },
    Cylinder { half_height: i64, radius: i64 },
}

/// The degrees of freedom that the physics step may not move.
#[derive(Clone, Copy, Debug, PartialEq, Eq, Structural)]
pub struct Locks {
    pub translation_x: bool,
    pub translation_y: bool,
    pub translation_z: bool,
    pub rotation_x: bool,
    pub rotation_y: bool,
    pub rotation_z: bool,
}

/// The names given to the bodies that the state observer looks for.
#[derive(Clone, Copy, Debug, PartialEq, Eq, Structural)]
pub enum BodyName {
    Cylinder2,
    Cube3,
    Cylinder3,
}

impl BodyName {
    pub open spec fn spec_str(self) -> Seq<char> {
        match self {
            BodyName::Cylinder2 => "cylinder_2"@,
            BodyName::Cube3 => "cube_3"@,
            BodyName::Cylinder3 => "cylinder_3"@,
        }
    }

    /// The name under which the body is spawned and looked up.
    pub fn as_str(self) -> (r: &'static str)
        ensures
            r@ == self.spec_str(),
    {
        match self {
            BodyName::Cylinder2 => "cylinder_2",
            BodyName::Cube3 => "cube_3",
            BodyName::Cylinder3 => "cylinder_3",
        }
    }
}

#[derive(Clone, Copy, Debug, PartialEq, Eq, Structural)]
pub struct Body {
    pub shape: Shape,
    /// `false` for a body that never moves.
    pub dynamic: bool,
    /// Mass in kilograms; `None` leaves it to the collider's density.
    pub mass_kg: Option<u32>,
    /// Whether the body is drawn, in the scene's grey.
    pub rendered: bool,
    pub position: Point,
    pub orientation: Orientation,
    pub locks: Locks,
    pub name: Option<BodyName>,
}

#[derive(Clone, Copy, Debug, PartialEq, Eq, Structural)]
pub enum JointKind {
    /// No degree of freedom: a weld.
    Fixed,
    /// One rotation about `axis`.
    Revolute { axis: Axis },
}

/// A joint held by body `from`, connecting it to body `to`. The physics engine takes `to` as
/// the joint's first body and `from` as its second: `anchor1` is given in the frame of the
/// first, `anchor2` and `basis2` in the frame of the second.
#[derive(Clone, Copy, Debug, PartialEq, Eq, Structural)]
pub struct Joint {
    pub from: usize,
    pub to: usize,
    pub kind: JointKind,
    pub anchor1: Point,
    pub anchor2: Point,
    pub basis2: Orientation,
}

/// The sizes the scene is built from, in millimetres.
#[derive(Clone, Copy, Debug, PartialEq, Eq, Structural)]
pub struct Dimensions {
    pub ground_thickness: i64,
    pub ground_side: i64,
    pub cube_size: i64,
    pub cylinder_radius: i64,
    pub cylinder_height: i64,
}

pub struct PendulumScene {
    pub bodies: Vec<Body>,
    pub joints: Vec<Joint>,
    /// The index in `joints` of the joint that the motor drives.
    pub motorized_joint: usize,
}

pub open spec fn dimension_ok(v: i64) -> bool {
    0 < v <= MAX_DIMENSION_MM
}

impl Dimensions {
    pub open spec fn wf(self) -> bool {
        &&& dimension_ok(self.ground_thickness)
        &&& dimension_ok(self.ground_side)
        &&& dimension_ok(self.cube_size)
        &&& dimension_ok(self.cylinder_radius)
        &&& dimension_ok(self.cylinder_height)
    }

    /// A one-metre cube, cylinders of three metres by a quarter metre, on a hundred-metre
    /// ground ten millimetres thick.
    pub fn standard() -> (r: Dimensions)
        ensures
            r.wf(),
            r == (Dimensions {
                ground_thickness: 10,
                ground_side: 100_000,
                cube_size: 1000,
                cylinder_radius: 250,
                cylinder_height: 3000,
            }),
    {
        Dimensions {
            ground_thickness: 10,
            ground_side: 100_000,
            cube_size: 1000,
            cylinder_radius: 250,
            cylinder_height: 3000,
        }
    }
}

pub open spec fn pt(x: int, y: int, z: int) -> Point {
    Point { x: x as i64, y: y as i64, z: z as i64 }
}

pub open spec fn no_locks() -> Locks {
    Locks {
        translation_x: false,
        translation_y: false,
        translation_z: false,
        rotation_x: false,
        rotation_y: false,
        rotation_z: false,
    }
}

pub open spec fn cube_spec(d: Dimensions, position: Point, name: Option<BodyName>) -> Body {
    let half = d.cube_size * 500;
    Body {
        shape: Shape::Cuboid { half_x: half as i64, half_y: half as i64, half_z: half as i64 },
        dynamic: true,
        mass_kg: Some(1),
        rendered: true,
        position,
        orientation: Orientation::Identity,
        locks: no_locks(),
        name,
    }
}

pub open spec fn cylinder_spec(
    d: Dimensions,
    position: Point,
    orientation: Orientation,
    locks: Locks,
    name: Option<BodyName>,
) -> Body {
    Body {
        shape: Shape::Cylinder {
            half_height: (d.cylinder_height * 500) as i64,
            radius: (d.cylinder_radius * 1000) as i64,
        },
        dynamic: true,
        mass_kg: Some(1),
        rendered: true,
        position,
        orientation,
        locks,
        name,
    }
}

/// Body indices in the scene, from the ground up the chain.
pub const GROUND: usize = 0;
pub const CUBE_1: usize = 1;
pub const CYLINDER_1: usize = 2;
pub const CUBE_2: usize = 3;
pub const CYLINDER_2: usize = 4;
pub const CUBE_3: usize = 5;
pub const CYLINDER_3: usize = 6;

/// The bodies, in micrometres: `c`, `h`, `r` stand for the cube size, the cylinder height and
/// its radius.
pub open spec fn bodies_spec(d: Dimensions) -> Seq<Body> {
    let c = d.cube_size * 1000;
    let h = d.cylinder_height * 1000;
    let t = d.ground_thickness * 1000;
    let s = d.ground_side * 1000;
    seq![
        Body {
            shape: Shape::Cuboid { half_x: s as i64, half_y: t as i64, half_z: s as i64 },
            dynamic: false,
            mass_kg: None,
            rendered: false,
            position: pt(0, -t, 0),
            orientation: Orientation::Identity,
            locks: no_locks(),
            name: None,
        },
        cube_spec(d, pt(0, c, 0), None),
        cylinder_spec(
            d,
            pt(0, c + h / 2, 0),
            Orientation::Identity,
            Locks {
                translation_x: true,
                translation_y: true,
                translation_z: true,
                rotation_x: true,
                rotation_y: false,
                rotation_z: true,
            },
            None,
        ),
        cube_spec(d, pt(0, c + h + c / 2, 0), None),
        cylinder_spec(
            d,
            pt(0, c + h + c / 2, c / 2 + h / 2),
            Orientation::QuarterTurnX,
            Locks { translation_y: true, ..no_locks() },
            Some(BodyName::Cylinder2),
        ),
        cube_spec(d, pt(0, c + h + c / 2, c + h), Some(BodyName::Cube3)),
        cylinder_spec(
            d,
            pt(0, c + h / 2, c / 2 + h + c / 2),
            Orientation::Identity,
            no_locks(),
            Some(BodyName::Cylinder3),
        ),
    ]
}

/// The joints, in micrometres, from the ground up the chain. Each pair of anchors marks the
/// same point of the world: the first cube's top for the ground weld and the motor, the
/// centres of the second cube and of the horizontal cylinder for the welds that reach them,
/// the horizontal cylinder's far end for the second revolute joint, and the third cube's
/// underside for the last weld.
pub open spec fn joints_spec(d: Dimensions) -> Seq<Joint> {
    let c = d.cube_size * 1000;
    let h = d.cylinder_height * 1000;
    let t = d.ground_thickness * 1000;
    seq![
        Joint {
            from: GROUND,
            to: CUBE_1,
            kind: JointKind::Fixed,
            anchor1: pt(0, c / 2, 0),
            anchor2: pt(0, c + c / 2 + t, 0),
            basis2: Orientation::Identity,
        },
        Joint {
            from: CUBE_1,
            to: CYLINDER_1,
            kind: JointKind::Revolute { axis: Axis::Y },
            anchor1: pt(0, c / 2 - h / 2, 0),
            anchor2: pt(0, c / 2, 0),
            basis2: Orientation::Identity,
        },
        Joint {
            from: CYLINDER_1,
            to: CUBE_2,
            kind: JointKind::Fixed,
            anchor1: pt(0, 0, 0),
            anchor2: pt(0, c / 2 + h / 2, 0),
            basis2: Orientation::Identity,
        },
        Joint {
            from: CUBE_2,
            to: CYLINDER_2,
            kind: JointKind::Fixed,
            anchor1: pt(0, 0, 0),
            anchor2: pt(0, 0, c / 2 + h / 2),
            basis2: Orientation::QuarterTurnX,
        },
        Joint {
            from: CUBE_3,
            to: CYLINDER_2,
            kind: JointKind::Revolute { axis: Axis::Y },
            anchor1: pt(0, h / 2, 0),
            anchor2: pt(0, 0, -(c / 2)),
            basis2: Orientation::Identity,
        },
        Joint {
            from: CYLINDER_3,
            to: CUBE_3,
            kind: JointKind::Fixed,
            anchor1: pt(0, -(c / 2), 0),
            anchor2: pt(0, h / 2, 0),
            basis2: Orientation::QuarterTurnX,
        },
    ]
}

/// Where a point given in a body's own frame lies in the world: turned by the body's
/// orientation (a quarter turn about X takes `(x, y, z)` to `(x, -z, y)`), then moved to its
/// position.
pub open spec fn world_point(b: Body, a: Point) -> (int, int, int) {
    let p = b.position;
    match b.orientation {
        Orientation::Identity => (p.x + a.x, p.y + a.y, p.z + a.z),
        Orientation::QuarterTurnX => (p.x + a.x, p.y - a.z, p.z + a.y),
    }
}

/// A joint's two anchors mark one point of the world, so the bodies meet at the joint.
pub open spec fn anchors_meet(bodies: Seq<Body>, j: Joint) -> bool {
    world_point(bodies[j.to as int], j.anchor1) == world_point(bodies[j.from as int], j.anchor2)
}

/// Joint `i` attaches body `i + 1` to one of the bodies before it, and there is one joint
/// fewer than bodies: the joints reach every body from the first, and form no cycle.
pub open spec fn joints_form_tree(bodies: Seq<Body>, joints: Seq<Joint>) -> bool {
    &&& joints.len() + 1 == bodies.len()
    &&& forall|i: int|
        0 <= i < joints.len() ==> {
            ||| (#[trigger] joints[i]).from == i + 1 && joints[i].to <= i
            ||| joints[i].to == i + 1 && joints[i].from <= i
        }
}

/// The joint that the motor drives: the revolute joint between the first cube and the first
/// cylinder.
pub const MOTORIZED_JOINT: usize = 1;

/// Every joint connects two distinct bodies of the scene at one point, no body holds two
/// joints (the engine keeps one joint per holding body, so a second would replace the first),
/// and the joints form a tree over the bodies.
pub open spec fn joints_wf(bodies: Seq<Body>, joints: Seq<Joint>) -> bool {
    &&& forall|i: int|
        0 <= i < joints.len() ==> {
            &&& #[trigger] joints[i].from < bodies.len()
            &&& joints[i].to < bodies.len()
            &&& joints[i].from != joints[i].to
            &&& anchors_meet(bodies, joints[i])
        }
    &&& joints_form_tree(bodies, joints)
    &&& forall|i: int, j: int|
        0 <= i < joints.len() && 0 <= j < joints.len() && i != j ==> #[trigger] joints[i].from
            != #[trigger] joints[j].from
}

impl PendulumScene {
    pub open spec fn wf(&self) -> bool {
        &&& joints_wf(self.bodies@, self.joints@)
        &&& self.motorized_joint < self.joints@.len()
        &&& self.joints@[self.motorized_joint as int].kind is Revolute
    }
}

fn cube(d: Dimensions, position: Point, name: Option<BodyName>) -> (r: Body)
    requires
        d.wf(),
    ensures
        r == cube_spec(d, position, name),
{
    let half = d.cube_size * 500;
    Body {
        shape: Shape::Cuboid { half_x: half, half_y: half, half_z: half },
        dynamic: true,
        mass_kg: Some(1),
        rendered: true,
        position,
        orientation: Orientation::Identity,
        locks: Locks {
            translation_x: false,
            translation_y: false,
            translation_z: false,
            rotation_x: false,
            rotation_y: false,
            rotation_z: false,
        },
        name,
    }
}

fn cylinder(
    d: Dimensions,
    position: Point,
    orientation: Orientation,
    locks: Locks,
    name: Option<BodyName>,
) -> (r: Body)
    requires
        d.wf(),
    ensures
        r == cylinder_spec(d, position, orientation, locks, name),
{
    Body {
        shape: Shape::Cylinder {
            half_height: d.cylinder_height * 500,
            radius: d.cylinder_radius * 1000,
        },
        dynamic: true,
        mass_kg: Some(1),
        rendered: true,
        position,
        orientation,
        locks,
        name,
    }
}

/// Lays out the rotary inverted pendulum: a fixed ground, a cube welded on it, a motorized
/// cylinder turning on the cube, a second cube on top, a horizontal cylinder welded to it, a
/// third cube turning at its far end, and a cylinder welded below that cube.
pub fn rotary_inverted_pendulum(d: Dimensions) -> (r: PendulumScene)
    requires
        d.wf(),
    ensures
        r.bodies@ == bodies_spec(d),
        r.joints@ == joints_spec(d),
        r.motorized_joint == MOTORIZED_JOINT,
        r.wf(),
{
    let c = d.cube_size * 1000;
    let h = d.cylinder_height * 1000;
    let t = d.ground_thickness * 1000;
    let s = d.ground_side * 1000;
    let no_locks = Locks {
        translation_x: false,
        translation_y: false,
        translation_z: false,
        rotation_x: false,
        rotation_y: false,
        rotation_z: false,
    };
    let origin = Point { x: 0, y: 0, z: 0 };

    let mut bodies: Vec<Body> = Vec::new();
    bodies.push(
        Body {
            shape: Shape::Cuboid { half_x: s, half_y: t, half_z: s },
            dynamic: false,
            mass_kg: None,
            rendered: false,
            position: Point { x: 0, y: -t, z: 0 },
            orientation: Orientation::Identity,
            locks: no_locks,
            name: None,
        },
    );
    bodies.push(cube(d, Point { x: 0, y: c, z: 0 }, None));
    bodies.push(
        cylinder(
            d,
            Point { x: 0, y: c + h / 2, z: 0 },
            Orientation::Identity,
            Locks {
                translation_x: true,
                translation_y: true,
                translation_z: true,
                rotation_x: true,
                rotation_y: false,
                rotation_z: true,
            },
            None,
        ),
    );
    bodies.push(cube(d, Point { x: 0, y: c + h + c / 2, z: 0 }, None));
    bodies.push(
        cylinder(
            d,
            Point { x: 0, y: c + h + c / 2, z: c / 2 + h / 2 },
            Orientation::QuarterTurnX,
            Locks { translation_y: true, ..no_locks },
            Some(BodyName::Cylinder2),
        ),
    );
    bodies.push(cube(d, Point { x: 0, y: c + h + c / 2, z: c + h }, Some(BodyName::Cube3)));
    bodies.push(
        cylinder(
            d,
            Point { x: 0, y: c + h / 2, z: c / 2 + h + c / 2 },
            Orientation::Identity,
            no_locks,
            Some(BodyName::Cylinder3),
        ),
    );

    let mut joints: Vec<Joint> = Vec::new();
    joints.push(
        Joint {
            from: GROUND,
            to: CUBE_1,
            kind: JointKind::Fixed,
            anchor1: Point { x: 0, y: c / 2, z: 0 },
            anchor2: Point { x: 0, y: c + c / 2 + t, z: 0 },
            basis2: Orientation::Identity,
        },
    );
    joints.push(
        Joint {
            from: CUBE_1,
            to: CYLINDER_1,
            kind: JointKind::Revolute { axis: Axis::Y },
            anchor1: Point { x: 0, y: c / 2 - h / 2, z: 0 },
            anchor2: Point { x: 0, y: c / 2, z: 0 },
            basis2: Orientation::Identity,
        },
    );
    joints.push(
        Joint {
            from: CYLINDER_1,
            to: CUBE_2,
            kind: JointKind::Fixed,
            anchor1: origin,
            anchor2: Point { x: 0, y: c / 2 + h / 2, z: 0 },
            basis2: Orientation::Identity,
        },
    );
    joints.push(
        Joint {
            from: CUBE_2,
            to: CYLINDER_2,
            kind: JointKind::Fixed,
            anchor1: origin,
            anchor2: Point { x: 0, y: 0, z: c / 2 + h / 2 },
            basis2: Orientation::QuarterTurnX,
        },
    );
    joints.push(
        Joint {
            from: CUBE_3,
            to: CYLINDER_2,
            kind: JointKind::Revolute { axis: Axis::Y },
            anchor1: Point { x: 0, y: h / 2, z: 0 },
            anchor2: Point { x: 0, y: 0, z: -(c / 2) },
            basis2: Orientation::Identity,
        },
    );
    joints.push(
        Joint {
            from: CYLINDER_3,
            to: CUBE_3,
            kind: JointKind::Fixed,
            anchor1: Point { x: 0, y: -(c / 2), z: 0 },
            anchor2: Point { x: 0, y: h / 2, z: 0 },
            basis2: Orientation::QuarterTurnX,
        },
    );

    assert(bodies@ =~= bodies_spec(d));
    assert(joints@ =~= joints_spec(d));
    PendulumScene { bodies, joints, motorized_joint: MOTORIZED_JOINT }
}

/// With a cube of size `c`, the weld between the ground and the first cube is anchored on that
/// cube at `(0, c/2, 0)` in its own frame: half the cube's extent.
pub proof fn lemma_ground_anchor(d: Dimensions)
    requires
        d.wf(),
    ensures
        joints_spec(d)[0].from == GROUND,
        joints_spec(d)[0].to == CUBE_1,
        joints_spec(d)[0].kind == JointKind::Fixed,
        joints_spec(d)[0].anchor1 == (Point { x: 0, y: (d.cube_size * 500) as i64, z: 0 }),
{
}

} // verus!
