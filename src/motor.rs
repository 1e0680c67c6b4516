//! Motor control: which command a tick's key presses resolve to, and what it asks of the
//! motorized revolute joint.
use vstd::prelude::*;

use crate::config::KeyBindings;

verus! {

/// Target angular velocity, in whole radians per second, set by a rotate command.
pub const MOTOR_VELOCITY: i32 = 10;

/// Drive strength handed to the joint motor with every command.
pub const MOTOR_FACTOR: u32 = 10000;

/// The key that stops the motor, whatever the bindings say.
pub open spec fn stop_key() -> Seq<char> {
    "ArrowDown"@
}

/// The three commands a user can give the motor.
#[derive(Clone, Copy, Debug, PartialEq, Eq, Structural)]
pub enum MotorCommand {
    Clockwise,
    CounterClockwise,
    Stop,
}

/// What a command asks of the joint motor: a target angular velocity and a drive strength.
#[derive(Clone, Copy, Debug, PartialEq, Eq, Structural)]
pub struct MotorTarget {
    pub velocity: i32,
    pub factor: u32,
}

/// The joint that the controller drives, as the engine's entity bits; `None` until the scene
/// is built.
#[derive(Clone, Copy, Debug, PartialEq, Eq, Structural)]
pub struct Motor {
    pub joint_entity: Option<u64>,
}

/// What the controller decided on one tick.
#[derive(Clone, Copy, Debug, PartialEq, Eq, Structural)]
pub enum MotorControl {
    /// Set the motor of `joint` to `target`.
    Drive { joint: u64, target: MotorTarget },
    /// No command key was newly pressed: leave the joint as it is.
    Unchanged,
    /// No joint is registered: warn once and touch nothing.
    NoJoint,
}

/// Picks the command of a tick from what was newly pressed, in fixed priority:
/// clockwise, then counter-clockwise, then stop.
pub open spec fn resolve_spec(clockwise: bool, counter_clockwise: bool, stop: bool) -> Option<
    MotorCommand,
> {
    if clockwise {
        Some(MotorCommand::Clockwise)
    } else if counter_clockwise {
        Some(MotorCommand::CounterClockwise)
    } else if stop {
        Some(MotorCommand::Stop)
    } else {
        None
    }
}

pub open spec fn target_spec(cmd: MotorCommand) -> MotorTarget {
    match cmd {
        MotorCommand::Clockwise => MotorTarget { velocity: MOTOR_VELOCITY, factor: MOTOR_FACTOR },
        MotorCommand::CounterClockwise => MotorTarget {
            velocity: (-MOTOR_VELOCITY) as i32,
            factor: MOTOR_FACTOR,
        },
        MotorCommand::Stop => MotorTarget { velocity: 0, factor: MOTOR_FACTOR },
    }
}

/// Whether `key` is among the keys newly pressed this tick.
pub open spec fn pressed_spec(pressed: Seq<String>, key: Seq<char>) -> bool {
    exists|i: int| 0 <= i < pressed.len() && (#[trigger] pressed[i])@ == key
}

/// The command that the newly pressed keys give under `bindings`.
pub open spec fn command_spec(bindings: KeyBindings, pressed: Seq<String>) -> Option<MotorCommand> {
    resolve_spec(
        pressed_spec(pressed, bindings.rotate_clockwise@),
        pressed_spec(pressed, bindings.rotate_counter_clockwise@),
        pressed_spec(pressed, stop_key()),
    )
}

/// The controller's decision for one tick.
pub open spec fn control_spec(motor: Motor, bindings: KeyBindings, pressed: Seq<String>) -> MotorControl {
    match motor.joint_entity {
        None => MotorControl::NoJoint,
        Some(joint) => match command_spec(bindings, pressed) {
            None => MotorControl::Unchanged,
            Some(cmd) => MotorControl::Drive { joint, target: target_spec(cmd) },
        },
    }
}

pub fn resolve_command(clockwise: bool, counter_clockwise: bool, stop: bool) -> (r: Option<
    MotorCommand,
>)
    ensures
        r == resolve_spec(clockwise, counter_clockwise, stop),
{
    if clockwise {
        Some(MotorCommand::Clockwise)
    } else if counter_clockwise {
        Some(MotorCommand::CounterClockwise)
    } else if stop {
        Some(MotorCommand::Stop)
    } else {
        None
    }
}

impl MotorCommand {
    /// The velocity and strength that this command sets on the joint motor.
    pub fn target(self) -> (r: MotorTarget)
        ensures
            r == target_spec(self),
    {
        match self {
            MotorCommand::Clockwise => MotorTarget { velocity: MOTOR_VELOCITY, factor: MOTOR_FACTOR },
            MotorCommand::CounterClockwise => MotorTarget {
                velocity: -MOTOR_VELOCITY,
                factor: MOTOR_FACTOR,
            },
            MotorCommand::Stop => MotorTarget { velocity: 0, factor: MOTOR_FACTOR },
        }
    }
}

/// Whether `key` was newly pressed, given the names of the keys newly pressed this tick.
pub fn is_pressed(pressed: &Vec<String>, key: &String) -> (r: bool)
    ensures
        r == pressed_spec(pressed@, key@),
{
    let mut i: usize = 0;
    while i < pressed.len()
        invariant
            0 <= i <= pressed@.len(),
            forall|j: int| 0 <= j < i ==> (#[trigger] pressed@[j])@ != key@,
        decreases pressed@.len() - i,
    {
        if pressed[i].eq(key) {
            assert(pressed@[i as int]@ == key@);
            return true;
        }
        i = i + 1;
    }
    false
}

/// Decides what one tick of key input does to the motorized joint.
pub fn control_motor(motor: &Motor, bindings: &KeyBindings, pressed: &Vec<String>) -> (r:
    MotorControl)
    ensures
        r == control_spec(*motor, *bindings, pressed@),
{
    match motor.joint_entity {
        None => MotorControl::NoJoint,
        Some(joint) => {
            let stop = String::from_str("ArrowDown");
            let cmd = resolve_command(
                is_pressed(pressed, &bindings.rotate_clockwise),
                is_pressed(pressed, &bindings.rotate_counter_clockwise),
                is_pressed(pressed, &stop),
            );
            match cmd {
                None => MotorControl::Unchanged,
                Some(c) => MotorControl::Drive { joint, target: c.target() },
            }
        },
    }
}

/// A command issued alone sets its own target on the registered joint: `+V`, `-V` or `0`,
/// always with strength `F`.
pub proof fn lemma_isolated_command(
    joint: u64,
    bindings: KeyBindings,
    pressed: Seq<String>,
    cmd: MotorCommand,
)
    requires
        pressed_spec(pressed, bindings.rotate_clockwise@) == (cmd == MotorCommand::Clockwise),
        pressed_spec(pressed, bindings.rotate_counter_clockwise@) == (cmd
            == MotorCommand::CounterClockwise),
        pressed_spec(pressed, stop_key()) == (cmd == MotorCommand::Stop),
    ensures
        control_spec(Motor { joint_entity: Some(joint) }, bindings, pressed) == (MotorControl::Drive {
            joint,
            target: MotorTarget {
                velocity: match cmd {
                    MotorCommand::Clockwise => MOTOR_VELOCITY,
                    MotorCommand::CounterClockwise => (-MOTOR_VELOCITY) as i32,
                    MotorCommand::Stop => 0i32,
                },
                factor: MOTOR_FACTOR,
            },
        }),
{
}

/// Clockwise and counter-clockwise pressed in the same tick resolve to clockwise.
pub proof fn lemma_clockwise_wins(joint: u64, bindings: KeyBindings, pressed: Seq<String>)
    requires
        pressed_spec(pressed, bindings.rotate_clockwise@),
        pressed_spec(pressed, bindings.rotate_counter_clockwise@),
    ensures
        control_spec(Motor { joint_entity: Some(joint) }, bindings, pressed) == (MotorControl::Drive {
            joint,
            target: MotorTarget { velocity: MOTOR_VELOCITY, factor: MOTOR_FACTOR },
        }),
{
}

/// Without a registered joint the controller only warns, whatever was pressed.
pub proof fn lemma_no_joint_no_mutation(bindings: KeyBindings, pressed: Seq<String>)
    ensures
        control_spec(Motor { joint_entity: None }, bindings, pressed) == MotorControl::NoJoint,
{
}

} // verus!
