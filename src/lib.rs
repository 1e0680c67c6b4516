//! The logic of a physics workbench around a rotary inverted pendulum: the layout of its
//! bodies and joints, the motor controller's decisions, the lookup behind the pendulum's
//! angle, where the key bindings live, and the scene viewer's loading stages. The engine,
//! the physics and the floating-point geometry stay with the caller.
use vstd::prelude::*;

pub mod config;
pub mod motor;
pub mod observer;
pub mod scene;
pub mod scene_path;
pub mod viewer;

verus! {

} // verus!
