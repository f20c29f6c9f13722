//! The declarative action configuration: which key triggers which ordered
//! animation sequence, and whether the track falls back to the idle
//! animation afterwards.
//!
//! Keys are identified by plain 32-bit codes in the library's own key
//! encoding; animation lengths are opaque 32-bit scalar codes used only as
//! the delay offset of the *next* queued item, defaulting to zero when
//! absent.

use vstd::prelude::*;

verus! {

/// One entry of an action's animation sequence.
#[derive(Clone, Debug)]
pub struct AnimationItem {
    pub name: String,
    pub loop_: bool,
    pub length: Option<u32>,
}

/// Whether a flag is off; the serialisation layer omits such flags.
pub fn is_false(loop_: &bool) -> (r: bool)
    ensures
        r == !*loop_,
{
    !*loop_
}

/// Whether a flag is on; the serialisation layer omits such flags.
pub fn is_true(loop_: &bool) -> (r: bool)
    ensures
        r == *loop_,
{
    *loop_
}

/// Actions return to the idle animation unless configured otherwise.
pub fn default_return_to_idle() -> (r: bool)
    ensures
        r,
{
    true
}

/// One configured action: a trigger key, the animation sequence it
/// issues, and whether the track then falls back to idle.
#[derive(Clone, Debug)]
pub struct Action {
    pub trigger: u32,
    pub sequence: Vec<AnimationItem>,
    pub return_to_idle: bool,
}

/// The core's configuration: the action table and the process-wide idle
/// animation, if one is configured.
#[derive(Clone, Debug)]
pub struct Config {
    pub actions: Vec<Action>,
    pub idle_animation: Option<String>,
}

/// Persisted session state; currently empty.
#[derive(Clone, Debug)]
pub struct SavedState {}

} // verus!
