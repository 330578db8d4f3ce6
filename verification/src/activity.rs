//! Detection of input on a controller, as a monitor of the adapter needs it to
//! tell an idle controller from one in use.

use vstd::prelude::*;

use crate::controller::ControllerState;
use crate::stick::axis_with_deadzone;

verus! {

/// Deadzone of the control stick when it is watched for input.
pub const CONTROL_DEADZONE: u8 = 15;

/// Sensitivity of the control stick when it is watched for input.
pub const CONTROL_SENSITIVITY: u8 = 100;

/// Per-axis deadzone of the C-stick when it is watched for input.
pub const C_DEADZONE: u8 = 15;

/// Pull of an analog trigger above which it counts as input.
pub const TRIGGER_THRESHOLD: u8 = 168;

/// Whether `state` shows input, given the conditioned control stick `stick`:
/// a button is down, a trigger is pulled beyond the threshold, or one of the
/// two sticks is displaced after conditioning.
pub open spec fn shows_input(state: ControllerState, stick: (i8, i8)) -> bool {
    ||| state.a
    ||| state.b
    ||| state.x
    ||| state.y
    ||| state.start
    ||| state.left
    ||| state.right
    ||| state.down
    ||| state.up
    ||| state.l
    ||| state.trigger_left > TRIGGER_THRESHOLD
    ||| state.r
    ||| state.trigger_right > TRIGGER_THRESHOLD
    ||| state.z
    ||| stick.0 != 0
    ||| stick.1 != 0
    ||| axis_with_deadzone(state.substick_x, C_DEADZONE) != 0
    ||| axis_with_deadzone(state.substick_y, C_DEADZONE) != 0
}

/// Whether `state` shows input. `stick` is the control stick of `state` as
/// conditioned with `CONTROL_DEADZONE` and `CONTROL_SENSITIVITY`, `(0, 0)`
/// where the deadzone suppresses it.
pub fn any(state: ControllerState, stick: (i8, i8)) -> (active: bool)
    ensures
        active == shows_input(state, stick),
{
    let (substick_x, substick_y) = state.substick_with_deadzone(C_DEADZONE);
    state.a || state.b || state.x || state.y || state.start || state.left || state.right
        || state.down || state.up || state.l || state.trigger_left > TRIGGER_THRESHOLD || state.r
        || state.trigger_right > TRIGGER_THRESHOLD || state.z || stick.0 != 0 || stick.1 != 0
        || substick_x != 0 || substick_y != 0
}

} // verus!
