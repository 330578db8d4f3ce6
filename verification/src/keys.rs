//! The key word handed to the host: which N64 buttons a controller's state
//! presses under a mapping, and the bits that stand for them.

use vstd::prelude::*;

use crate::adapter::AdapterState;
use crate::channel::Channel;
use crate::config::{ControllerMapping, N64Button};
use crate::controller::ControllerState;
use crate::stick::axis_with_deadzone;

verus! {

/// Pull of an analog trigger above which its shoulder button counts as
/// pressed.
pub const TRIGGER_THRESHOLD: u8 = 148;

/// Per-axis deadzone of the C-stick when it is read as four buttons.
pub const C_STICK_DEADZONE: u8 = 40;

/// Deadzone of the control stick when its position is handed to the host.
pub const CONTROL_STICK_DEADZONE: u8 = 40;

/// Sensitivity of the control stick when its position is handed to the host.
pub const CONTROL_STICK_SENSITIVITY: u8 = 100;

impl ControllerState {
    /// Whether the left shoulder is pressed: its button is down or its
    /// trigger is pulled beyond the threshold.
    pub open spec fn left_shoulder(self) -> bool {
        self.l || self.trigger_left > TRIGGER_THRESHOLD
    }

    /// Whether the right shoulder is pressed: its button is down or its
    /// trigger is pulled beyond the threshold.
    pub open spec fn right_shoulder(self) -> bool {
        self.r || self.trigger_right > TRIGGER_THRESHOLD
    }

    /// Horizontal displacement of the C-stick when it is read as buttons.
    pub open spec fn c_stick_x(self) -> int {
        axis_with_deadzone(self.substick_x, C_STICK_DEADZONE)
    }

    /// Vertical displacement of the C-stick when it is read as buttons.
    pub open spec fn c_stick_y(self) -> int {
        axis_with_deadzone(self.substick_y, C_STICK_DEADZONE)
    }
}

/// Whether `state` presses `button` under `mapping`: at least one input that
/// the mapping sends to the button is active.
pub open spec fn presses(
    state: ControllerState,
    mapping: ControllerMapping,
    button: N64Button,
) -> bool {
    ||| state.a && mapping.a == button
    ||| state.b && mapping.b == button
    ||| state.x && mapping.x == button
    ||| state.y && mapping.y == button
    ||| state.start && mapping.start == button
    ||| state.z && mapping.z == button
    ||| state.left_shoulder() && mapping.l == button
    ||| state.right_shoulder() && mapping.r == button
    ||| state.left && mapping.d_pad_left == button
    ||| state.right && mapping.d_pad_right == button
    ||| state.down && mapping.d_pad_down == button
    ||| state.up && mapping.d_pad_up == button
    ||| state.c_stick_x() < 0 && mapping.c_stick_left == button
    ||| state.c_stick_x() > 0 && mapping.c_stick_right == button
    ||| state.c_stick_y() < 0 && mapping.c_stick_down == button
    ||| state.c_stick_y() > 0 && mapping.c_stick_up == button
}

/// What `button` adds to the key word: its pattern where it is pressed,
/// nothing where it is not.
pub open spec fn key_bit(pressed: bool, button: N64Button) -> int {
    if pressed {
        button.pattern() as int
    } else {
        0
    }
}

/// The key word of `state` under `mapping`: the sum of the patterns of the
/// buttons that the state presses.
pub open spec fn key_word(state: ControllerState, mapping: ControllerMapping) -> int {
    key_bit(presses(state, mapping, N64Button::DPadRight), N64Button::DPadRight)
        + key_bit(presses(state, mapping, N64Button::DPadLeft), N64Button::DPadLeft)
        + key_bit(presses(state, mapping, N64Button::DPadDown), N64Button::DPadDown)
        + key_bit(presses(state, mapping, N64Button::DPadUp), N64Button::DPadUp)
        + key_bit(presses(state, mapping, N64Button::Start), N64Button::Start)
        + key_bit(presses(state, mapping, N64Button::Z), N64Button::Z)
        + key_bit(presses(state, mapping, N64Button::B), N64Button::B)
        + key_bit(presses(state, mapping, N64Button::A), N64Button::A)
        + key_bit(presses(state, mapping, N64Button::CRight), N64Button::CRight)
        + key_bit(presses(state, mapping, N64Button::CLeft), N64Button::CLeft)
        + key_bit(presses(state, mapping, N64Button::CDown), N64Button::CDown)
        + key_bit(presses(state, mapping, N64Button::CUp), N64Button::CUp)
        + key_bit(presses(state, mapping, N64Button::R), N64Button::R)
        + key_bit(presses(state, mapping, N64Button::L), N64Button::L)
}

/// What the host is handed for the controller at position `control`: the key
/// word of its state, or nothing where the position names no channel or no
/// controller is plugged into it.
pub open spec fn host_keys(
    snapshot: AdapterState,
    control: int,
    mapping: ControllerMapping,
) -> Option<int> {
    match Channel::resolve(control) {
        Some(channel) => if snapshot.controller(channel).connected() {
            Some(key_word(snapshot.controller(channel), mapping))
        } else {
            None
        },
        None => None,
    }
}

proof fn lemma_set_fresh_bit(word: u32)
    by (bit_vector)
    ensures
        word < 0x0001 ==> word | 0x0001 == word + 0x0001,
        word < 0x0002 ==> word | 0x0002 == word + 0x0002,
        word < 0x0004 ==> word | 0x0004 == word + 0x0004,
        word < 0x0008 ==> word | 0x0008 == word + 0x0008,
        word < 0x0010 ==> word | 0x0010 == word + 0x0010,
        word < 0x0020 ==> word | 0x0020 == word + 0x0020,
        word < 0x0040 ==> word | 0x0040 == word + 0x0040,
        word < 0x0080 ==> word | 0x0080 == word + 0x0080,
        word < 0x0100 ==> word | 0x0100 == word + 0x0100,
        word < 0x0200 ==> word | 0x0200 == word + 0x0200,
        word < 0x0400 ==> word | 0x0400 == word + 0x0400,
        word < 0x0800 ==> word | 0x0800 == word + 0x0800,
        word < 0x1000 ==> word | 0x1000 == word + 0x1000,
        word < 0x2000 ==> word | 0x2000 == word + 0x2000,
{
}

/// Whether `state` presses `button` under `mapping`, given the C-stick as it
/// is read for buttons.
fn is_pressed(
    state: &ControllerState,
    mapping: &ControllerMapping,
    c_stick: (i8, i8),
    button: N64Button,
) -> (pressed: bool)
    requires
        c_stick.0 == state.c_stick_x(),
        c_stick.1 == state.c_stick_y(),
    ensures
        pressed == presses(*state, *mapping, button),
{
    state.a && mapping.a == button || state.b && mapping.b == button || state.x && mapping.x
        == button || state.y && mapping.y == button || state.start && mapping.start == button
        || state.z && mapping.z == button || (state.l || state.trigger_left > TRIGGER_THRESHOLD)
        && mapping.l == button || (state.r || state.trigger_right > TRIGGER_THRESHOLD)
        && mapping.r == button || state.left && mapping.d_pad_left == button || state.right
        && mapping.d_pad_right == button || state.down && mapping.d_pad_down == button
        || state.up && mapping.d_pad_up == button || c_stick.0 < 0 && mapping.c_stick_left
        == button || c_stick.0 > 0 && mapping.c_stick_right == button || c_stick.1 < 0
        && mapping.c_stick_down == button || c_stick.1 > 0 && mapping.c_stick_up == button
}

/// Sets the bit of `button` in a key word that holds lower bits only.
fn with_key(word: u32, pressed: bool, button: N64Button) -> (next: u32)
    requires
        word < button.pattern(),
    ensures
        next == word + key_bit(pressed, button),
        next < 2 * button.pattern(),
{
    proof {
        lemma_set_fresh_bit(word);
    }
    if pressed {
        word | button.bit_pattern()
    } else {
        word
    }
}

/// Puts together the key word in which exactly the given buttons are pressed.
fn assemble(
    d_pad_right: bool,
    d_pad_left: bool,
    d_pad_down: bool,
    d_pad_up: bool,
    start: bool,
    z: bool,
    b: bool,
    a: bool,
    c_right: bool,
    c_left: bool,
    c_down: bool,
    c_up: bool,
    r: bool,
    l: bool,
) -> (word: u32)
    ensures
        word == key_bit(d_pad_right, N64Button::DPadRight)
            + key_bit(d_pad_left, N64Button::DPadLeft)
            + key_bit(d_pad_down, N64Button::DPadDown)
            + key_bit(d_pad_up, N64Button::DPadUp)
            + key_bit(start, N64Button::Start)
            + key_bit(z, N64Button::Z)
            + key_bit(b, N64Button::B)
            + key_bit(a, N64Button::A)
            + key_bit(c_right, N64Button::CRight)
            + key_bit(c_left, N64Button::CLeft)
            + key_bit(c_down, N64Button::CDown)
            + key_bit(c_up, N64Button::CUp)
            + key_bit(r, N64Button::R)
            + key_bit(l, N64Button::L),
        word < 0x4000,
{
    let mut word: u32 = 0;
    word = with_key(word, d_pad_right, N64Button::DPadRight);
    word = with_key(word, d_pad_left, N64Button::DPadLeft);
    word = with_key(word, d_pad_down, N64Button::DPadDown);
    word = with_key(word, d_pad_up, N64Button::DPadUp);
    word = with_key(word, start, N64Button::Start);
    word = with_key(word, z, N64Button::Z);
    word = with_key(word, b, N64Button::B);
    word = with_key(word, a, N64Button::A);
    word = with_key(word, c_right, N64Button::CRight);
    word = with_key(word, c_left, N64Button::CLeft);
    word = with_key(word, c_down, N64Button::CDown);
    word = with_key(word, c_up, N64Button::CUp);
    word = with_key(word, r, N64Button::R);
    word = with_key(word, l, N64Button::L);
    word
}

/// The key word of `state` under `mapping`.
pub fn keys(state: &ControllerState, mapping: &ControllerMapping) -> (word: u32)
    ensures
        word == key_word(*state, *mapping),
        word < 0x4000,
{
    let c: (i8, i8) = state.substick_with_deadzone(C_STICK_DEADZONE);
    let d_pad_right: bool = is_pressed(state, mapping, c, N64Button::DPadRight);
    let d_pad_left: bool = is_pressed(state, mapping, c, N64Button::DPadLeft);
    let d_pad_down: bool = is_pressed(state, mapping, c, N64Button::DPadDown);
    let d_pad_up: bool = is_pressed(state, mapping, c, N64Button::DPadUp);
    let start: bool = is_pressed(state, mapping, c, N64Button::Start);
    let z: bool = is_pressed(state, mapping, c, N64Button::Z);
    let b: bool = is_pressed(state, mapping, c, N64Button::B);
    let a: bool = is_pressed(state, mapping, c, N64Button::A);
    let c_right: bool = is_pressed(state, mapping, c, N64Button::CRight);
    let c_left: bool = is_pressed(state, mapping, c, N64Button::CLeft);
    let c_down: bool = is_pressed(state, mapping, c, N64Button::CDown);
    let c_up: bool = is_pressed(state, mapping, c, N64Button::CUp);
    let r: bool = is_pressed(state, mapping, c, N64Button::R);
    let l: bool = is_pressed(state, mapping, c, N64Button::L);
    assemble(
        d_pad_right,
        d_pad_left,
        d_pad_down,
        d_pad_up,
        start,
        z,
        b,
        a,
        c_right,
        c_left,
        c_down,
        c_up,
        r,
        l,
    )
}

/// Answers the host's request for the keys of the controller at position
/// `control`. Positions outside `0..=3` and slots without a controller yield
/// nothing, and the host's key word is then to be left as it is.
pub fn read_from_adapter(
    snapshot: &AdapterState,
    control: i32,
    mapping: &ControllerMapping,
) -> (word: Option<u32>)
    ensures
        word is Some <==> host_keys(*snapshot, control as int, *mapping) is Some,
        word matches Some(w) ==> host_keys(*snapshot, control as int, *mapping) == Some(w as int),
{
    match Channel::try_from(control) {
        Ok(channel) => {
            let state: ControllerState = snapshot.controller_state(channel);
            if state.is_connected() {
                Some(keys(&state, mapping))
            } else {
                None
            }
        },
        Err(_) => None,
    }
}

/// Under the standard mapping the key word follows a fixed table: every N64
/// button is pressed by the inputs listed for it here and by no others.
pub proof fn lemma_standard_table(state: ControllerState)
    ensures
        presses(state, ControllerMapping::standard(), N64Button::A) == state.a,
        presses(state, ControllerMapping::standard(), N64Button::B) == state.b,
        presses(state, ControllerMapping::standard(), N64Button::Start) == state.start,
        presses(state, ControllerMapping::standard(), N64Button::Z) == state.left_shoulder(),
        presses(state, ControllerMapping::standard(), N64Button::L) == state.z,
        presses(state, ControllerMapping::standard(), N64Button::R) == state.right_shoulder(),
        presses(state, ControllerMapping::standard(), N64Button::DPadLeft) == state.left,
        presses(state, ControllerMapping::standard(), N64Button::DPadRight) == state.right,
        presses(state, ControllerMapping::standard(), N64Button::DPadDown) == state.down,
        presses(state, ControllerMapping::standard(), N64Button::DPadUp) == state.up,
        presses(state, ControllerMapping::standard(), N64Button::CLeft) == (state.y
            || state.c_stick_x() < 0),
        presses(state, ControllerMapping::standard(), N64Button::CRight) == (state.x
            || state.c_stick_x() > 0),
        presses(state, ControllerMapping::standard(), N64Button::CDown) == (state.c_stick_y()
            < 0),
        presses(state, ControllerMapping::standard(), N64Button::CUp) == (state.c_stick_y() > 0),
{
}

} // verus!
