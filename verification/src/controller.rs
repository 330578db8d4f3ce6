//! The state of one controller as the adapter reports it, and the decoding of
//! the nine bytes that carry it.

use vstd::prelude::*;
use vstd::std_specs::convert::FromSpecImpl;

verus! {

/// Number of bytes one controller occupies in a report.
pub const CONTROLLER_LEN: usize = 9;

/// Offset of the status byte within a controller's bytes.
pub const OFFSET_STATUS: usize = 0;

/// Offset of the first button byte (face buttons and directional pad).
pub const OFFSET_BUTTONS_1: usize = 1;

/// Offset of the second button byte (start and the shoulder buttons).
pub const OFFSET_BUTTONS_2: usize = 2;

/// Offset of the control stick's horizontal axis.
pub const OFFSET_STICK_X: usize = 3;

/// Offset of the control stick's vertical axis.
pub const OFFSET_STICK_Y: usize = 4;

/// Offset of the C-stick's horizontal axis.
pub const OFFSET_SUBSTICK_X: usize = 5;

/// Offset of the C-stick's vertical axis.
pub const OFFSET_SUBSTICK_Y: usize = 6;

/// Offset of the left analog trigger.
pub const OFFSET_TRIGGER_LEFT: usize = 7;

/// Offset of the right analog trigger.
pub const OFFSET_TRIGGER_RIGHT: usize = 8;

/// Bits of the first button byte, least significant bit first.
pub const MASK_A: u8 = 0x01;

pub const MASK_B: u8 = 0x02;

pub const MASK_X: u8 = 0x04;

pub const MASK_Y: u8 = 0x08;

pub const MASK_LEFT: u8 = 0x10;

pub const MASK_RIGHT: u8 = 0x20;

pub const MASK_DOWN: u8 = 0x40;

pub const MASK_UP: u8 = 0x80;

/// Bits of the second button byte; its upper four bits are reserved.
pub const MASK_START: u8 = 0x01;

pub const MASK_Z: u8 = 0x02;

pub const MASK_R: u8 = 0x04;

pub const MASK_L: u8 = 0x08;

/// Whether `byte` has the bit of weight `weight` set, for a weight that is a
/// power of two: the quotient by the weight is odd.
pub open spec fn has_bit(byte: u8, weight: u8) -> bool {
    (byte as int / weight as int) % 2 == 1
}

/// Whether `weight` is the weight of one of the eight bits of a byte.
pub open spec fn is_bit_weight(weight: u8) -> bool {
    weight == 0x01 || weight == 0x02 || weight == 0x04 || weight == 0x08 || weight == 0x10
        || weight == 0x20 || weight == 0x40 || weight == 0x80
}

proof fn lemma_masked_bits(byte: u8)
    by (bit_vector)
    ensures
        (byte & 0x01 != 0) == ((byte / 0x01) % 2 == 1),
        (byte & 0x02 != 0) == ((byte / 0x02) % 2 == 1),
        (byte & 0x04 != 0) == ((byte / 0x04) % 2 == 1),
        (byte & 0x08 != 0) == ((byte / 0x08) % 2 == 1),
        (byte & 0x10 != 0) == ((byte / 0x10) % 2 == 1),
        (byte & 0x20 != 0) == ((byte / 0x20) % 2 == 1),
        (byte & 0x40 != 0) == ((byte / 0x40) % 2 == 1),
        (byte & 0x80 != 0) == ((byte / 0x80) % 2 == 1),
        (byte & 0xF0 != 0) == (byte / 0x10 != 0),
{
}

/// Tests one bit of a button byte.
fn test_bit(byte: u8, weight: u8) -> (set: bool)
    requires
        is_bit_weight(weight),
    ensures
        set == has_bit(byte, weight),
{
    proof {
        lemma_masked_bits(byte);
    }
    byte & weight != 0
}

/// Everything the adapter reports about one controller.
#[derive(Debug, Copy, Clone, PartialEq, Eq, Structural)]
pub struct ControllerState {
    pub status: u8,
    pub a: bool,
    pub b: bool,
    pub x: bool,
    pub y: bool,
    pub left: bool,
    pub right: bool,
    pub down: bool,
    pub up: bool,
    pub start: bool,
    pub z: bool,
    pub r: bool,
    pub l: bool,
    pub stick_x: u8,
    pub stick_y: u8,
    pub substick_x: u8,
    pub substick_y: u8,
    pub trigger_left: u8,
    pub trigger_right: u8,
}

impl ControllerState {
    /// The state of an empty slot: status zero, nothing pressed, every axis zero.
    pub open spec fn zeroed() -> ControllerState {
        ControllerState {
            status: 0,
            a: false,
            b: false,
            x: false,
            y: false,
            left: false,
            right: false,
            down: false,
            up: false,
            start: false,
            z: false,
            r: false,
            l: false,
            stick_x: 0,
            stick_y: 0,
            substick_x: 0,
            substick_y: 0,
            trigger_left: 0,
            trigger_right: 0,
        }
    }

    /// What the first nine bytes of `bytes` say about a controller.
    pub open spec fn decode_bytes(bytes: Seq<u8>) -> ControllerState
        recommends
            bytes.len() >= CONTROLLER_LEN,
    {
        ControllerState {
            status: bytes[OFFSET_STATUS as int],
            a: has_bit(bytes[OFFSET_BUTTONS_1 as int], MASK_A),
            b: has_bit(bytes[OFFSET_BUTTONS_1 as int], MASK_B),
            x: has_bit(bytes[OFFSET_BUTTONS_1 as int], MASK_X),
            y: has_bit(bytes[OFFSET_BUTTONS_1 as int], MASK_Y),
            left: has_bit(bytes[OFFSET_BUTTONS_1 as int], MASK_LEFT),
            right: has_bit(bytes[OFFSET_BUTTONS_1 as int], MASK_RIGHT),
            down: has_bit(bytes[OFFSET_BUTTONS_1 as int], MASK_DOWN),
            up: has_bit(bytes[OFFSET_BUTTONS_1 as int], MASK_UP),
            start: has_bit(bytes[OFFSET_BUTTONS_2 as int], MASK_START),
            z: has_bit(bytes[OFFSET_BUTTONS_2 as int], MASK_Z),
            r: has_bit(bytes[OFFSET_BUTTONS_2 as int], MASK_R),
            l: has_bit(bytes[OFFSET_BUTTONS_2 as int], MASK_L),
            stick_x: bytes[OFFSET_STICK_X as int],
            stick_y: bytes[OFFSET_STICK_Y as int],
            substick_x: bytes[OFFSET_SUBSTICK_X as int],
            substick_y: bytes[OFFSET_SUBSTICK_Y as int],
            trigger_left: bytes[OFFSET_TRIGGER_LEFT as int],
            trigger_right: bytes[OFFSET_TRIGGER_RIGHT as int],
        }
    }

    /// The controller that `bytes` describe: the decoding of their first nine
    /// bytes, or the empty slot where fewer than nine are given.
    pub open spec fn decode(bytes: Seq<u8>) -> ControllerState {
        if bytes.len() >= CONTROLLER_LEN {
            Self::decode_bytes(bytes)
        } else {
            Self::zeroed()
        }
    }

    /// Whether a controller is plugged into the slot: the upper four bits of
    /// the status byte are not all zero.
    pub open spec fn connected(self) -> bool {
        self.status as int / 0x10 != 0
    }

    /// The state of an empty slot.
    pub fn new() -> (state: Self)
        ensures
            state == Self::zeroed(),
            !state.connected(),
    {
        ControllerState {
            status: 0,
            a: false,
            b: false,
            x: false,
            y: false,
            left: false,
            right: false,
            down: false,
            up: false,
            start: false,
            z: false,
            r: false,
            l: false,
            stick_x: 0,
            stick_y: 0,
            substick_x: 0,
            substick_y: 0,
            trigger_left: 0,
            trigger_right: 0,
        }
    }

    /// Whether a button is down or the control stick is pushed more than
    /// halfway along one of its axes.
    pub open spec fn any_input(self) -> bool {
        self.a || self.b || self.x || self.y || self.start || self.left || self.right || self.down
            || self.up || self.l || self.r || self.z || self.stick_x < 64 || self.stick_x > 192
            || self.stick_y < 64 || self.stick_y > 192
    }

    /// Whether a button is down or the control stick is pushed more than
    /// halfway along one of its axes.
    pub fn any(&self) -> (active: bool)
        ensures
            active == self.any_input(),
    {
        self.a || self.b || self.x || self.y || self.start || self.left || self.right || self.down
            || self.up || self.l || self.r || self.z || self.stick_x < 64 || self.stick_x > 192
            || self.stick_y < 64 || self.stick_y > 192
    }

    /// Whether a controller is plugged into the slot.
    pub fn is_connected(&self) -> (connected: bool)
        ensures
            connected == self.connected(),
    {
        proof {
            lemma_masked_bits(self.status);
        }
        self.status & 0xF0 != 0
    }
}

impl Default for ControllerState {
    fn default() -> (state: Self)
        ensures
            state == ControllerState::zeroed(),
    {
        ControllerState::new()
    }
}

impl<'a> From<&'a [u8]> for ControllerState {
    /// Decodes the first nine bytes of `bytes`. A shorter slice yields the
    /// empty slot.
    fn from(bytes: &'a [u8]) -> (state: Self)
        ensures
            state == ControllerState::decode(bytes@),
    {
        if bytes.len() < CONTROLLER_LEN {
            return ControllerState::new();
        }
        let b1: u8 = bytes[OFFSET_BUTTONS_1];
        let b2: u8 = bytes[OFFSET_BUTTONS_2];
        ControllerState {
            status: bytes[OFFSET_STATUS],
            a: test_bit(b1, MASK_A),
            b: test_bit(b1, MASK_B),
            x: test_bit(b1, MASK_X),
            y: test_bit(b1, MASK_Y),
            left: test_bit(b1, MASK_LEFT),
            right: test_bit(b1, MASK_RIGHT),
            down: test_bit(b1, MASK_DOWN),
            up: test_bit(b1, MASK_UP),
            start: test_bit(b2, MASK_START),
            z: test_bit(b2, MASK_Z),
            r: test_bit(b2, MASK_R),
            l: test_bit(b2, MASK_L),
            stick_x: bytes[OFFSET_STICK_X],
            stick_y: bytes[OFFSET_STICK_Y],
            substick_x: bytes[OFFSET_SUBSTICK_X],
            substick_y: bytes[OFFSET_SUBSTICK_Y],
            trigger_left: bytes[OFFSET_TRIGGER_LEFT],
            trigger_right: bytes[OFFSET_TRIGGER_RIGHT],
        }
    }
}

impl<'a> FromSpecImpl<&'a [u8]> for ControllerState {
    open spec fn obeys_from_spec() -> bool {
        true
    }

    open spec fn from_spec(bytes: &'a [u8]) -> Self {
        ControllerState::decode(bytes@)
    }
}

} // verus!
