//! The mapping from the inputs of a GameCube controller to the buttons of an
//! N64 controller.

use vstd::prelude::*;

verus! {

/// A button of the N64 controller.
#[derive(Debug, Copy, Clone, PartialEq, Eq, Structural)]
pub enum N64Button {
    A,
    B,
    Start,
    Z,
    L,
    R,
    DPadLeft,
    DPadRight,
    DPadDown,
    DPadUp,
    CLeft,
    CRight,
    CDown,
    CUp,
}

impl N64Button {
    /// The bit that stands for the button in the key word handed to the host.
    pub open spec fn pattern(self) -> u32 {
        match self {
            N64Button::A => 0x0080,
            N64Button::B => 0x0040,
            N64Button::DPadLeft => 0x0002,
            N64Button::DPadRight => 0x0001,
            N64Button::DPadDown => 0x0004,
            N64Button::DPadUp => 0x0008,
            N64Button::Start => 0x0010,
            N64Button::Z => 0x0020,
            N64Button::R => 0x1000,
            N64Button::L => 0x2000,
            N64Button::CLeft => 0x0200,
            N64Button::CRight => 0x0100,
            N64Button::CDown => 0x0400,
            N64Button::CUp => 0x0800,
        }
    }

    /// Position of the button's bit in the key word, counted from the least
    /// significant bit.
    pub open spec fn bit_index(self) -> int {
        match self {
            N64Button::DPadRight => 0,
            N64Button::DPadLeft => 1,
            N64Button::DPadDown => 2,
            N64Button::DPadUp => 3,
            N64Button::Start => 4,
            N64Button::Z => 5,
            N64Button::B => 6,
            N64Button::A => 7,
            N64Button::CRight => 8,
            N64Button::CLeft => 9,
            N64Button::CDown => 10,
            N64Button::CUp => 11,
            N64Button::R => 12,
            N64Button::L => 13,
        }
    }

    /// The bit that stands for the button in the key word handed to the host.
    pub fn bit_pattern(&self) -> (pattern: u32)
        ensures
            pattern == self.pattern(),
    {
        match self {
            N64Button::A => 0x0080,
            N64Button::B => 0x0040,
            N64Button::DPadLeft => 0x0002,
            N64Button::DPadRight => 0x0001,
            N64Button::DPadDown => 0x0004,
            N64Button::DPadUp => 0x0008,
            N64Button::Start => 0x0010,
            N64Button::Z => 0x0020,
            N64Button::R => 0x1000,
            N64Button::L => 0x2000,
            N64Button::CLeft => 0x0200,
            N64Button::CRight => 0x0100,
            N64Button::CDown => 0x0400,
            N64Button::CUp => 0x0800,
        }
    }
}

/// Two to the power of `exponent`.
pub open spec fn power_of_two(exponent: int) -> int
    decreases exponent,
{
    if exponent <= 0 {
        1
    } else {
        2 * power_of_two(exponent - 1)
    }
}

/// Every button has one bit of its own among the lowest fourteen of the key
/// word: its pattern is two to the power of its bit index, and two buttons
/// with the same pattern are the same button.
pub proof fn lemma_patterns_are_distinct_bits(first: N64Button, second: N64Button)
    ensures
        0 <= first.bit_index() < 14,
        first.pattern() == power_of_two(first.bit_index()),
        first.pattern() == second.pattern() ==> first == second,
{
    reveal_with_fuel(power_of_two, 15);
}

/// Which N64 button each input of the GameCube controller presses.
#[derive(Debug, Copy, Clone, PartialEq, Eq, Structural)]
pub struct ControllerMapping {
    pub a: N64Button,
    pub b: N64Button,
    pub x: N64Button,
    pub y: N64Button,
    pub start: N64Button,
    pub z: N64Button,
    pub l: N64Button,
    pub r: N64Button,
    pub d_pad_left: N64Button,
    pub d_pad_right: N64Button,
    pub d_pad_down: N64Button,
    pub d_pad_up: N64Button,
    pub c_stick_left: N64Button,
    pub c_stick_right: N64Button,
    pub c_stick_down: N64Button,
    pub c_stick_up: N64Button,
}

impl ControllerMapping {
    /// The mapping in use where nothing else is configured.
    pub open spec fn standard() -> ControllerMapping {
        ControllerMapping {
            a: N64Button::A,
            b: N64Button::B,
            x: N64Button::CRight,
            y: N64Button::CLeft,
            start: N64Button::Start,
            z: N64Button::L,
            l: N64Button::Z,
            r: N64Button::R,
            d_pad_left: N64Button::DPadLeft,
            d_pad_right: N64Button::DPadRight,
            d_pad_down: N64Button::DPadDown,
            d_pad_up: N64Button::DPadUp,
            c_stick_left: N64Button::CLeft,
            c_stick_right: N64Button::CRight,
            c_stick_down: N64Button::CDown,
            c_stick_up: N64Button::CUp,
        }
    }
}

impl Default for ControllerMapping {
    fn default() -> (mapping: Self)
        ensures
            mapping == ControllerMapping::standard(),
    {
        ControllerMapping {
            a: N64Button::A,
            b: N64Button::B,
            x: N64Button::CRight,
            y: N64Button::CLeft,
            start: N64Button::Start,
            z: N64Button::L,
            l: N64Button::Z,
            r: N64Button::R,
            d_pad_left: N64Button::DPadLeft,
            d_pad_right: N64Button::DPadRight,
            d_pad_down: N64Button::DPadDown,
            d_pad_up: N64Button::DPadUp,
            c_stick_left: N64Button::CLeft,
            c_stick_right: N64Button::CRight,
            c_stick_down: N64Button::CDown,
            c_stick_up: N64Button::CUp,
        }
    }
}

/// The configuration of the input handling.
#[derive(Debug, Copy, Clone, PartialEq, Eq, Structural)]
pub struct Config {
    pub controller_mapping: ControllerMapping,
}

impl Default for Config {
    fn default() -> (config: Self)
        ensures
            config.controller_mapping == ControllerMapping::standard(),
    {
        Config { controller_mapping: ControllerMapping::default() }
    }
}

} // verus!
