//! Conditioning of the two analog sticks: recentring of the raw axes,
//! suppression inside a deadzone, and the factors by which the control stick
//! is rescaled outside it.

use vstd::prelude::*;

use crate::controller::ControllerState;

verus! {

/// Raw value that an axis reports at rest.
pub const STICK_CENTER: u8 = 128;

/// Largest displacement of a recentred axis.
pub const STICK_MAX: i32 = 127;

/// Numerator of the rescaling factor of the control stick.
pub const STICK_SCALE: i32 = 8000;

/// Largest sensitivity a caller can ask for.
pub const SENSITIVITY_MAX: i32 = 255;

/// Displacement of a raw axis value from the centre, in `-128..=127`.
pub open spec fn centered(raw: u8) -> int {
    raw as int - STICK_CENTER as int
}

/// Absolute value of a displacement.
pub open spec fn magnitude(displacement: int) -> int {
    if displacement < 0 {
        -displacement
    } else {
        displacement
    }
}

/// A raw axis value after recentring and per-axis suppression: zero where the
/// displacement is smaller than `deadzone`, the displacement itself elsewhere.
pub open spec fn axis_with_deadzone(raw: u8, deadzone: u8) -> int {
    if magnitude(centered(raw)) < deadzone {
        0
    } else {
        centered(raw)
    }
}

/// Square of the distance of the point `(x, y)` from the centre.
pub open spec fn radius_squared(x: int, y: int) -> int {
    x * x + y * y
}

/// Whether the point `(x, y)` lies within the circle of radius `deadzone`
/// around the centre, its rim included.
pub open spec fn within_deadzone(x: int, y: int, deadzone: u8) -> bool {
    radius_squared(x, y) <= deadzone as int * deadzone as int
}

/// Denominator of the rescaling factor of the control stick: the inverted
/// sensitivity times the travel that the deadzone leaves.
pub open spec fn scaling_divisor(deadzone: u8, sensitivity: u8) -> int {
    (SENSITIVITY_MAX - sensitivity) * (STICK_MAX - deadzone)
}

/// Recentres a raw axis value.
pub fn recenter(raw: u8) -> (displacement: i8)
    ensures
        displacement == centered(raw),
{
    let wide: i16 = raw as i16 - STICK_CENTER as i16;
    wide as i8
}

/// Recentres a raw axis value and suppresses it inside a per-axis deadzone.
pub fn suppress_axis(raw: u8, deadzone: u8) -> (displacement: i8)
    ensures
        displacement == axis_with_deadzone(raw, deadzone),
{
    let value: i8 = recenter(raw);
    let size: i16 = if value < 0 {
        -(value as i16)
    } else {
        value as i16
    };
    if size < deadzone as i16 {
        0
    } else {
        value
    }
}

/// What remains to be done with a control stick that lies outside its
/// deadzone: the point `(x, y)` at distance `r` from the centre moves along its
/// own direction to the distance `numerator * (r - deadzone) / divisor`.
#[derive(Debug, Copy, Clone, PartialEq, Eq, Structural)]
pub struct StickScaling {
    /// Horizontal displacement from the centre.
    pub x: i8,
    /// Vertical displacement from the centre.
    pub y: i8,
    /// Radius of the deadzone that the point lies outside of.
    pub deadzone: u8,
    /// Numerator of the rescaling factor.
    pub numerator: i32,
    /// Denominator of the rescaling factor; zero or negative where the
    /// sensitivity is at its maximum or the deadzone leaves no travel.
    pub divisor: i32,
}

impl ControllerState {
    /// Whether the control stick lies within the circular deadzone of radius
    /// `deadzone`.
    pub open spec fn stick_suppressed(self, deadzone: u8) -> bool {
        within_deadzone(centered(self.stick_x), centered(self.stick_y), deadzone)
    }

    /// Conditions the control stick as far as whole numbers go. Inside the
    /// circular deadzone the stick is suppressed: the result is `None`, which
    /// stands for the output `(0, 0)`. Outside it the result holds the
    /// recentred point and the factor by which its distance is rescaled; a
    /// higher `sensitivity` gives a smaller divisor.
    pub fn stick_with_deadzone(&self, deadzone: u8, sensitivity: u8) -> (scaling: Option<
        StickScaling,
    >)
        ensures
            scaling is None <==> self.stick_suppressed(deadzone),
            scaling matches Some(s) ==> {
                &&& s.x == centered(self.stick_x)
                &&& s.y == centered(self.stick_y)
                &&& s.deadzone == deadzone
                &&& s.numerator == STICK_SCALE
                &&& s.divisor == scaling_divisor(deadzone, sensitivity)
            },
    {
        let x: i8 = recenter(self.stick_x);
        let y: i8 = recenter(self.stick_y);
        let wide_x: i32 = x as i32;
        let wide_y: i32 = y as i32;
        let wide_deadzone: i32 = deadzone as i32;
        assert(0 <= wide_x * wide_x <= 16384) by (nonlinear_arith)
            requires
                -128 <= wide_x <= 127,
        ;
        assert(0 <= wide_y * wide_y <= 16384) by (nonlinear_arith)
            requires
                -128 <= wide_y <= 127,
        ;
        assert(0 <= wide_deadzone * wide_deadzone <= 65025) by (nonlinear_arith)
            requires
                0 <= wide_deadzone <= 255,
        ;
        if wide_x * wide_x + wide_y * wide_y <= wide_deadzone * wide_deadzone {
            return None;
        }
        let inverted: i32 = SENSITIVITY_MAX - sensitivity as i32;
        let travel: i32 = STICK_MAX - wide_deadzone;
        assert(-32640 <= inverted * travel <= 32385) by (nonlinear_arith)
            requires
                0 <= inverted <= 255,
                -128 <= travel <= 127,
        ;
        Some(
            StickScaling {
                x,
                y,
                deadzone,
                numerator: STICK_SCALE,
                divisor: inverted * travel,
            },
        )
    }

    /// Conditions the C-stick: each axis is recentred and, on its own, set to
    /// zero where its displacement is smaller than `deadzone`.
    pub fn substick_with_deadzone(&self, deadzone: u8) -> (displacement: (i8, i8))
        ensures
            displacement.0 == axis_with_deadzone(self.substick_x, deadzone),
            displacement.1 == axis_with_deadzone(self.substick_y, deadzone),
    {
        (suppress_axis(self.substick_x, deadzone), suppress_axis(self.substick_y, deadzone))
    }
}

/// A stick at rest is suppressed by every deadzone, and a deadzone of zero
/// suppresses nothing but the stick at rest.
pub proof fn lemma_center_is_suppressed(state: ControllerState, deadzone: u8)
    ensures
        state.stick_x == STICK_CENTER && state.stick_y == STICK_CENTER ==> state.stick_suppressed(
            deadzone,
        ),
        state.stick_suppressed(0) ==> state.stick_x == STICK_CENTER && state.stick_y
            == STICK_CENTER,
{
    let x = centered(state.stick_x);
    let y = centered(state.stick_y);
    assert(deadzone as int * deadzone as int >= 0) by (nonlinear_arith);
    assert(x * x >= 0 && (x != 0 ==> x * x > 0)) by (nonlinear_arith);
    assert(y * y >= 0 && (y != 0 ==> y * y > 0)) by (nonlinear_arith);
}

/// Suppression grows with the deadzone: a stick that one deadzone suppresses
/// is suppressed by every larger one.
pub proof fn lemma_suppression_grows_with_deadzone(
    state: ControllerState,
    smaller: u8,
    larger: u8,
)
    requires
        smaller <= larger,
        state.stick_suppressed(smaller),
    ensures
        state.stick_suppressed(larger),
{
    assert(smaller as int * smaller as int <= larger as int * larger as int)
        by (nonlinear_arith)
        requires
            0 <= smaller <= larger,
    ;
}

/// Wherever the deadzone leaves travel, the divisor of the rescaling factor is
/// positive below the maximal sensitivity and does not grow with the
/// sensitivity, so that the factor `STICK_SCALE / divisor` does not shrink.
pub proof fn lemma_divisor_falls_with_sensitivity(deadzone: u8, lower: u8, higher: u8)
    requires
        deadzone < STICK_MAX,
        lower <= higher,
    ensures
        scaling_divisor(deadzone, higher) <= scaling_divisor(deadzone, lower),
        higher < SENSITIVITY_MAX ==> 0 < scaling_divisor(deadzone, higher),
{
    let travel = STICK_MAX - deadzone;
    assert((SENSITIVITY_MAX - higher) * travel <= (SENSITIVITY_MAX - lower) * travel)
        by (nonlinear_arith)
        requires
            travel > 0,
            lower <= higher,
    ;
    assert(higher < SENSITIVITY_MAX ==> 0 < (SENSITIVITY_MAX - higher) * travel)
        by (nonlinear_arith)
        requires
            travel > 0,
    ;
}

} // verus!
