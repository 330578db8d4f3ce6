use mupen64plus_input_gca::activity::{any, C_DEADZONE, CONTROL_DEADZONE, CONTROL_SENSITIVITY};
use mupen64plus_input_gca::controller::ControllerState;
use mupen64plus_input_gca::stick::{recenter, suppress_axis, StickScaling, STICK_SCALE};

fn at_rest() -> ControllerState {
    ControllerState {
        status: 0x10,
        stick_x: 128,
        stick_y: 128,
        substick_x: 128,
        substick_y: 128,
        ..ControllerState::new()
    }
}

fn with_stick(x: u8, y: u8) -> ControllerState {
    ControllerState { stick_x: x, stick_y: y, ..at_rest() }
}

fn with_substick(x: u8, y: u8) -> ControllerState {
    ControllerState { substick_x: x, substick_y: y, ..at_rest() }
}

/// The rescaling that a `StickScaling` asks for, carried out in floating point.
fn rescale(scaling: Option<StickScaling>) -> (i8, i8) {
    match scaling {
        None => (0, 0),
        Some(s) => {
            let x = s.x as f32;
            let y = s.y as f32;
            let radius = (x * x + y * y).sqrt();
            let angle = y.atan2(x);
            let radius = s.numerator as f32 * (radius - s.deadzone as f32) / s.divisor as f32;
            ((radius * angle.cos()).round() as i8, (radius * angle.sin()).round() as i8)
        }
    }
}

#[test]
fn recenter_moves_the_bias_to_zero() {
    assert_eq!(recenter(0), -128);
    assert_eq!(recenter(1), -127);
    assert_eq!(recenter(127), -1);
    assert_eq!(recenter(128), 0);
    assert_eq!(recenter(129), 1);
    assert_eq!(recenter(255), 127);
    for raw in 0..=255u8 {
        assert_eq!(recenter(raw), raw.wrapping_add(128) as i8);
        assert_eq!(recenter(raw) as i32, raw as i32 - 128);
    }
}

#[test]
fn axis_inside_deadzone_is_zero() {
    assert_eq!(suppress_axis(128, 40), 0);
    assert_eq!(suppress_axis(128 + 39, 40), 0);
    assert_eq!(suppress_axis(128 + 40, 40), 40);
    assert_eq!(suppress_axis(128 - 39, 40), 0);
    assert_eq!(suppress_axis(128 - 40, 40), -40);
    assert_eq!(suppress_axis(255, 40), 127);
    assert_eq!(suppress_axis(0, 40), -128);
    assert_eq!(suppress_axis(0, 128), -128);
    assert_eq!(suppress_axis(0, 129), 0);
    assert_eq!(suppress_axis(0, 255), 0);
    assert_eq!(suppress_axis(255, 127), 127);
    assert_eq!(suppress_axis(255, 128), 0);
    assert_eq!(suppress_axis(128, 0), 0);
    assert_eq!(suppress_axis(129, 0), 1);
    assert_eq!(suppress_axis(129, 1), 1);
    assert_eq!(suppress_axis(129, 2), 0);
}

#[test]
fn substick_axes_are_suppressed_one_by_one() {
    assert_eq!(with_substick(128, 128).substick_with_deadzone(30), (0, 0));
    assert_eq!(with_substick(200, 128).substick_with_deadzone(30), (72, 0));
    assert_eq!(with_substick(128, 28).substick_with_deadzone(30), (0, -100));
    // Per axis, not radial: both axes just under the threshold stay suppressed
    // although the point lies outside the circle of that radius.
    assert_eq!(with_substick(128 + 29, 128 + 29).substick_with_deadzone(30), (0, 0));
    assert_eq!(with_substick(128 + 30, 128 + 29).substick_with_deadzone(30), (30, 0));
    assert_eq!(with_substick(128 + 29, 128 - 30).substick_with_deadzone(30), (0, -30));
    assert_eq!(with_substick(0, 255).substick_with_deadzone(0), (-128, 127));
}

#[test]
fn substick_agrees_with_the_wrapping_form() {
    for deadzone in [0u8, 1, 15, 40, 127, 128, 200, 255] {
        for raw in 0..=255u8 {
            let centred = raw.wrapping_add(128) as i8;
            let expected = if centred.unsigned_abs() < deadzone { 0 } else { centred };
            let state = with_substick(raw, 255 - raw);
            assert_eq!(state.substick_with_deadzone(deadzone).0, expected);
            assert_eq!(suppress_axis(raw, deadzone), expected);
        }
    }
}

#[test]
fn conditioning_starts_from_the_raw_state_every_time() {
    let state = with_substick(170, 90);
    assert_eq!(state.substick_with_deadzone(40), state.substick_with_deadzone(40));
    let tilted = with_stick(170, 90);
    assert_eq!(tilted.stick_with_deadzone(15, 100), tilted.stick_with_deadzone(15, 100));
}

#[test]
fn stick_inside_the_deadzone_is_suppressed() {
    assert_eq!(at_rest().stick_with_deadzone(0, 100), None);
    assert_eq!(at_rest().stick_with_deadzone(15, 100), None);
    // (9, 12) lies at distance 15, on the rim.
    assert_eq!(with_stick(128 + 9, 128 + 12).stick_with_deadzone(15, 100), None);
    assert_eq!(with_stick(128 - 9, 128 - 12).stick_with_deadzone(15, 100), None);
    assert_eq!(with_stick(128 + 15, 128).stick_with_deadzone(15, 0), None);
    assert_eq!(with_stick(128, 128 - 15).stick_with_deadzone(15, 255), None);
    // (10, 12) lies just outside.
    assert!(with_stick(128 + 10, 128 + 12).stick_with_deadzone(15, 100).is_some());
    assert!(with_stick(128 + 16, 128).stick_with_deadzone(15, 100).is_some());
    assert!(with_stick(129, 128).stick_with_deadzone(0, 100).is_some());
    // The far corner lies at distance 181: a deadzone of 181 lets it through,
    // one of 182 does not.
    assert!(with_stick(0, 0).stick_with_deadzone(181, 100).is_some());
    assert_eq!(with_stick(0, 0).stick_with_deadzone(182, 100), None);
    assert_eq!(with_stick(0, 0).stick_with_deadzone(255, 100), None);
}

#[test]
fn suppression_is_decided_by_the_squared_radius() {
    for deadzone in [0u8, 1, 15, 40, 100, 127, 181, 182, 255] {
        for x in (0..=255u8).step_by(3) {
            for y in (0..=255u8).step_by(5) {
                let dx = x as i32 - 128;
                let dy = y as i32 - 128;
                let inside = dx * dx + dy * dy <= (deadzone as i32) * (deadzone as i32);
                let radius = ((dx * dx + dy * dy) as f32).sqrt();
                assert_eq!(inside, radius <= deadzone as f32);
                let scaling = with_stick(x, y).stick_with_deadzone(deadzone, 100);
                assert_eq!(scaling.is_none(), inside);
                if inside {
                    assert_eq!(rescale(scaling), (0, 0));
                }
            }
        }
    }
}

#[test]
fn scaling_holds_the_point_and_the_factor() {
    let scaling = with_stick(255, 128).stick_with_deadzone(15, 100);
    assert_eq!(
        scaling,
        Some(StickScaling { x: 127, y: 0, deadzone: 15, numerator: 8000, divisor: 155 * 112 })
    );
    let scaling = with_stick(0, 200).stick_with_deadzone(40, 0);
    assert_eq!(
        scaling,
        Some(StickScaling { x: -128, y: 72, deadzone: 40, numerator: 8000, divisor: 255 * 87 })
    );
    assert_eq!(STICK_SCALE, 8000);
    // No travel left, or the sensitivity at its maximum: the divisor is zero.
    assert_eq!(with_stick(0, 0).stick_with_deadzone(127, 100).unwrap().divisor, 0);
    assert_eq!(with_stick(255, 128).stick_with_deadzone(15, 255).unwrap().divisor, 0);
    // A deadzone beyond the travel: the divisor is negative.
    assert_eq!(with_stick(0, 0).stick_with_deadzone(128, 254).unwrap().divisor, -1);
    assert_eq!(with_stick(0, 0).stick_with_deadzone(181, 0).unwrap().divisor, 255 * -54);
}

#[test]
fn rescaled_stick_has_the_expected_values() {
    // Full deflection to the right: 8000 * (127 - 15) / (155 * 112) = 51.6.
    assert_eq!(rescale(with_stick(255, 128).stick_with_deadzone(15, 100)), (52, 0));
    // Full deflection to the left: 8000 * (128 - 15) / (155 * 112) = 52.1.
    assert_eq!(rescale(with_stick(0, 128).stick_with_deadzone(15, 100)), (-52, 0));
    // Straight up: 8000 * (100 - 40) / (155 * 87) = 35.6.
    assert_eq!(rescale(with_stick(128, 228).stick_with_deadzone(40, 100)), (0, 36));
    // Along the diagonal (60, 80) at distance 100: radius 35.6, split 3 : 4.
    assert_eq!(rescale(with_stick(188, 208).stick_with_deadzone(40, 100)), (21, 28));
    // Just outside the deadzone the output still rounds to zero.
    assert_eq!(rescale(with_stick(128 + 16, 128).stick_with_deadzone(15, 100)), (0, 0));
}

#[test]
fn higher_sensitivity_gives_a_smaller_divisor() {
    for deadzone in [0u8, 15, 40, 126] {
        let mut previous = i32::MAX;
        for sensitivity in 0..=255u8 {
            let scaling = with_stick(255, 255).stick_with_deadzone(deadzone, sensitivity).unwrap();
            assert!(scaling.divisor <= previous);
            assert_eq!(scaling.divisor > 0, sensitivity < 255);
            previous = scaling.divisor;
        }
    }
}

#[test]
fn higher_sensitivity_does_not_shrink_the_output() {
    for (x, y) in [(255u8, 128u8), (200, 60), (0, 0), (128, 255), (150, 140)] {
        let mut previous = 0i32;
        for sensitivity in 0..255u8 {
            let (ox, oy) = rescale(with_stick(x, y).stick_with_deadzone(15, sensitivity));
            let radius = (ox as i32) * (ox as i32) + (oy as i32) * (oy as i32);
            assert!(radius >= previous, "sensitivity {sensitivity}");
            previous = radius;
        }
    }
}

#[test]
fn idle_controller_shows_no_input() {
    assert!(!any(at_rest(), (0, 0)));
    assert!(!any(ControllerState { trigger_left: 168, trigger_right: 168, ..at_rest() }, (0, 0)));
    assert!(!any(with_substick(128 + 14, 128 - 14), (0, 0)));
}

#[test]
fn every_kind_of_input_is_seen() {
    let rest = at_rest();
    assert!(any(ControllerState { a: true, ..rest }, (0, 0)));
    assert!(any(ControllerState { b: true, ..rest }, (0, 0)));
    assert!(any(ControllerState { x: true, ..rest }, (0, 0)));
    assert!(any(ControllerState { y: true, ..rest }, (0, 0)));
    assert!(any(ControllerState { start: true, ..rest }, (0, 0)));
    assert!(any(ControllerState { left: true, ..rest }, (0, 0)));
    assert!(any(ControllerState { right: true, ..rest }, (0, 0)));
    assert!(any(ControllerState { down: true, ..rest }, (0, 0)));
    assert!(any(ControllerState { up: true, ..rest }, (0, 0)));
    assert!(any(ControllerState { l: true, ..rest }, (0, 0)));
    assert!(any(ControllerState { r: true, ..rest }, (0, 0)));
    assert!(any(ControllerState { z: true, ..rest }, (0, 0)));
    assert!(any(ControllerState { trigger_left: 169, ..rest }, (0, 0)));
    assert!(any(ControllerState { trigger_right: 169, ..rest }, (0, 0)));
    assert!(any(rest, (1, 0)));
    assert!(any(rest, (0, -1)));
    assert!(any(with_substick(128 + 15, 128), (0, 0)));
    assert!(any(with_substick(128, 128 - 15), (0, 0)));
    assert_eq!(C_DEADZONE, 15);
}

#[test]
fn watched_stick_is_conditioned_before_it_counts() {
    let state = with_stick(128 + 10, 128);
    let stick = rescale(state.stick_with_deadzone(CONTROL_DEADZONE, CONTROL_SENSITIVITY));
    assert_eq!(stick, (0, 0));
    assert!(!any(state, stick));
    let state = with_stick(128 + 60, 128);
    let stick = rescale(state.stick_with_deadzone(CONTROL_DEADZONE, CONTROL_SENSITIVITY));
    assert_eq!(stick, (21, 0));
    assert!(any(state, stick));
}
