use mupen64plus_input_gca::adapter::{
    controller_at, offset_of, AdapterState, Channel, ControllerState, READ_LEN,
};
use mupen64plus_input_gca::gca::InputState;

const FIXTURE: [u8; READ_LEN] = [
    0x0, 0x1, 0b10010110, 0b11110110, 0x5, 0x6, 0x7, 0x8, 0x9, 0xA, 0x2, 0b10010110, 0b11110110,
    0x5, 0x6, 0x7, 0x8, 0x9, 0xA, 0x3, 0b10010110, 0b11110110, 0x5, 0x6, 0x7, 0x8, 0x9, 0xA, 0x4,
    0b10010110, 0b11110110, 0x5, 0x6, 0x7, 0x8, 0x9, 0xA,
];

fn expected_controller(status: u8) -> ControllerState {
    ControllerState {
        status,
        a: false,
        b: true,
        x: true,
        y: false,
        left: true,
        right: false,
        down: false,
        up: true,
        start: false,
        z: true,
        r: true,
        l: false,
        stick_x: 0x5,
        stick_y: 0x6,
        substick_x: 0x7,
        substick_y: 0x8,
        trigger_left: 0x9,
        trigger_right: 0xA,
    }
}

#[test]
fn test_adapter_state() {
    let data: [u8; READ_LEN] = [
        0x0, 0x1, 0b10010110, 0b11110110, 0x5, 0x6, 0x7, 0x8, 0x9, 0xA, 0x2, 0b10010110,
        0b11110110, 0x5, 0x6, 0x7, 0x8, 0x9, 0xA, 0x3, 0b10010110, 0b11110110, 0x5, 0x6, 0x7,
        0x8, 0x9, 0xA, 0x4, 0b10010110, 0b11110110, 0x5, 0x6, 0x7, 0x8, 0x9, 0xA,
    ];
    let state = AdapterState::from(data);
    assert_eq!(0x1, state.controller_0.status);
    assert!(!state.controller_0.a);
    assert!(state.controller_0.b);
    assert!(state.controller_0.x);
    assert!(!state.controller_0.y);
    assert!(state.controller_0.up);
    assert!(!state.controller_0.down);
    assert!(!state.controller_0.right);
    assert!(state.controller_0.left);
    assert!(!state.controller_0.start);
    assert!(state.controller_0.z);
    assert!(state.controller_0.r);
    assert!(!state.controller_0.l);
    assert_eq!(0x2, state.controller_1.status);
    assert_eq!(0x3, state.controller_2.status);
    assert_eq!(0x4, state.controller_3.status);
}

#[test]
fn fixture_decodes_every_field_of_every_channel() {
    let state = AdapterState::from(FIXTURE);
    assert_eq!(state.controller_0, expected_controller(0x1));
    assert_eq!(state.controller_1, expected_controller(0x2));
    assert_eq!(state.controller_2, expected_controller(0x3));
    assert_eq!(state.controller_3, expected_controller(0x4));
    assert_eq!(state.controller_state(Channel::One), expected_controller(0x1));
    assert_eq!(state.controller_state(Channel::Two), expected_controller(0x2));
    assert_eq!(state.controller_state(Channel::Three), expected_controller(0x3));
    assert_eq!(state.controller_state(Channel::Four), expected_controller(0x4));
}

#[test]
fn each_button_has_its_own_bit() {
    let decode = |b1: u8, b2: u8| {
        ControllerState::from(&[0x10, b1, b2, 128, 128, 128, 128, 0, 0][..])
    };
    let none = decode(0, 0);
    assert!(!none.any());
    assert!(decode(0x01, 0).a);
    assert!(decode(0x02, 0).b);
    assert!(decode(0x04, 0).x);
    assert!(decode(0x08, 0).y);
    assert!(decode(0x10, 0).left);
    assert!(decode(0x20, 0).right);
    assert!(decode(0x40, 0).down);
    assert!(decode(0x80, 0).up);
    assert!(decode(0, 0x01).start);
    assert!(decode(0, 0x02).z);
    assert!(decode(0, 0x04).r);
    assert!(decode(0, 0x08).l);
    assert_eq!(decode(0x01, 0), ControllerState { a: true, ..none });
    assert_eq!(decode(0x80, 0), ControllerState { up: true, ..none });
    assert_eq!(decode(0, 0x08), ControllerState { l: true, ..none });
    // The upper four bits of the second byte are reserved.
    assert_eq!(decode(0, 0xF0), none);
}

#[test]
fn short_input_decodes_to_empty_slot() {
    assert_eq!(ControllerState::from(&[][..]), ControllerState::new());
    assert_eq!(
        ControllerState::from(&[0x10, 0xFF, 0xFF, 1, 2, 3, 4, 5][..]),
        ControllerState::new()
    );
    let nine = ControllerState::from(&[0x10, 0xFF, 0x0F, 1, 2, 3, 4, 5, 6][..]);
    assert_eq!(nine.status, 0x10);
    assert_eq!(nine.trigger_right, 6);
    // Bytes behind the ninth are not read.
    assert_eq!(ControllerState::from(&[0x10, 0xFF, 0x0F, 1, 2, 3, 4, 5, 6, 7, 8][..]), nine);
}

#[test]
fn short_report_leaves_missing_channels_empty() {
    let state = AdapterState::from_slice(&FIXTURE[..19]);
    assert_eq!(state.controller_0, expected_controller(0x1));
    assert_eq!(state.controller_1, expected_controller(0x2));
    assert_eq!(state.controller_2, ControllerState::new());
    assert_eq!(state.controller_3, ControllerState::new());
    assert_eq!(AdapterState::from_slice(&FIXTURE[..18]).controller_1, ControllerState::new());
    assert_eq!(AdapterState::from_slice(&[]), AdapterState::new());
    assert_eq!(AdapterState::from_slice(&FIXTURE), AdapterState::from(FIXTURE));
}

#[test]
fn channels_are_nine_bytes_apart() {
    assert_eq!(offset_of(Channel::One), 1);
    assert_eq!(offset_of(Channel::Two), 10);
    assert_eq!(offset_of(Channel::Three), 19);
    assert_eq!(offset_of(Channel::Four), 28);
    assert_eq!(offset_of(Channel::Four) + 9, READ_LEN);
}

#[test]
fn a_channel_reads_its_own_bytes_only() {
    let channels = [Channel::One, Channel::Two, Channel::Three, Channel::Four];
    let reference = AdapterState::from(FIXTURE);
    for position in 0..READ_LEN {
        let mut report = FIXTURE;
        report[position] ^= 0xFF;
        let changed = AdapterState::from(report);
        for channel in channels {
            let start = offset_of(channel);
            let owned = start <= position && position < start + 9;
            let same = changed.controller_state(channel) == reference.controller_state(channel);
            if owned {
                // Only the reserved bits of the second button byte go unread.
                assert!(!same, "position {position}");
            } else {
                assert!(same, "position {position}");
            }
        }
    }
}

#[test]
fn header_byte_is_not_read() {
    let mut report = FIXTURE;
    report[0] = 0xFF;
    assert_eq!(AdapterState::from(report), AdapterState::from(FIXTURE));
}

#[test]
fn connection_follows_the_upper_status_bits() {
    for status in 0..=255u8 {
        let state = ControllerState { status, ..ControllerState::new() };
        assert_eq!(state.is_connected(), status & 0xF0 != 0, "status {status:#x}");
    }
    let mut report = [0u8; READ_LEN];
    assert!(!AdapterState::from(report).any_connected());
    report[19] = 0x20;
    let state = AdapterState::from(report);
    assert!(state.any_connected());
    assert!(state.controller_2.is_connected());
    assert!(!state.controller_0.is_connected());
    // The fixture's status bytes have their upper four bits clear.
    assert!(!AdapterState::from(FIXTURE).any_connected());
}

#[test]
fn new_snapshot_is_all_zero() {
    let state = AdapterState::new();
    assert_eq!(state, AdapterState::from([0u8; READ_LEN]));
    assert_eq!(state, AdapterState::default());
    assert_eq!(state.controller_0, ControllerState::default());
    assert!(!state.any_connected());
    assert_eq!(state.controller_3.stick_x, 0);
    assert!(!state.controller_3.a);
}

#[test]
fn raw_report_decodes_like_the_snapshot() {
    let raw = InputState::new(FIXTURE);
    let snapshot = AdapterState::from(FIXTURE);
    for channel in [Channel::One, Channel::Two, Channel::Three, Channel::Four] {
        assert_eq!(raw.controller_state(channel), snapshot.controller_state(channel));
        assert_eq!(raw.controller_state(channel), controller_at(&FIXTURE, channel));
        assert_eq!(raw.is_connected(channel), snapshot.controller_state(channel).is_connected());
    }
    let mut report = FIXTURE;
    report[10] = 0x14;
    let raw = InputState::new(report);
    assert!(raw.is_connected(Channel::Two));
    assert!(!raw.is_connected(Channel::One));
}

#[test]
fn empty_report_has_no_controllers() {
    let raw = InputState::empty();
    for channel in [Channel::One, Channel::Two, Channel::Three, Channel::Four] {
        assert!(!raw.is_connected(channel));
        assert_eq!(raw.controller_state(channel), ControllerState::new());
    }
}

#[test]
fn half_pushed_stick_counts_as_input() {
    let rest = ControllerState { stick_x: 128, stick_y: 128, ..ControllerState::new() };
    assert!(!rest.any());
    assert!(!ControllerState { stick_x: 64, ..rest }.any());
    assert!(ControllerState { stick_x: 63, ..rest }.any());
    assert!(!ControllerState { stick_x: 192, ..rest }.any());
    assert!(ControllerState { stick_x: 193, ..rest }.any());
    assert!(ControllerState { stick_y: 63, ..rest }.any());
    assert!(ControllerState { stick_y: 193, ..rest }.any());
    assert!(ControllerState { z: true, ..rest }.any());
    // The all-zero state has both axes at zero, far from the centre.
    assert!(ControllerState::new().any());
}
