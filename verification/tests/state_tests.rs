use sphrosyne::buttons::{self, X360Buttons};
use sphrosyne::state::{X360NotificationData, X360State};

#[test]
fn button_bits_are_wire_exact() {
    assert_eq!(buttons::DPAD_UP, 0x0001);
    assert_eq!(buttons::DPAD_DOWN, 0x0002);
    assert_eq!(buttons::DPAD_LEFT, 0x0004);
    assert_eq!(buttons::DPAD_RIGHT, 0x0008);
    assert_eq!(buttons::START, 0x0010);
    assert_eq!(buttons::BACK, 0x0020);
    assert_eq!(buttons::LEFT_THUMB, 0x0040);
    assert_eq!(buttons::RIGHT_THUMB, 0x0080);
    assert_eq!(buttons::LEFT_SHOULDER, 0x0100);
    assert_eq!(buttons::RIGHT_SHOULDER, 0x0200);
    assert_eq!(buttons::A, 0x1000);
    assert_eq!(buttons::B, 0x2000);
    assert_eq!(buttons::X, 0x4000);
    assert_eq!(buttons::Y, 0x8000);
    assert_eq!(buttons::ALL_BUTTONS, 0xF3FF);
}

#[test]
fn from_bits_accepts_every_named_mask() {
    assert_eq!(X360Buttons::from_bits(0).unwrap().bits(), 0);
    assert_eq!(X360Buttons::from_bits(buttons::A).unwrap().bits(), 0x1000);
    let mask = buttons::DPAD_UP | buttons::START | buttons::Y;
    assert_eq!(X360Buttons::from_bits(mask).unwrap().bits(), mask);
    assert_eq!(X360Buttons::from_bits(0xF3FF).unwrap().bits(), 0xF3FF);
}

#[test]
fn from_bits_rejects_unknown_bits() {
    // 0x0400 and 0x0800 name no button.
    assert!(X360Buttons::from_bits(0x0400).is_none());
    assert!(X360Buttons::from_bits(0x0800).is_none());
    assert!(X360Buttons::from_bits(0xFFFF).is_none());
    assert!(X360Buttons::from_bits(0x1001 | 0x0400).is_none());
}

#[test]
fn buttons_contains_checks_the_mask() {
    let b = X360Buttons::from_bits(buttons::A | buttons::B).unwrap();
    assert!(b.contains(buttons::A));
    assert!(b.contains(buttons::A | buttons::B));
    assert!(!b.contains(buttons::X));
    assert!(!b.contains(buttons::A | buttons::X));
}

#[test]
fn report_translation_is_field_exact() {
    let state = X360State {
        buttons: X360Buttons::from_bits(buttons::A | buttons::DPAD_LEFT).unwrap(),
        left_trigger: 17,
        right_trigger: 255,
        left_thumbstick: (-32768, 32767),
        right_thumbstick: (1000, -1000),
    };
    let report = state.to_xusb_report();
    assert_eq!(report.w_buttons, 0x1004);
    assert_eq!(report.b_left_trigger, 17);
    assert_eq!(report.b_right_trigger, 255);
    assert_eq!(report.s_thumb_lx, -32768);
    assert_eq!(report.s_thumb_ly, 32767);
    assert_eq!(report.s_thumb_rx, 1000);
    assert_eq!(report.s_thumb_ry, -1000);
}

#[test]
fn default_state_translates_to_the_neutral_report() {
    let report = X360State::default().to_xusb_report();
    assert_eq!(report.w_buttons, 0);
    assert_eq!(report.b_left_trigger, 0);
    assert_eq!(report.b_right_trigger, 0);
    assert_eq!(report.s_thumb_lx, 0);
    assert_eq!(report.s_thumb_ly, 0);
    assert_eq!(report.s_thumb_rx, 0);
    assert_eq!(report.s_thumb_ry, 0);
}

#[test]
fn from_wire_mirrors_the_decoder() {
    let state = X360State::from_wire(0x1000, 1, 2, (3, 4), (5, 6)).unwrap();
    assert_eq!(state.buttons.bits(), 0x1000);
    assert_eq!(state.left_trigger, 1);
    assert_eq!(state.right_trigger, 2);
    assert_eq!(state.left_thumbstick, (3, 4));
    assert_eq!(state.right_thumbstick, (5, 6));
    assert!(X360State::from_wire(0x0400, 0, 0, (0, 0), (0, 0)).is_none());
}

#[test]
fn notification_event_carries_the_raw_fields() {
    let event = X360NotificationData::from_raw(100, 200, 3);
    assert_eq!(event.large_motor, 100);
    assert_eq!(event.small_motor, 200);
    assert_eq!(event.led_number, 3);
}
