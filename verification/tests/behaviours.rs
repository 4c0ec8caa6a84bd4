use rotary_library::{
    ButtonBehaviour, ButtonDefaultState, ButtonState, HoldAction, HoodButton1, HoodButton2,
    PushButton, RotaryButton,
};

#[test]
fn rotary_button_rules() {
    assert!(!RotaryButton::emit_select_on_hold());
    assert!(matches!(RotaryButton::on_hold(0), HoldAction::EmitAndWaitRelease));
    assert!(RotaryButton::emit_select_on_release(false));
    assert!(RotaryButton::emit_select_on_release(true));
    assert_eq!(RotaryButton::repeat_threshold_millis(500), 500);
}

#[test]
fn push_button_rules() {
    assert!(!PushButton::emit_select_on_hold());
    assert!(matches!(PushButton::on_hold(7), HoldAction::EmitAndWaitRelease));
    assert!(PushButton::emit_select_on_release(false));
    assert!(PushButton::emit_select_on_release(true));
    assert_eq!(PushButton::repeat_threshold_millis(0), 0);
}

#[test]
fn hood_button_1_rules() {
    assert!(!HoodButton1::emit_select_on_hold());
    assert!(matches!(HoodButton1::on_hold(3), HoldAction::EmitAndReset));
    assert!(HoodButton1::emit_select_on_release(false));
    assert!(!HoodButton1::emit_select_on_release(true));
    assert_eq!(HoodButton1::repeat_threshold_millis(500), 166);
    assert_eq!(HoodButton1::repeat_threshold_millis(3), 1);
    assert_eq!(HoodButton1::repeat_threshold_millis(2), 1);
    assert_eq!(HoodButton1::repeat_threshold_millis(0), 1);
}

#[test]
fn hood_button_2_rules() {
    assert!(HoodButton2::emit_select_on_hold());
    assert!(matches!(HoodButton2::on_hold(0), HoldAction::EmitAndReset));
    assert!(HoodButton2::emit_select_on_release(false));
    assert!(!HoodButton2::emit_select_on_release(true));
    assert_eq!(HoodButton2::repeat_threshold_millis(500), 100);
    assert_eq!(HoodButton2::repeat_threshold_millis(4), 1);
    assert_eq!(HoodButton2::repeat_threshold_millis(u16::MAX), 13107);
}

#[test]
fn defaults() {
    assert!(ButtonState::default() == ButtonState::Idle);
    assert!(matches!(ButtonDefaultState::default(), ButtonDefaultState::PulledUp));
}

#[test]
fn marker_types_compare_equal() {
    assert!(RotaryButton == RotaryButton);
    assert!(HoodButton1 == HoodButton1);
    assert!(HoodButton2 == HoodButton2);
    assert!(PushButton == PushButton);
}
