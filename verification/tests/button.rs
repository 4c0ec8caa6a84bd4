use rotary_library::{
    pin_is_low, Button, ButtonBehaviour, HoodButton1, HoodButton2, InputEvent, PushButton,
    RotaryButton,
};

const LOW: Result<bool, ()> = Ok(true);
const HIGH: Result<bool, ()> = Ok(false);

fn repeat<BB: ButtonBehaviour>(button: &mut Button<BB>, reading: Result<bool, ()>, times: usize) {
    for _ in 0..times {
        assert!(button.can_update(&reading));
        button.update(reading);
    }
}

/// Debounce 4, refresh 2: pressed after two low samples, released after four high ones.
fn button<BB: ButtonBehaviour>(long_press: u16) -> Button<BB> {
    Button::new(4, long_press, 2)
}

#[test]
fn unreadable_pin_counts_as_released() {
    assert!(!pin_is_low(&Err::<bool, &str>("bus fault")));
    assert!(pin_is_low(&LOW));
    assert!(!pin_is_low(&HIGH));
    let mut b = button::<RotaryButton>(10);
    repeat(&mut b, LOW, 2);
    assert!(b.is_pressed());
    for _ in 0..4 {
        b.update(Err::<bool, &str>("bus fault"));
    }
    assert!(!b.is_pressed());
}

#[test]
fn new_button_is_released_and_silent() {
    let mut b = button::<PushButton>(10);
    assert!(!b.is_pressed());
    assert_eq!(b.poll(), InputEvent::NoEvent);
    repeat(&mut b, HIGH, 100);
    assert!(!b.is_pressed());
    assert_eq!(b.poll(), InputEvent::NoEvent);
}

#[test]
fn press_settles_at_the_threshold() {
    let mut b: Button<PushButton> = Button::new(20, 500, 2);
    repeat(&mut b, LOW, 9);
    assert!(!b.is_pressed());
    repeat(&mut b, LOW, 1);
    assert!(b.is_pressed());
    repeat(&mut b, HIGH, 19);
    assert!(b.is_pressed());
    repeat(&mut b, HIGH, 1);
    assert!(!b.is_pressed());
}

#[test]
fn glitch_is_rejected() {
    let mut b: Button<PushButton> = Button::new(20, 500, 2);
    for _ in 0..3 {
        repeat(&mut b, LOW, 3);
        repeat(&mut b, HIGH, 1);
    }
    assert!(!b.is_pressed());
    repeat(&mut b, HIGH, 30);
    assert_eq!(b.poll(), InputEvent::NoEvent);
}

#[test]
fn dropout_is_rejected() {
    let mut b: Button<PushButton> = Button::new(20, 500, 2);
    repeat(&mut b, LOW, 10);
    repeat(&mut b, HIGH, 19);
    assert!(b.is_pressed());
    repeat(&mut b, LOW, 1);
    repeat(&mut b, HIGH, 2);
    assert!(b.is_pressed());
    assert_eq!(b.poll(), InputEvent::NoEvent);
}

#[test]
fn refresh_time_of_one_never_releases() {
    let mut b: Button<PushButton> = Button::new(3, 500, 1);
    repeat(&mut b, LOW, 3);
    assert!(b.is_pressed());
    repeat(&mut b, HIGH, 1000);
    assert!(b.is_pressed());
}

#[test]
fn zero_debounce_threshold_is_always_pressed() {
    let mut b: Button<PushButton> = Button::new(0, 500, 2);
    assert!(!b.is_pressed());
    repeat(&mut b, HIGH, 1);
    assert!(b.is_pressed());
}

#[test]
fn large_refresh_time_stops_at_the_threshold() {
    let mut b: Button<PushButton> = Button::new(u16::MAX, 500, u16::MAX);
    repeat(&mut b, LOW, 2);
    assert!(b.is_pressed());
    repeat(&mut b, HIGH, 2);
    assert!(b.is_pressed());
    repeat(&mut b, HIGH, 1);
    assert!(!b.is_pressed());
}

#[test]
fn short_press_selects_at_release() {
    let mut b = button::<RotaryButton>(50);
    repeat(&mut b, LOW, 6);
    assert_eq!(b.poll(), InputEvent::NoEvent);
    repeat(&mut b, HIGH, 3);
    assert_eq!(b.poll(), InputEvent::NoEvent);
    repeat(&mut b, HIGH, 1);
    assert_eq!(b.poll(), InputEvent::Select);
    assert_eq!(b.poll(), InputEvent::NoEvent);
    repeat(&mut b, HIGH, 50);
    assert_eq!(b.poll(), InputEvent::NoEvent);
}

#[test]
fn hold_fires_one_tick_after_the_threshold() {
    let mut b = button::<RotaryButton>(5);
    // The second sample settles the press and starts the count at 0.
    repeat(&mut b, LOW, 2);
    repeat(&mut b, LOW, 5);
    assert_eq!(b.poll(), InputEvent::NoEvent);
    repeat(&mut b, LOW, 1);
    assert_eq!(b.poll(), InputEvent::SelectHold);
}

#[test]
fn single_hold_waits_silently_and_selects_at_release() {
    let mut b = button::<PushButton>(5);
    repeat(&mut b, LOW, 8);
    assert_eq!(b.poll(), InputEvent::SelectHold);
    repeat(&mut b, LOW, 200);
    assert_eq!(b.poll(), InputEvent::NoEvent);
    repeat(&mut b, HIGH, 4);
    assert_eq!(b.poll(), InputEvent::Select);
}

#[test]
fn unpolled_hold_is_kept_over_the_release() {
    let mut b = button::<RotaryButton>(5);
    repeat(&mut b, LOW, 8);
    repeat(&mut b, HIGH, 4);
    assert_eq!(b.poll(), InputEvent::SelectHold);
    assert_eq!(b.poll(), InputEvent::NoEvent);
}

#[test]
fn hood_button_1_repeats_three_times_as_fast() {
    let mut b = button::<HoodButton1>(9);
    repeat(&mut b, LOW, 2 + 9);
    assert_eq!(b.poll(), InputEvent::NoEvent);
    repeat(&mut b, LOW, 1);
    assert_eq!(b.poll(), InputEvent::SelectHold);
    for _ in 0..5 {
        repeat(&mut b, LOW, 3);
        assert_eq!(b.poll(), InputEvent::NoEvent);
        repeat(&mut b, LOW, 1);
        assert_eq!(b.poll(), InputEvent::SelectHold);
    }
    repeat(&mut b, HIGH, 4);
    b.poll();
    repeat(&mut b, HIGH, 10);
    assert!(!b.is_pressed());
    assert_eq!(b.poll(), InputEvent::NoEvent);
}

#[test]
fn hood_button_1_swallows_the_release_after_a_hold() {
    let mut b = button::<HoodButton1>(300);
    repeat(&mut b, LOW, 2 + 301);
    assert_eq!(b.poll(), InputEvent::SelectHold);
    repeat(&mut b, HIGH, 10);
    assert!(!b.is_pressed());
    assert_eq!(b.poll(), InputEvent::NoEvent);
    // The next press starts afresh.
    repeat(&mut b, LOW, 5);
    repeat(&mut b, HIGH, 10);
    assert_eq!(b.poll(), InputEvent::Select);
}

#[test]
fn hood_button_2_selects_at_the_start_and_only_there() {
    let mut b = button::<HoodButton2>(50);
    repeat(&mut b, LOW, 2);
    assert_eq!(b.poll(), InputEvent::NoEvent);
    repeat(&mut b, LOW, 1);
    assert_eq!(b.poll(), InputEvent::Select);
    repeat(&mut b, LOW, 5);
    repeat(&mut b, HIGH, 10);
    assert!(!b.is_pressed());
    assert_eq!(b.poll(), InputEvent::NoEvent);
}

#[test]
fn hood_button_2_repeats_five_times_as_fast() {
    let mut b = button::<HoodButton2>(10);
    repeat(&mut b, LOW, 3);
    assert_eq!(b.poll(), InputEvent::Select);
    repeat(&mut b, LOW, 9);
    assert_eq!(b.poll(), InputEvent::NoEvent);
    repeat(&mut b, LOW, 1);
    assert_eq!(b.poll(), InputEvent::SelectHold);
    repeat(&mut b, LOW, 2);
    assert_eq!(b.poll(), InputEvent::NoEvent);
    repeat(&mut b, LOW, 1);
    assert_eq!(b.poll(), InputEvent::SelectHold);
}

#[test]
fn early_select_replaces_an_unpolled_hold() {
    let mut b = button::<HoodButton2>(3);
    repeat(&mut b, LOW, 3);
    assert_eq!(b.poll(), InputEvent::Select);
    repeat(&mut b, LOW, 5);
    repeat(&mut b, HIGH, 10);
    repeat(&mut b, LOW, 3);
    assert_eq!(b.poll(), InputEvent::Select);
    assert_eq!(b.poll(), InputEvent::NoEvent);
}

#[test]
fn polling_does_not_disturb_the_press() {
    let mut polled = button::<PushButton>(20);
    let mut unpolled = button::<PushButton>(20);
    for i in 0..60 {
        let reading = if i % 23 < 15 { LOW } else { HIGH };
        repeat(&mut polled, reading, 1);
        repeat(&mut unpolled, reading, 1);
        polled.poll();
        assert_eq!(polled.is_pressed(), unpolled.is_pressed());
    }
}

#[test]
fn hold_counter_runs_out() {
    let mut b: Button<HoodButton1> = Button::new(1, 0, 1);
    repeat(&mut b, LOW, 2);
    // One hold has fired; each further one takes two updates.
    repeat(&mut b, LOW, 2 * 65534);
    assert!(b.can_update(&LOW));
    b.update(LOW);
    assert!(!b.can_update(&LOW));
}

#[test]
fn single_hold_counter_never_runs_out() {
    let mut b: Button<RotaryButton> = Button::new(1, 0, 1);
    repeat(&mut b, LOW, 140_000);
    assert_eq!(b.poll(), InputEvent::SelectHold);
}

#[test]
fn press_and_release_within_the_threshold_selects() {
    // Two samples settle the press, four the release; the tick count may reach 10.
    let mut b = button::<RotaryButton>(10);
    repeat(&mut b, LOW, 2 + 7);
    repeat(&mut b, HIGH, 4 + 3);
    assert!(!b.is_pressed());
    assert_eq!(b.poll(), InputEvent::Select);
    // One more low sample and the hold fires first.
    let mut b = button::<RotaryButton>(10);
    repeat(&mut b, LOW, 2 + 8);
    repeat(&mut b, HIGH, 4 + 3);
    assert!(!b.is_pressed());
    assert_eq!(b.poll(), InputEvent::SelectHold);
}
