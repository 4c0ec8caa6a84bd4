use rotary_library::{InputEvent, InputSource, RotaryEncoder};

const LOW: Result<bool, ()> = Ok(true);
const HIGH: Result<bool, ()> = Ok(false);

/// The quadrature cycle from both lines high, as (clk, dt).
const CYCLE: [(bool, bool); 4] = [(true, false), (true, true), (false, true), (false, false)];

fn turn(encoder: &mut RotaryEncoder, lines: (bool, bool)) {
    encoder.update(HIGH, Ok::<bool, ()>(lines.0), Ok::<bool, ()>(lines.1));
}

fn click_forward(encoder: &mut RotaryEncoder) {
    for lines in CYCLE {
        turn(encoder, lines);
    }
}

fn click_back(encoder: &mut RotaryEncoder) {
    for lines in [(false, true), (true, true), (true, false), (false, false)] {
        turn(encoder, lines);
    }
}

fn press(encoder: &mut RotaryEncoder, reading: Result<bool, ()>, times: usize) {
    for _ in 0..times {
        encoder.update(reading, HIGH, HIGH);
    }
}

/// Debounce 4, long press 50, refresh 2.
fn encoder(reset_time: u16, multi_step: u8, inverted: bool) -> RotaryEncoder {
    RotaryEncoder::new(HIGH, HIGH, 4, 50, 2, reset_time, multi_step, inverted)
}

fn poll(encoder: &mut RotaryEncoder) -> InputEvent {
    assert!(encoder.can_poll());
    encoder.poll()
}

#[test]
fn click_forward_is_up_and_back_is_down() {
    let mut e = encoder(50, 3, false);
    click_forward(&mut e);
    assert_eq!(poll(&mut e), InputEvent::Up);
    assert_eq!(poll(&mut e), InputEvent::NoEvent);
    click_back(&mut e);
    assert_eq!(poll(&mut e), InputEvent::Down);
    assert_eq!(poll(&mut e), InputEvent::NoEvent);
}

#[test]
fn a_click_takes_four_steps() {
    let mut e = encoder(50, 3, false);
    for lines in CYCLE.iter().take(3) {
        turn(&mut e, *lines);
        assert_eq!(poll(&mut e), InputEvent::NoEvent);
    }
    turn(&mut e, CYCLE[3]);
    assert_eq!(poll(&mut e), InputEvent::Up);
}

#[test]
fn every_single_step_counts_by_its_direction() {
    let order = [(false, false), (true, false), (true, true), (false, true)];
    for from in 0..4 {
        for to in 0..4 {
            // Bring the accumulator to 3, at the levels `from`, then take the step.
            let mut e = RotaryEncoder::new(
                Ok::<bool, ()>(order[(from + 1) % 4].0),
                Ok::<bool, ()>(order[(from + 1) % 4].1),
                4, 50, 2, 50, 3, false,
            );
            turn(&mut e, order[(from + 2) % 4]);
            turn(&mut e, order[(from + 3) % 4]);
            turn(&mut e, order[from]);
            turn(&mut e, order[to]);
            let expected = if (4 + to - from) % 4 == 1 {
                InputEvent::Up
            } else {
                InputEvent::NoEvent
            };
            assert_eq!(poll(&mut e), expected);
        }
    }
}

#[test]
fn bounce_cancels_out() {
    let mut e = encoder(50, 3, false);
    for _ in 0..1000 {
        turn(&mut e, (true, false));
        turn(&mut e, (false, false));
    }
    assert_eq!(poll(&mut e), InputEvent::NoEvent);
    click_forward(&mut e);
    assert_eq!(poll(&mut e), InputEvent::Up);
}

#[test]
fn skipped_place_counts_nothing() {
    let mut e = encoder(50, 3, false);
    for _ in 0..10 {
        turn(&mut e, (true, true));
        turn(&mut e, (false, false));
    }
    assert_eq!(poll(&mut e), InputEvent::NoEvent);
}

#[test]
fn crossed_wires_turn_the_other_way() {
    let mut e = encoder(50, 3, false);
    for (clk, dt) in CYCLE {
        turn(&mut e, (dt, clk));
    }
    assert_eq!(poll(&mut e), InputEvent::Down);
}

#[test]
fn initial_levels_are_the_starting_point() {
    let mut e = RotaryEncoder::new(LOW, LOW, 4, 50, 2, 50, 3, false);
    turn(&mut e, (false, true));
    turn(&mut e, (false, false));
    turn(&mut e, (true, false));
    assert_eq!(poll(&mut e), InputEvent::NoEvent);
    turn(&mut e, (true, true));
    assert_eq!(poll(&mut e), InputEvent::Up);
}

#[test]
fn unreadable_line_counts_as_high() {
    let mut e = RotaryEncoder::new(Err::<bool, u8>(1), Err::<bool, u8>(2), 4, 50, 2, 50, 3, false);
    turn(&mut e, (true, false));
    turn(&mut e, (true, true));
    e.update(HIGH, Err::<bool, u8>(1), LOW);
    e.update(HIGH, HIGH, Err::<bool, u8>(2));
    assert_eq!(poll(&mut e), InputEvent::Up);
}

#[test]
fn accumulator_stops_at_its_range() {
    let mut e = encoder(50, 3, false);
    for _ in 0..100 {
        click_forward(&mut e);
    }
    assert_eq!(poll(&mut e), InputEvent::Up);
    assert_eq!(poll(&mut e), InputEvent::NoEvent);
    for _ in 0..100 {
        click_back(&mut e);
    }
    // 128 steps down from zero; 33 clicks up bring it from -128 to 4.
    for _ in 0..33 {
        click_forward(&mut e);
    }
    assert_eq!(poll(&mut e), InputEvent::Up);
}

#[test]
fn positive_run_is_fast_beyond_the_threshold() {
    let mut e = encoder(50, 3, false);
    for _ in 0..3 {
        click_forward(&mut e);
        assert_eq!(poll(&mut e), InputEvent::Up);
    }
    for _ in 0..3 {
        click_forward(&mut e);
        assert_eq!(poll(&mut e), InputEvent::FastUp);
    }
}

#[test]
fn negative_run_is_fast_at_the_threshold() {
    let mut e = encoder(50, 3, false);
    for _ in 0..2 {
        click_back(&mut e);
        assert_eq!(poll(&mut e), InputEvent::Down);
    }
    for _ in 0..3 {
        click_back(&mut e);
        assert_eq!(poll(&mut e), InputEvent::FastDown);
    }
}

#[test]
fn change_of_direction_starts_a_new_run() {
    let mut e = encoder(50, 2, false);
    for expected in [InputEvent::Up, InputEvent::Up, InputEvent::FastUp] {
        click_forward(&mut e);
        assert_eq!(poll(&mut e), expected);
    }
    click_back(&mut e);
    assert_eq!(poll(&mut e), InputEvent::Down);
    click_forward(&mut e);
    assert_eq!(poll(&mut e), InputEvent::Up);
}

#[test]
fn inversion_mirrors_rotation() {
    let mut e = encoder(50, 1, true);
    click_forward(&mut e);
    assert_eq!(poll(&mut e), InputEvent::Down);
    click_forward(&mut e);
    assert_eq!(poll(&mut e), InputEvent::FastDown);
    let mut e = encoder(50, 2, true);
    click_back(&mut e);
    assert_eq!(poll(&mut e), InputEvent::Up);
    click_back(&mut e);
    assert_eq!(poll(&mut e), InputEvent::FastUp);
}

#[test]
fn pause_ends_the_run() {
    let mut e = encoder(5, 1, false);
    click_forward(&mut e);
    assert_eq!(poll(&mut e), InputEvent::Up);
    for _ in 0..5 {
        assert_eq!(poll(&mut e), InputEvent::NoEvent);
    }
    click_forward(&mut e);
    assert_eq!(poll(&mut e), InputEvent::FastUp);
    for _ in 0..6 {
        assert_eq!(poll(&mut e), InputEvent::NoEvent);
    }
    click_forward(&mut e);
    assert_eq!(poll(&mut e), InputEvent::Up);
}

#[test]
fn reset_time_counts_by_its_low_byte() {
    let mut e = encoder(256, 1, false);
    click_forward(&mut e);
    assert_eq!(poll(&mut e), InputEvent::Up);
    assert_eq!(poll(&mut e), InputEvent::NoEvent);
    click_forward(&mut e);
    assert_eq!(poll(&mut e), InputEvent::Up);
}

#[test]
fn run_never_ends_by_a_pause_at_the_largest_limit() {
    let mut e = encoder(255, 1, false);
    click_forward(&mut e);
    assert_eq!(poll(&mut e), InputEvent::Up);
    for _ in 0..1000 {
        assert_eq!(poll(&mut e), InputEvent::NoEvent);
    }
    click_forward(&mut e);
    assert_eq!(poll(&mut e), InputEvent::FastUp);
}

#[test]
fn button_of_the_encoder_selects_and_holds() {
    let mut e = encoder(50, 3, false);
    press(&mut e, LOW, 2);
    assert!(e.button_is_pressed());
    press(&mut e, HIGH, 4);
    assert!(!e.button_is_pressed());
    assert_eq!(poll(&mut e), InputEvent::Select);
    press(&mut e, LOW, 2 + 51);
    assert_eq!(poll(&mut e), InputEvent::SelectHold);
    press(&mut e, HIGH, 4);
    assert_eq!(poll(&mut e), InputEvent::Select);
    assert_eq!(poll(&mut e), InputEvent::NoEvent);
}

#[test]
fn rotation_comes_before_the_button() {
    let mut e = encoder(50, 3, false);
    press(&mut e, LOW, 2);
    press(&mut e, HIGH, 4);
    click_forward(&mut e);
    assert_eq!(poll(&mut e), InputEvent::Up);
    assert_eq!(poll(&mut e), InputEvent::Select);
    assert_eq!(poll(&mut e), InputEvent::NoEvent);
}

#[test]
fn button_event_ends_the_run() {
    let mut e = encoder(50, 1, false);
    click_forward(&mut e);
    assert_eq!(poll(&mut e), InputEvent::Up);
    press(&mut e, LOW, 2);
    press(&mut e, HIGH, 4);
    assert_eq!(poll(&mut e), InputEvent::Select);
    click_forward(&mut e);
    assert_eq!(poll(&mut e), InputEvent::Up);
}

#[test]
fn run_counter_runs_out() {
    let mut e = encoder(50, 3, false);
    for _ in 0..255 {
        click_forward(&mut e);
        poll(&mut e);
    }
    assert!(e.can_poll());
    click_forward(&mut e);
    assert!(!e.can_poll());
    let mut e = encoder(50, 3, false);
    for _ in 0..255 {
        click_back(&mut e);
        poll(&mut e);
    }
    click_back(&mut e);
    assert!(!e.can_poll());
}

#[test]
fn encoder_is_an_input_source() {
    let mut e = encoder(50, 3, false);
    click_forward(&mut e);
    let source: &mut dyn InputSource = &mut e;
    assert_eq!(source.poll(), InputEvent::Up);
    assert_eq!(source.poll(), InputEvent::NoEvent);
}

#[test]
fn no_step_is_missed_between_polls() {
    let mut e = encoder(50, 3, false);
    for _ in 0..31 {
        click_forward(&mut e);
    }
    for _ in 0..30 {
        click_back(&mut e);
    }
    assert_eq!(poll(&mut e), InputEvent::Up);
    for _ in 0..31 {
        click_forward(&mut e);
    }
    for _ in 0..31 {
        click_back(&mut e);
    }
    assert_eq!(poll(&mut e), InputEvent::NoEvent);
}

#[test]
fn rotation_does_not_disturb_the_button() {
    let mut e = encoder(50, 3, false);
    for i in 0..12 {
        let (clk, dt) = CYCLE[i % 4];
        let sw = if i < 6 { LOW } else { HIGH };
        e.update(sw, Ok::<bool, ()>(clk), Ok::<bool, ()>(dt));
        // Settled by the second low sample, released by the fourth high one.
        assert_eq!(e.button_is_pressed(), (1..9).contains(&i));
    }
    assert_eq!(poll(&mut e), InputEvent::Up);
    assert_eq!(poll(&mut e), InputEvent::Select);
}

#[test]
fn slow_click_is_reported_over_many_polls() {
    let mut e = encoder(50, 3, false);
    for lines in CYCLE {
        for _ in 0..60 {
            assert_eq!(poll(&mut e), InputEvent::NoEvent);
            turn(&mut e, lines);
            turn(&mut e, lines);
            if lines == (false, false) {
                break;
            }
        }
    }
    assert_eq!(poll(&mut e), InputEvent::Up);
}

#[test]
fn long_batch_with_few_steps_stays_in_range() {
    let mut e = encoder(50, 3, false);
    for _ in 0..200 {
        turn(&mut e, (false, false));
    }
    turn(&mut e, (true, false));
    assert_eq!(poll(&mut e), InputEvent::NoEvent);
    for lines in CYCLE.iter().skip(1) {
        turn(&mut e, *lines);
    }
    assert_eq!(poll(&mut e), InputEvent::Up);
}

#[test]
fn run_stays_ended_while_the_pause_goes_on() {
    let mut e = encoder(5, 1, false);
    click_forward(&mut e);
    assert_eq!(poll(&mut e), InputEvent::Up);
    for _ in 0..9 {
        assert_eq!(poll(&mut e), InputEvent::NoEvent);
    }
    click_forward(&mut e);
    assert_eq!(poll(&mut e), InputEvent::Up);
}

#[test]
fn polls_between_leave_the_button_alone() {
    let mut polled = encoder(50, 3, false);
    let mut unpolled = encoder(50, 3, false);
    for i in 0..100 {
        let reading = if i % 31 < 17 { LOW } else { HIGH };
        press(&mut polled, reading, 1);
        press(&mut unpolled, reading, 1);
        poll(&mut polled);
        assert_eq!(polled.button_is_pressed(), unpolled.button_is_pressed());
    }
}
