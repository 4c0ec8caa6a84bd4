//! A quadrature rotary encoder with an integrated push-button.

use crate::behaviour::RotaryButton;
use crate::button::{pin_is_low, Button, ButtonView};
use crate::types::{InputEvent, InputSource, RotaryAccumulatorMode};
use vstd::prelude::*;

verus! {

/// Quadrature steps per mechanical click.
pub const STEPS_PER_CLICK: i8 = 4;

/// The change of position from one quadrature state to another, indexed by
/// `4 * from + to`. A state holds phase A in bit 1 and phase B in bit 0.
const QUAD_TABLE: [i8; 16] = [
    0, -1, 1, 0,
    1, 0, 0, -1,
    -1, 0, 0, 1,
    0, 1, -1, 0,
];

/// The two quadrature lines; a line is true while its pin is low.
pub ghost struct Lines {
    pub clk: bool,
    pub dt: bool,
}

impl Lines {
    /// The place of this pair of levels in the quadrature cycle. Turning one way, phase A leads
    /// and the place goes 0, 1, 2, 3, 0; turning the other way it goes back.
    pub open spec fn position(self) -> int {
        if self.clk {
            if self.dt {
                2
            } else {
                1
            }
        } else {
            if self.dt {
                3
            } else {
                0
            }
        }
    }

    /// The quadrature step from these levels to the next ones: one place forward, one place
    /// back, or nothing when no line or both lines have changed.
    pub open spec fn step_to(self, next: Lines) -> int {
        let places = (next.position() - self.position()) % 4;
        if places == 1 {
            1
        } else if places == 3 {
            -1
        } else {
            0
        }
    }
}

/// `total`, brought into the range of the step accumulator.
pub open spec fn clamped(total: int) -> int {
    if total > i8::MAX {
        i8::MAX as int
    } else if total < i8::MIN {
        i8::MIN as int
    } else {
        total
    }
}

/// What a [`RotaryEncoder`] knows: its push-button, the quadrature lines, the steps that wait
/// to be polled, the run of clicks in one direction, and its settings.
pub ghost struct EncoderView {
    pub button: ButtonView,
    pub lines: Lines,
    /// Quadrature steps since the last rotation event.
    pub accumulator: int,
    /// The direction of the current run.
    pub direction: RotaryAccumulatorMode,
    /// Clicks in the current run.
    pub run: nat,
    /// Polls without an event since the last event.
    pub idle_polls: nat,
    pub reset_time: nat,
    pub multi_step_threshold: nat,
    pub inverted: bool,
}

impl EncoderView {
    /// An encoder that has seen nothing but the first levels of its quadrature lines.
    pub open spec fn initial(
        lines: Lines,
        debounce_threshold: nat,
        long_press_threshold: nat,
        refresh_time: nat,
        reset_time: nat,
        multi_step_threshold: nat,
        inverted: bool,
    ) -> EncoderView {
        EncoderView {
            button: ButtonView::initial(debounce_threshold, long_press_threshold, refresh_time),
            lines,
            accumulator: 0,
            direction: RotaryAccumulatorMode::NoDirection,
            run: 0,
            idle_polls: 0,
            reset_time,
            multi_step_threshold,
            inverted,
        }
    }

    /// What holds of an encoder in every state.
    pub open spec fn wf(self) -> bool {
        &&& self.button.wf::<RotaryButton>()
        &&& i8::MIN <= self.accumulator <= i8::MAX
        &&& self.direction is NoDirection <==> self.run == 0
        &&& self.run <= u8::MAX
        &&& self.idle_polls <= self.idle_limit()
    }

    /// How many polls without an event a run survives. Of the reset time only the low eight
    /// bits count.
    pub open spec fn idle_limit(self) -> nat {
        self.reset_time % 256
    }

    /// The encoder after one update with the given samples.
    pub open spec fn updated(self, sw_low: bool, lines: Lines) -> EncoderView {
        EncoderView {
            button: self.button.updated::<RotaryButton>(sw_low),
            lines,
            accumulator: clamped(self.accumulator + self.lines.step_to(lines)),
            ..self
        }
    }

    /// The direction in which a full click waits to be polled.
    pub open spec fn click(self) -> RotaryAccumulatorMode {
        if self.accumulator >= STEPS_PER_CLICK {
            RotaryAccumulatorMode::Positive
        } else if self.accumulator <= -STEPS_PER_CLICK {
            RotaryAccumulatorMode::Negative
        } else {
            RotaryAccumulatorMode::NoDirection
        }
    }

    /// The clicks in the run that a click in this direction continues or begins.
    pub open spec fn run_after(self, direction: RotaryAccumulatorMode) -> nat {
        if self.direction == direction {
            self.run + 1
        } else {
            1
        }
    }

    /// The event of a click that is the `run`-th of its run. A positive run is fast beyond the
    /// multi-step threshold, a negative one already at it; inversion swaps up and down.
    pub open spec fn rotation_event(self, direction: RotaryAccumulatorMode, run: nat) -> InputEvent {
        let positive = direction is Positive;
        let fast = if positive {
            run > self.multi_step_threshold
        } else {
            run >= self.multi_step_threshold
        };
        if positive != self.inverted {
            if fast {
                InputEvent::FastUp
            } else {
                InputEvent::Up
            }
        } else {
            if fast {
                InputEvent::FastDown
            } else {
                InputEvent::Down
            }
        }
    }

    /// The encoder with its run ended.
    pub open spec fn run_ended(self) -> EncoderView {
        EncoderView {
            direction: RotaryAccumulatorMode::NoDirection,
            run: 0,
            idle_polls: 0,
            ..self
        }
    }

    /// What a poll returns: a waiting click before a waiting button event, before nothing.
    pub open spec fn poll_event(self) -> InputEvent {
        if self.click() !is NoDirection {
            self.rotation_event(self.click(), self.run_after(self.click()))
        } else {
            self.button.pending
        }
    }

    /// The encoder after a poll. A click takes all accumulated steps and lengthens the run; a
    /// button event ends the run; a poll without an event ends it once it has been idle for
    /// longer than the limit. The count of idle polls stops at 255.
    pub open spec fn polled(self) -> EncoderView {
        if self.click() !is NoDirection {
            EncoderView {
                accumulator: 0,
                direction: self.click(),
                run: self.run_after(self.click()),
                idle_polls: 0,
                ..self
            }
        } else if self.button.pending !is NoEvent {
            EncoderView { button: self.button.polled(), ..self.run_ended() }
        } else {
            let idle_polls = if self.idle_polls < u8::MAX {
                self.idle_polls + 1
            } else {
                u8::MAX as nat
            };
            if idle_polls > self.idle_limit() {
                self.run_ended()
            } else {
                EncoderView { idle_polls, ..self }
            }
        }
    }

    /// Whether a poll stays within the range of the run counter.
    pub open spec fn poll_ready(self) -> bool {
        self.click() !is NoDirection ==> self.run_after(self.click()) <= u8::MAX
    }
}

/// A quadrature rotary encoder with an integrated push-button.
///
/// `update` takes one reading of each pin; `poll` turns what the updates have gathered into
/// events.
pub struct RotaryEncoder {
    button: Button<RotaryButton>,
    /// The last levels of phase A (bit 1) and phase B (bit 0); a set bit is a low pin.
    last_quad_state: u8,
    /// Accumulated quadrature delta since the last emitted rotation event.
    ///
    /// Positive values represent one direction, negative values represent
    /// the opposite direction.
    encoder_accumulator: i8,
    /// Remembers the last movement direction for fast-rotation logic.
    last_accumulator: RotaryAccumulatorMode,
    /// Polls without an event since the last event.
    reset_counter: u8,
    rotary_reset_time_threshold_ms: u16,
    /// Clicks in the current direction.
    rotate_counter: u8,
    rotary_multi_step_threshold: u8,
    /// Reverses the direction of the rotation events.
    invert_rotation: bool,
}

/// The levels that a quadrature state stands for.
spec fn lines_of(state: u8) -> Lines {
    Lines { clk: state >= 2, dt: state % 2 == 1 }
}

/// The quadrature state of two levels.
fn quad_state(clk_low: bool, dt_low: bool) -> (state: u8)
    ensures
        state < 4,
        lines_of(state) == (Lines { clk: clk_low, dt: dt_low }),
{
    let clk: u8 = clk_low as u8;
    let dt: u8 = dt_low as u8;
    assert(clk <= 1 && dt <= 1 ==> (clk << 1u8) | dt == 2 * clk + dt) by (bit_vector);
    (clk << 1) | dt
}

/// The quadrature step between two states.
fn quad_step(from: u8, to: u8) -> (step: i8)
    requires
        from < 4,
        to < 4,
    ensures
        step == lines_of(from).step_to(lines_of(to)),
{
    assert(from < 4 && to < 4 ==> (from << 2u8) | to == 4 * from + to) by (bit_vector);
    let index: usize = ((from << 2) | to) as usize;
    QUAD_TABLE[index]
}

/// Adds a step to the accumulator, which stops at the ends of its range.
fn accumulate(accumulator: i8, step: i8) -> (total: i8)
    ensures
        total == clamped(accumulator + step),
{
    match accumulator.checked_add(step) {
        Some(total) => total,
        None => if step > 0 {
            i8::MAX
        } else {
            i8::MIN
        },
    }
}

impl View for RotaryEncoder {
    type V = EncoderView;

    closed spec fn view(&self) -> EncoderView {
        EncoderView {
            button: self.button@,
            lines: lines_of(self.last_quad_state),
            accumulator: self.encoder_accumulator as int,
            direction: self.last_accumulator,
            run: self.rotate_counter as nat,
            idle_polls: self.reset_counter as nat,
            reset_time: self.rotary_reset_time_threshold_ms as nat,
            multi_step_threshold: self.rotary_multi_step_threshold as nat,
            inverted: self.invert_rotation,
        }
    }
}

impl RotaryEncoder {
    /// The invariant of an encoder.
    pub open spec fn wf(&self) -> bool {
        self@.wf() && self.state_in_range()
    }

    /// The stored quadrature state is one of the four, and the button keeps its invariant.
    pub closed spec fn state_in_range(&self) -> bool {
        self.last_quad_state < 4 && self.button.wf()
    }

    /// An encoder that starts at the given levels of its quadrature pins. A pin that could not
    /// be read counts as high.
    pub fn new<C, D>(
        clk_is_low: Result<bool, C>,
        dt_is_low: Result<bool, D>,
        button_debounce_threshold_millis: u16,
        long_press_threshold_millis: u16,
        refresh_time_millis: u16,
        rotary_reset_time_ms: u16,
        rotary_multi_step_threshold: u8,
        invert_rotation: bool,
    ) -> (encoder: Self)
        ensures
            encoder.wf(),
            encoder@ == EncoderView::initial(
                (Lines { clk: crate::button::reads_low(clk_is_low), dt: crate::button::reads_low(dt_is_low) }),
                button_debounce_threshold_millis as nat,
                long_press_threshold_millis as nat,
                refresh_time_millis as nat,
                rotary_reset_time_ms as nat,
                rotary_multi_step_threshold as nat,
                invert_rotation,
            ),
            encoder@.lines.clk == crate::button::reads_low(clk_is_low),
            encoder@.lines.dt == crate::button::reads_low(dt_is_low),
            encoder@.button.debounce_threshold == button_debounce_threshold_millis,
            encoder@.button.long_press_threshold == long_press_threshold_millis,
            encoder@.button.refresh_time == refresh_time_millis,
            encoder@.button.debounce_counter == 0,
            !encoder@.button.pressed,
            encoder@.button.phase is Idle,
            encoder@.button.pending is NoEvent,
            encoder@.button.hold_count == 0,
            encoder@.accumulator == 0,
            encoder@.direction is NoDirection,
            encoder@.run == 0,
            encoder@.idle_polls == 0,
            encoder@.reset_time == rotary_reset_time_ms,
            encoder@.multi_step_threshold == rotary_multi_step_threshold,
            encoder@.inverted == invert_rotation,
    {
        let initial_state = quad_state(pin_is_low(&clk_is_low), pin_is_low(&dt_is_low));
        Self {
            button: Button::new(
                button_debounce_threshold_millis,
                long_press_threshold_millis,
                refresh_time_millis,
            ),
            last_quad_state: initial_state,
            encoder_accumulator: 0,
            last_accumulator: RotaryAccumulatorMode::NoDirection,
            reset_counter: 0,
            rotary_reset_time_threshold_ms: rotary_reset_time_ms,
            rotate_counter: 0,
            rotary_multi_step_threshold,
            invert_rotation,
        }
    }

    /// Takes one reading of each pin: updates the button and accumulates the quadrature step.
    /// A pin that could not be read counts as high.
    pub fn update<S, C, D>(
        &mut self,
        sw_is_low: Result<bool, S>,
        clk_is_low: Result<bool, C>,
        dt_is_low: Result<bool, D>,
    )
        requires
            old(self).wf(),
        ensures
            final(self).wf(),
            final(self)@ == old(self)@.updated(
                crate::button::reads_low(sw_is_low),
                (Lines { clk: crate::button::reads_low(clk_is_low), dt: crate::button::reads_low(dt_is_low) }),
            ),
            final(self)@.lines.clk == crate::button::reads_low(clk_is_low),
            final(self)@.lines.dt == crate::button::reads_low(dt_is_low),
    {
        self.button.update(sw_is_low);

        let current = quad_state(pin_is_low(&clk_is_low), pin_is_low(&dt_is_low));
        if current != self.last_quad_state {
            self.encoder_accumulator =
            accumulate(self.encoder_accumulator, quad_step(self.last_quad_state, current));
            self.last_quad_state = current;
        }
    }

    /// The debounced level of the push-button.
    pub fn button_is_pressed(&self) -> (pressed: bool)
        ensures
            pressed == self@.button.pressed,
    {
        self.button.is_pressed()
    }

    /// Whether `poll` can be called: it cannot when a click waits that would lengthen the
    /// run beyond the run counter's maximum.
    pub fn can_poll(&self) -> (ready: bool)
        ensures
            ready == self@.poll_ready(),
            ready <==> self@.polled().run <= u8::MAX,
    {
        if self.encoder_accumulator >= STEPS_PER_CLICK {
            self.last_accumulator != RotaryAccumulatorMode::Positive || self.rotate_counter
                < u8::MAX
        } else if self.encoder_accumulator <= -STEPS_PER_CLICK {
            self.last_accumulator != RotaryAccumulatorMode::Negative || self.rotate_counter
                < u8::MAX
        } else {
            true
        }
    }
}

impl InputSource for RotaryEncoder {
    open spec fn poll_ready(&self) -> bool {
        self.wf() && self@.poll_ready()
    }

    /// Takes what waits: a rotation click before a button event. A poll that finds neither
    /// returns [`InputEvent::NoEvent`] and brings the current run closer to its end.
    fn poll(&mut self) -> (event: InputEvent)
        ensures
            final(self).wf(),
            event == old(self)@.poll_event(),
            final(self)@ == old(self)@.polled(),
            final(self)@.lines == old(self)@.lines,
            event !is NoEvent ==> final(self)@.idle_polls == 0,
    {
        if self.encoder_accumulator >= STEPS_PER_CLICK {
            self.encoder_accumulator = 0;
            self.reset_counter = 0;
            if self.last_accumulator == RotaryAccumulatorMode::Positive {
                self.rotate_counter = self.rotate_counter + 1;
            } else {
                self.rotate_counter = 1;
            }
            self.last_accumulator = RotaryAccumulatorMode::Positive;
            return if self.invert_rotation {
                if self.rotate_counter > self.rotary_multi_step_threshold {
                    InputEvent::FastDown
                } else {
                    InputEvent::Down
                }
            } else {
                if self.rotate_counter > self.rotary_multi_step_threshold {
                    InputEvent::FastUp
                } else {
                    InputEvent::Up
                }
            };
        }
        if self.encoder_accumulator <= -STEPS_PER_CLICK {
            self.encoder_accumulator = 0;
            self.reset_counter = 0;
            if self.last_accumulator == RotaryAccumulatorMode::Negative {
                self.rotate_counter = self.rotate_counter + 1;
            } else {
                self.rotate_counter = 1;
            }
            self.last_accumulator = RotaryAccumulatorMode::Negative;
            return if self.invert_rotation {
                if self.rotate_counter >= self.rotary_multi_step_threshold {
                    InputEvent::FastUp
                } else {
                    InputEvent::Up
                }
            } else {
                if self.rotate_counter >= self.rotary_multi_step_threshold {
                    InputEvent::FastDown
                } else {
                    InputEvent::Down
                }
            };
        }
        let button_event = self.button.poll();
        if button_event != InputEvent::NoEvent {
            self.last_accumulator = RotaryAccumulatorMode::NoDirection;
            self.rotate_counter = 0;
            self.reset_counter = 0;
            return button_event;
        }
        let limit: u8 = #[verifier::truncate] (self.rotary_reset_time_threshold_ms as u8);
        proof {
            let reset_time = self.rotary_reset_time_threshold_ms;
            assert(reset_time as u8 == reset_time % 256) by (bit_vector);
        }
        self.reset_counter = self.reset_counter.saturating_add(1);
        if self.reset_counter > limit {
            self.reset_counter = 0;
            self.last_accumulator = RotaryAccumulatorMode::NoDirection;
            self.rotate_counter = 0;
        }
        InputEvent::NoEvent
    }
}

} // verus!
