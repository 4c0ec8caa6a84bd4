//! A debounced push-button with short-press and hold events.

use crate::behaviour::{ButtonBehaviour, HoldAction};
use crate::types::{ButtonState, InputEvent, Phase};
use std::marker::PhantomData;
use vstd::prelude::*;

verus! {

/// Whether a pin reading counts as low. A pin that could not be read counts as high.
pub open spec fn reads_low<E>(reading: Result<bool, E>) -> bool {
    reading matches Ok(low) && low
}

/// Whether a pin reading counts as low. A pin that could not be read counts as high.
pub fn pin_is_low<E>(reading: &Result<bool, E>) -> (low: bool)
    ensures
        low == reads_low(*reading),
        reading is Err ==> !low,
        reading is Ok ==> low == reading->Ok_0,
{
    match reading {
        Ok(low) => *low,
        Err(_) => false,
    }
}

/// The debounce integrator: it climbs by `refresh` while the pin is low, up to `threshold`, and
/// falls half as fast while the pin is high, down to zero.
pub open spec fn integrated(counter: nat, low: bool, refresh: nat, threshold: nat) -> nat {
    if low {
        if counter + refresh < threshold {
            counter + refresh
        } else {
            threshold
        }
    } else {
        if counter < refresh / 2 {
            0
        } else {
            (counter - refresh / 2) as nat
        }
    }
}

/// The debounced level: pressed at the top of the integrator's range, released at zero, and
/// as it was anywhere between the two.
pub open spec fn settled(pressed: bool, counter: nat, threshold: nat) -> bool {
    counter >= threshold || (counter != 0 && pressed)
}

/// What a [`Button`] knows: its three settings, the debounced level, the lifecycle of the
/// current press and the event that waits to be polled.
pub ghost struct ButtonView {
    pub debounce_threshold: nat,
    pub long_press_threshold: nat,
    pub refresh_time: nat,
    pub debounce_counter: nat,
    pub pressed: bool,
    pub phase: Phase,
    pub pending: InputEvent,
    /// How many holds have fired during the current press.
    pub hold_count: nat,
}

impl ButtonView {
    /// A released button that has seen no sample yet.
    pub open spec fn initial(
        debounce_threshold: nat,
        long_press_threshold: nat,
        refresh_time: nat,
    ) -> ButtonView {
        ButtonView {
            debounce_threshold,
            long_press_threshold,
            refresh_time,
            debounce_counter: 0,
            pressed: false,
            phase: Phase::Idle,
            pending: InputEvent::NoEvent,
            hold_count: 0,
        }
    }

    /// What holds of a button in every state.
    ///
    /// The integrator stays in range and agrees with the level at both ends; the lifecycle is
    /// idle exactly while the button is released; a tick count never passes the threshold at
    /// which the next hold fires; and the holds of a press have led to where its lifecycle is.
    pub open spec fn wf<BB: ButtonBehaviour>(self) -> bool {
        &&& self.debounce_counter <= self.debounce_threshold
        &&& self.debounce_threshold > 0 && self.debounce_counter == 0 ==> !self.pressed
        &&& self.debounce_threshold > 0 && self.debounce_counter == self.debounce_threshold
            ==> self.pressed
        &&& self.pressed <==> self.phase !is Idle
        &&& self.pending is NoEvent || self.pending is Select || self.pending is SelectHold
        &&& match self.phase {
            Phase::Idle => self.hold_count == 0,
            Phase::Counting(ticks) => {
                &&& ticks <= self.hold_threshold::<BB>()
                &&& forall|i: nat|
                    i < self.hold_count ==> (#[trigger] BB::hold_action(i)) is EmitAndReset
            },
            Phase::WaitingRelease => {
                &&& self.hold_count > 0
                &&& BB::hold_action((self.hold_count - 1) as nat) is EmitAndWaitRelease
                &&& forall|i: nat|
                    i + 1 < self.hold_count ==> (#[trigger] BB::hold_action(i)) is EmitAndReset
            },
        }
    }

    /// The number of ticks at which the next hold fires: the long-press threshold for the first
    /// hold of a press, the behaviour's repeat threshold for the others.
    pub open spec fn hold_threshold<BB: ButtonBehaviour>(self) -> nat {
        if self.hold_count == 0 {
            self.long_press_threshold
        } else {
            BB::repeat_threshold(self.long_press_threshold)
        }
    }

    /// The button after the debounce filter has taken a sample, before the lifecycle follows.
    pub open spec fn sampled(self, low: bool) -> ButtonView {
        let counter = integrated(
            self.debounce_counter,
            low,
            self.refresh_time,
            self.debounce_threshold,
        );
        ButtonView {
            debounce_counter: counter,
            pressed: settled(self.pressed, counter, self.debounce_threshold),
            ..self
        }
    }

    /// Buffers an event, unless another one still waits.
    pub open spec fn offer(self, event: InputEvent) -> ButtonView {
        if self.pending is NoEvent {
            ButtonView { pending: event, ..self }
        } else {
            self
        }
    }

    /// Whether the lifecycle fires a hold at the current level.
    pub open spec fn fires_hold<BB: ButtonBehaviour>(self) -> bool {
        self.pressed && (self.phase matches Phase::Counting(ticks) && ticks
            >= self.hold_threshold::<BB>())
    }

    /// A hold: its event is offered, and the behaviour decides how the press goes on.
    pub open spec fn held<BB: ButtonBehaviour>(self) -> ButtonView {
        ButtonView {
            phase: match BB::hold_action(self.hold_count) {
                HoldAction::EmitAndWaitRelease => Phase::WaitingRelease,
                HoldAction::EmitAndReset => Phase::Counting(0),
            },
            hold_count: self.hold_count + 1,
            ..self.offer(InputEvent::SelectHold)
        }
    }

    /// A release: `Select` is offered if `select` says so, and the press is over.
    pub open spec fn released(self, select: bool) -> ButtonView {
        let rest = if select {
            self.offer(InputEvent::Select)
        } else {
            self
        };
        ButtonView { phase: Phase::Idle, hold_count: 0, ..rest }
    }

    /// One tick of the press lifecycle at the current debounced level.
    pub open spec fn advanced<BB: ButtonBehaviour>(self) -> ButtonView {
        match self.phase {
            Phase::Idle => if self.pressed {
                ButtonView { phase: Phase::Counting(0), ..self }
            } else {
                self
            },
            Phase::Counting(ticks) => {
                let counting = if ticks == 0 && self.hold_count == 0 && BB::selects_on_press() {
                    ButtonView { pending: InputEvent::Select, ..self }
                } else {
                    self
                };
                if !self.pressed {
                    counting.released(
                        BB::selects_on_release(self.hold_count > 0) && !BB::selects_on_press(),
                    )
                } else if self.fires_hold::<BB>() {
                    counting.held::<BB>()
                } else {
                    ButtonView { phase: Phase::Counting(ticks + 1), ..counting }
                }
            },
            Phase::WaitingRelease => if self.pressed {
                self
            } else {
                self.released(BB::selects_on_release(self.hold_count > 0))
            },
        }
    }

    /// The button after one update with the given sample.
    pub open spec fn updated<BB: ButtonBehaviour>(self, low: bool) -> ButtonView {
        self.sampled(low).advanced::<BB>()
    }

    /// The button after its pending event has been taken.
    pub open spec fn polled(self) -> ButtonView {
        ButtonView { pending: InputEvent::NoEvent, ..self }
    }
}

/// A debounced, active-low push-button.
///
/// `update` takes one reading of the switch pin; `poll` takes the event that the updates have
/// produced. The behaviour `BB` says which events a press gives rise to.
pub struct Button<BB: ButtonBehaviour> {
    /// Integration counter used for debounce filtering.
    ///
    /// Range: `0..=button_debounce_threshold_millis`
    ///
    /// - `0` means confidently released
    /// - `button_debounce_threshold_millis` means confidently pressed
    debounce_counter_millis: u16,
    /// Refresh time of the button reading.
    refresh_time_millis: u16,
    /// Current debounced logical button state.
    is_pressed: bool,
    /// The integration count that settles a pressed state.
    button_debounce_threshold_millis: u16,
    /// Number of update ticks required to classify the press as a hold.
    long_press_threshold_millis: u16,
    /// High-level press lifecycle state.
    state: ButtonState,
    /// Buffered event produced by `update()` and consumed by `poll()`.
    ///
    /// Only one event is stored at a time. If no event is pending,
    /// this field contains [`InputEvent::NoEvent`].
    pending_event: InputEvent,
    /// True once any hold has fired during this physical press.
    /// Cleared only on release.
    hold_consumed: bool,
    /// How many hold events have fired this press.
    /// 0: use the long-press threshold; 1 and more: use the repeat threshold.
    hold_repeat_count: u16,
    _behaviour: PhantomData<BB>,
}

impl<BB: ButtonBehaviour> View for Button<BB> {
    type V = ButtonView;

    closed spec fn view(&self) -> ButtonView {
        ButtonView {
            debounce_threshold: self.button_debounce_threshold_millis as nat,
            long_press_threshold: self.long_press_threshold_millis as nat,
            refresh_time: self.refresh_time_millis as nat,
            debounce_counter: self.debounce_counter_millis as nat,
            pressed: self.is_pressed,
            phase: self.state@,
            pending: self.pending_event,
            hold_count: self.hold_repeat_count as nat,
        }
    }
}

impl<BB: ButtonBehaviour> Button<BB> {
    /// A hold is recorded as consumed exactly while the current press has fired one.
    pub closed spec fn holds_recorded(&self) -> bool {
        self.hold_consumed <==> self.hold_repeat_count > 0
    }

    /// The invariant of a button.
    pub open spec fn wf(&self) -> bool {
        self@.wf::<BB>() && self.holds_recorded()
    }

    /// Whether an update with the given sample stays within the hold counter's range.
    pub open spec fn update_ready(&self, low: bool) -> bool {
        self@.sampled(low).fires_hold::<BB>() ==> self@.hold_count < u16::MAX
    }

    /// A released button without a pending event.
    pub fn new(
        button_debounce_threshold_millis: u16,
        long_press_threshold_millis: u16,
        refresh_time_millis: u16,
    ) -> (button: Self)
        ensures
            button.wf(),
            button@ == ButtonView::initial(
                button_debounce_threshold_millis as nat,
                long_press_threshold_millis as nat,
                refresh_time_millis as nat,
            ),
            button@.debounce_threshold == button_debounce_threshold_millis,
            button@.long_press_threshold == long_press_threshold_millis,
            button@.refresh_time == refresh_time_millis,
            button@.debounce_counter == 0,
            !button@.pressed,
            button@.phase is Idle,
            button@.pending is NoEvent,
            button@.hold_count == 0,
    {
        Self {
            debounce_counter_millis: 0,
            is_pressed: false,
            button_debounce_threshold_millis,
            long_press_threshold_millis,
            refresh_time_millis,
            state: ButtonState::default(),
            pending_event: InputEvent::NoEvent,
            hold_consumed: false,
            hold_repeat_count: 0,
            _behaviour: PhantomData,
        }
    }

    /// The integrator and the debounced level after one more sample.
    fn debounce(&self, low: bool) -> (next: (u16, bool))
        requires
            self.wf(),
        ensures
            next.0 == self@.sampled(low).debounce_counter,
            next.1 == self@.sampled(low).pressed,
    {
        let counter: u16 = if low {
            self.debounce_counter_millis.saturating_add(self.refresh_time_millis).min(
                self.button_debounce_threshold_millis,
            )
        } else {
            self.debounce_counter_millis.saturating_sub(self.refresh_time_millis / 2)
        };
        let pressed = if counter >= self.button_debounce_threshold_millis {
            true
        } else if counter == 0 {
            false
        } else {
            self.is_pressed
        };
        (counter, pressed)
    }

    /// The number of ticks at which the next hold fires.
    fn hold_threshold(&self) -> (threshold: u16)
        ensures
            threshold == self@.hold_threshold::<BB>(),
    {
        // After first hold, switch to the shorter repeat threshold.
        if self.hold_repeat_count == 0 {
            self.long_press_threshold_millis
        } else {
            BB::repeat_threshold_millis(self.long_press_threshold_millis)
        }
    }

    /// Whether `update` can take this reading: it cannot when the reading fires a hold and
    /// the hold counter is at its maximum.
    pub fn can_update<E>(&self, pin_is_low: &Result<bool, E>) -> (ready: bool)
        requires
            self.wf(),
        ensures
            ready == self.update_ready(reads_low(*pin_is_low)),
            ready <==> self@.updated::<BB>(reads_low(*pin_is_low)).hold_count <= u16::MAX,
    {
        let (_, pressed) = self.debounce(crate::button::pin_is_low(pin_is_low));
        match self.state {
            ButtonState::Counting(ticks) => {
                !(pressed && ticks >= self.hold_threshold()) || self.hold_repeat_count < u16::MAX
            },
            _ => true,
        }
    }

    /// Takes one reading of the switch pin: runs the debounce filter and advances the press
    /// lifecycle by one tick. A pin that could not be read counts as released.
    pub fn update<E>(&mut self, pin_is_low: Result<bool, E>)
        requires
            old(self).wf(),
            old(self).update_ready(reads_low(pin_is_low)),
        ensures
            final(self).wf(),
            final(self)@ == old(self)@.updated::<BB>(reads_low(pin_is_low)),
    {
        let low = crate::button::pin_is_low(&pin_is_low);
        let (counter, pressed) = self.debounce(low);
        self.debounce_counter_millis = counter;
        self.is_pressed = pressed;

        self.state =
        match self.state {
            ButtonState::Idle => if self.is_pressed {
                ButtonState::Counting(0)
            } else {
                ButtonState::Idle
            },
            ButtonState::Counting(ticks) => {
                if ticks == 0 && BB::emit_select_on_hold() && !self.hold_consumed {
                    self.pending_event = InputEvent::Select;
                }
                if self.is_pressed {
                    if ticks >= self.hold_threshold() {
                        if self.pending_event == InputEvent::NoEvent {
                            self.pending_event = InputEvent::SelectHold;
                        }
                        let action = BB::on_hold(self.hold_repeat_count);
                        self.hold_consumed = true;
                        self.hold_repeat_count = self.hold_repeat_count + 1;
                        match action {
                            HoldAction::EmitAndWaitRelease => ButtonState::WaitingRelease,
                            HoldAction::EmitAndReset => ButtonState::Counting(0),
                        }
                    } else {
                        ButtonState::Counting(ticks.saturating_add(1))
                    }
                } else {
                    // Select belongs to the release, unless the start of the press had it.
                    if BB::emit_select_on_release(self.hold_consumed)
                        && !BB::emit_select_on_hold() {
                        if self.pending_event == InputEvent::NoEvent {
                            self.pending_event = InputEvent::Select;
                        }
                    }
                    self.hold_consumed = false;
                    self.hold_repeat_count = 0;
                    ButtonState::Idle
                }
            },
            ButtonState::WaitingRelease => {
                if self.is_pressed {
                    ButtonState::WaitingRelease
                } else {
                    // Release after a single hold: the behaviour decides whether it selects.
                    if BB::emit_select_on_release(self.hold_consumed) {
                        if self.pending_event == InputEvent::NoEvent {
                            self.pending_event = InputEvent::Select;
                        }
                    }
                    self.hold_consumed = false;
                    self.hold_repeat_count = 0;
                    ButtonState::Idle
                }
            },
        };
    }

    /// Takes the pending event.
    pub fn poll(&mut self) -> (event: InputEvent)
        requires
            old(self).wf(),
        ensures
            final(self).wf(),
            event == old(self)@.pending,
            final(self)@ == old(self)@.polled(),
            final(self)@.pending is NoEvent,
            final(self)@ == (ButtonView { pending: final(self)@.pending, ..old(self)@ }),
    {
        let event = self.pending_event;
        self.pending_event = InputEvent::NoEvent;
        event
    }

    /// The debounced level.
    pub fn is_pressed(&self) -> (pressed: bool)
        ensures
            pressed == self@.pressed,
    {
        self.is_pressed
    }
}

} // verus!
