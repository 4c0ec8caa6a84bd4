//! Events, states and the trait shared by the input drivers.

use vstd::prelude::*;

verus! {

/// What a driver reports when it is polled.
#[derive(Debug, Clone, Copy, PartialEq, Eq, Structural)]
pub enum InputEvent {
    /// No action occurred in this polling period.
    NoEvent,
    /// Upwards navigation or scroll left.
    Up,
    /// Upwards, fast enough for the caller to multiply the step.
    FastUp,
    /// Downwards navigation or scroll right.
    Down,
    /// Downwards, fast enough for the caller to multiply the step.
    FastDown,
    /// Button click or confirmation.
    Select,
    /// Button held down (typically for exits/saves).
    SelectHold,
}

/// The direction of the last rotation event, as the fast-rotation logic remembers it.
#[derive(Debug, Clone, Copy, PartialEq, Eq, Structural)]
pub enum RotaryAccumulatorMode {
    /// The accumulator reached a full click upwards of zero.
    Positive,
    /// The accumulator reached a full click downwards of zero.
    Negative,
    /// No rotation is being followed.
    NoDirection,
}

/// Abstract representation of an input driver.
///
/// Implementors are responsible for handling the hardware signals (e.g., rotary encoder pins),
/// handling debounce filtering, and returning discrete [`InputEvent`]s.
pub trait InputSource {
    /// The states in which a driver can be polled: all of them, unless the driver says otherwise.
    open spec fn poll_ready(&self) -> bool {
        true
    }

    /// Polls the driver and returns a debounced input event.
    fn poll(&mut self) -> (event: InputEvent)
        requires
            old(self).poll_ready(),
    ;
}

/// The level at which a button's pin rests.
#[derive(Clone, Copy)]
pub enum ButtonDefaultState {
    PulledUp,
    PulledDown,
}

impl Default for ButtonDefaultState {
    fn default() -> (state: Self)
        ensures
            state == ButtonDefaultState::PulledUp,
    {
        ButtonDefaultState::PulledUp
    }
}

/// States of the button press lifecycle.
///
/// A press advances `Idle → Counting → WaitingRelease → Idle`, or, when it ends before a
/// hold fires or its behaviour repeats holds, `Idle → Counting → Idle`.
#[derive(Clone, Copy, PartialEq, Eq, Structural)]
pub enum ButtonState {
    /// Button is not pressed. Waiting for the next press.
    Idle,
    /// Button is held. The inner value counts elapsed ticks since the press, or since the
    /// last hold that reset it.
    Counting(u16),
    /// The hold has fired, silently waiting for physical release.
    WaitingRelease,
}

impl Default for ButtonState {
    fn default() -> (state: Self)
        ensures
            state == ButtonState::Idle,
    {
        ButtonState::Idle
    }
}

/// [`ButtonState`] with an unbounded tick count.
pub ghost enum Phase {
    Idle,
    Counting(nat),
    WaitingRelease,
}

impl View for ButtonState {
    type V = Phase;

    open spec fn view(&self) -> Phase {
        match *self {
            ButtonState::Idle => Phase::Idle,
            ButtonState::Counting(ticks) => Phase::Counting(ticks as nat),
            ButtonState::WaitingRelease => Phase::WaitingRelease,
        }
    }
}

} // verus!
