//! How the different kinds of button answer a press, a hold and a release.

use vstd::prelude::*;

verus! {

/// What a button does once a hold has fired.
pub enum HoldAction {
    /// Fire hold once, then wait silently for release.
    EmitAndWaitRelease,
    /// Fire hold, reset counter to 0, stay in Counting for next repeat.
    EmitAndReset,
}

/// The rules by which one kind of button turns presses into events.
///
/// Each rule is stated by a spec function, and each method returns what its spec function says.
pub trait ButtonBehaviour: PartialEq {
    /// Whether `Select` is emitted as soon as a press has settled.
    spec fn selects_on_press() -> bool;

    /// What happens after a hold, when `repeat_count` holds have fired before it.
    spec fn hold_action(repeat_count: nat) -> HoldAction;

    /// Whether a release emits `Select`.
    spec fn selects_on_release(hold_was_emitted: bool) -> bool;

    /// The number of ticks before the 2nd, 3rd, ... hold.
    spec fn repeat_threshold(long_press_threshold: nat) -> nat;

    /// Return true to emit Select at the start of a press instead of at its release.
    fn emit_select_on_hold() -> (emit: bool)
        ensures
            emit == Self::selects_on_press(),
    ;

    /// Called when the hold threshold is crossed.
    /// `repeat_count` = how many holds have already fired this press (0 = first).
    fn on_hold(repeat_count: u16) -> (action: HoldAction)
        ensures
            action == Self::hold_action(repeat_count as nat),
    ;

    /// Called on physical release.
    /// Return true to emit Select, false to swallow it. A press that is released while it
    /// counts emits none if `emit_select_on_hold` has already emitted it at the start.
    fn emit_select_on_release(hold_was_emitted: bool) -> (emit: bool)
        ensures
            emit == Self::selects_on_release(hold_was_emitted),
    ;

    /// The interval used for the 2nd, 3rd, ... holds.
    /// Only consulted by EmitAndReset behaviours.
    fn repeat_threshold_millis(long_press_threshold_millis: u16) -> (threshold: u16)
        ensures
            threshold == Self::repeat_threshold(long_press_threshold_millis as nat),
    ;
}

/// The push-button of a rotary encoder: one hold per press, and `Select` at every release.
#[derive(PartialEq)]
pub struct RotaryButton;

/// Repeats its hold three times as fast as the first one; `Select` at a release without hold.
#[derive(PartialEq)]
pub struct HoodButton1;

/// A free-standing button: one hold per press, and `Select` at every release.
#[derive(PartialEq)]
pub struct PushButton;

/// `Select` at the start of a press, then holds repeated five times as fast as the first one.
#[derive(PartialEq)]
pub struct HoodButton2;

impl ButtonBehaviour for RotaryButton {
    open spec fn selects_on_press() -> bool {
        false
    }

    open spec fn hold_action(repeat_count: nat) -> HoldAction {
        HoldAction::EmitAndWaitRelease
    }

    open spec fn selects_on_release(hold_was_emitted: bool) -> bool {
        true
    }

    open spec fn repeat_threshold(long_press_threshold: nat) -> nat {
        long_press_threshold
    }

    fn emit_select_on_hold() -> bool {
        false
    }

    fn on_hold(_repeat_count: u16) -> HoldAction {
        HoldAction::EmitAndWaitRelease
    }

    fn emit_select_on_release(_hold_was_emitted: bool) -> bool {
        true
    }

    fn repeat_threshold_millis(long_press_threshold_millis: u16) -> u16 {
        long_press_threshold_millis
    }
}

impl ButtonBehaviour for HoodButton1 {
    open spec fn selects_on_press() -> bool {
        false
    }

    open spec fn hold_action(repeat_count: nat) -> HoldAction {
        HoldAction::EmitAndReset
    }

    open spec fn selects_on_release(hold_was_emitted: bool) -> bool {
        !hold_was_emitted
    }

    open spec fn repeat_threshold(long_press_threshold: nat) -> nat {
        if long_press_threshold < 3 {
            1
        } else {
            long_press_threshold / 3
        }
    }

    fn emit_select_on_hold() -> bool {
        false
    }

    fn on_hold(_repeat_count: u16) -> HoldAction {
        HoldAction::EmitAndReset
    }

    fn emit_select_on_release(hold_was_emitted: bool) -> bool {
        !hold_was_emitted
    }

    /// Repeats fire at 1/3 of the initial hold threshold, and never at once.
    fn repeat_threshold_millis(long_press_threshold_millis: u16) -> u16 {
        (long_press_threshold_millis / 3).max(1)
    }
}

impl ButtonBehaviour for HoodButton2 {
    open spec fn selects_on_press() -> bool {
        true
    }

    open spec fn hold_action(repeat_count: nat) -> HoldAction {
        HoldAction::EmitAndReset
    }

    open spec fn selects_on_release(hold_was_emitted: bool) -> bool {
        !hold_was_emitted
    }

    open spec fn repeat_threshold(long_press_threshold: nat) -> nat {
        if long_press_threshold < 5 {
            1
        } else {
            long_press_threshold / 5
        }
    }

    fn emit_select_on_hold() -> bool {
        true
    }

    fn on_hold(_repeat_count: u16) -> HoldAction {
        HoldAction::EmitAndReset
    }

    fn emit_select_on_release(hold_was_emitted: bool) -> bool {
        !hold_was_emitted
    }

    /// Repeats fire at 1/5 of the initial hold threshold, and never at once.
    fn repeat_threshold_millis(long_press_threshold_millis: u16) -> u16 {
        (long_press_threshold_millis / 5).max(1)
    }
}

impl ButtonBehaviour for PushButton {
    open spec fn selects_on_press() -> bool {
        false
    }

    open spec fn hold_action(repeat_count: nat) -> HoldAction {
        HoldAction::EmitAndWaitRelease
    }

    open spec fn selects_on_release(hold_was_emitted: bool) -> bool {
        true
    }

    open spec fn repeat_threshold(long_press_threshold: nat) -> nat {
        long_press_threshold
    }

    fn emit_select_on_hold() -> bool {
        false
    }

    fn on_hold(_repeat_count: u16) -> HoldAction {
        HoldAction::EmitAndWaitRelease
    }

    fn emit_select_on_release(_hold_was_emitted: bool) -> bool {
        true
    }

    fn repeat_threshold_millis(long_press_threshold_millis: u16) -> u16 {
        long_press_threshold_millis
    }
}

/// The push-button of an encoder and the free-standing one never select early, fire one hold
/// per press whatever came before, and select at every release.
pub proof fn single_hold_rules(repeat_count: nat, hold_was_emitted: bool)
    ensures
        !RotaryButton::selects_on_press(),
        RotaryButton::hold_action(repeat_count) is EmitAndWaitRelease,
        RotaryButton::selects_on_release(hold_was_emitted),
        !PushButton::selects_on_press(),
        PushButton::hold_action(repeat_count) is EmitAndWaitRelease,
        PushButton::selects_on_release(hold_was_emitted),
{
}

/// Both hood buttons go on repeating after every hold and swallow the release of a press that
/// has had one; the second one selects early, the first one does not.
pub proof fn repeating_rules(repeat_count: nat, hold_was_emitted: bool)
    ensures
        !HoodButton1::selects_on_press(),
        HoodButton1::hold_action(repeat_count) is EmitAndReset,
        HoodButton1::selects_on_release(hold_was_emitted) <==> !hold_was_emitted,
        HoodButton2::selects_on_press(),
        HoodButton2::hold_action(repeat_count) is EmitAndReset,
        HoodButton2::selects_on_release(hold_was_emitted) <==> !hold_was_emitted,
{
}

/// The repeat thresholds: a third and a fifth of the long-press threshold, rounded down, but
/// at least one tick; the single-hold buttons keep the long-press threshold itself.
pub proof fn repeat_threshold_rules(long_press: nat)
    ensures
        RotaryButton::repeat_threshold(long_press) == long_press,
        PushButton::repeat_threshold(long_press) == long_press,
        HoodButton1::repeat_threshold(long_press) >= 1,
        long_press < 3 ==> HoodButton1::repeat_threshold(long_press) == 1,
        long_press >= 3 ==> 3 * HoodButton1::repeat_threshold(long_press) <= long_press < 3 * (
        HoodButton1::repeat_threshold(long_press) + 1),
        HoodButton2::repeat_threshold(long_press) >= 1,
        long_press < 5 ==> HoodButton2::repeat_threshold(long_press) == 1,
        long_press >= 5 ==> 5 * HoodButton2::repeat_threshold(long_press) <= long_press < 5 * (
        HoodButton2::repeat_threshold(long_press) + 1),
{
}

} // verus!
