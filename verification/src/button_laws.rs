//! What every button guarantees over whole runs of samples.

use crate::behaviour::{
    ButtonBehaviour, HoldAction, HoodButton1, HoodButton2, PushButton, RotaryButton,
};
use crate::button::{Button, ButtonView};
use crate::types::{InputEvent, Phase};
use vstd::prelude::*;

verus! {

/// How many of the samples are at the given level.
pub open spec fn count_at(samples: Seq<bool>, low: bool) -> nat
    decreases samples.len(),
{
    if samples.len() == 0 {
        0
    } else {
        count_at(samples.drop_last(), low) + if samples.last() == low {
            1nat
        } else {
            0
        }
    }
}

/// The samples of all rounds, one round after the other.
pub open spec fn all_samples(rounds: Seq<Seq<bool>>) -> Seq<bool>
    decreases rounds.len(),
{
    if rounds.len() == 0 {
        Seq::empty()
    } else {
        all_samples(rounds.drop_last()) + rounds.last()
    }
}

impl ButtonView {
    /// The button after one update for each of the samples, without a poll between them.
    pub open spec fn updated_all<BB: ButtonBehaviour>(self, samples: Seq<bool>) -> ButtonView
        decreases samples.len(),
    {
        if samples.len() == 0 {
            self
        } else {
            self.updated_all::<BB>(samples.drop_last()).updated::<BB>(samples.last())
        }
    }

    /// Whether the debounced level is pressed after every one of the samples.
    pub open spec fn stays_pressed<BB: ButtonBehaviour>(self, samples: Seq<bool>) -> bool
        decreases samples.len(),
    {
        samples.len() == 0 || (self.stays_pressed::<BB>(samples.drop_last()) && self.updated_all::<
            BB,
        >(samples).pressed)
    }

    /// The button after rounds of updates, each followed by one poll.
    pub open spec fn after_rounds<BB: ButtonBehaviour>(self, rounds: Seq<Seq<bool>>) -> ButtonView
        decreases rounds.len(),
    {
        if rounds.len() == 0 {
            self
        } else {
            self.after_rounds::<BB>(rounds.drop_last()).updated_all::<BB>(rounds.last()).polled()
        }
    }

    /// The button after one update for each of the samples, with a poll after each of them.
    pub open spec fn watched<BB: ButtonBehaviour>(self, samples: Seq<bool>) -> ButtonView
        decreases samples.len(),
    {
        if samples.len() == 0 {
            self
        } else {
            self.watched::<BB>(samples.drop_last()).updated::<BB>(samples.last()).polled()
        }
    }

    /// The event that the last of these polls returns.
    pub open spec fn reported<BB: ButtonBehaviour>(self, samples: Seq<bool>) -> InputEvent
        recommends
            samples.len() > 0,
    {
        self.watched::<BB>(samples.drop_last()).updated::<BB>(samples.last()).pending
    }

    /// Whether the debounced level is pressed after every one of the samples, with polls
    /// between them.
    pub open spec fn watched_pressed<BB: ButtonBehaviour>(self, samples: Seq<bool>) -> bool
        decreases samples.len(),
    {
        samples.len() == 0 || (self.watched_pressed::<BB>(samples.drop_last()) && self.watched::<
            BB,
        >(samples).pressed)
    }

    /// The event that waits after `ticks` more ticks of counting without a hold.
    pub open spec fn pending_after_ticks<BB: ButtonBehaviour>(self, ticks: nat) -> InputEvent {
        if BB::selects_on_press() && self.hold_count == 0 && self.phase == Phase::Counting(0)
            && ticks > 0 {
            InputEvent::Select
        } else {
            self.pending
        }
    }
}

/// An update keeps the invariant, and the settings with it.
pub proof fn invariant_kept_by_update<BB: ButtonBehaviour>(button: ButtonView, low: bool)
    requires
        button.wf::<BB>(),
    ensures
        button.updated::<BB>(low).wf::<BB>(),
        button.updated::<BB>(low).debounce_threshold == button.debounce_threshold,
        button.updated::<BB>(low).long_press_threshold == button.long_press_threshold,
        button.updated::<BB>(low).refresh_time == button.refresh_time,
{
}

/// Any run of updates keeps the invariant, and the settings with it.
pub proof fn invariant_kept_by_updates<BB: ButtonBehaviour>(
    button: ButtonView,
    samples: Seq<bool>,
)
    requires
        button.wf::<BB>(),
    ensures
        button.updated_all::<BB>(samples).wf::<BB>(),
        button.updated_all::<BB>(samples).debounce_threshold == button.debounce_threshold,
        button.updated_all::<BB>(samples).long_press_threshold == button.long_press_threshold,
        button.updated_all::<BB>(samples).refresh_time == button.refresh_time,
    decreases samples.len(),
{
    if samples.len() > 0 {
        invariant_kept_by_updates::<BB>(button, samples.drop_last());
        invariant_kept_by_update::<BB>(
            button.updated_all::<BB>(samples.drop_last()),
            samples.last(),
        );
    }
}

/// A poll keeps the invariant.
pub proof fn invariant_kept_by_poll<BB: ButtonBehaviour>(button: ButtonView)
    requires
        button.wf::<BB>(),
    ensures
        button.polled().wf::<BB>(),
{
}

/// The lifecycle only moves forward: a press begins by counting, a press that waits for its
/// release goes nowhere but to idle, and a release ends the press wherever it stands. The count
/// of holds is cleared by the release and by nothing else.
pub proof fn lifecycle_moves_forward<BB: ButtonBehaviour>(button: ButtonView, low: bool)
    requires
        button.wf::<BB>(),
    ensures
        ({
            let next = button.updated::<BB>(low);
            &&& button.phase is Idle ==> next.phase is Idle || next.phase == Phase::Counting(0)
            &&& button.phase is WaitingRelease ==> next.phase is WaitingRelease
                || next.phase is Idle
            &&& next.phase is WaitingRelease ==> button.phase !is Idle
            &&& !next.pressed ==> next.phase is Idle && next.hold_count == 0
            &&& next.pressed ==> button.hold_count <= next.hold_count <= button.hold_count + 1
        }),
{
}

/// One low sample never lowers the integrator, one high sample never raises it, and neither
/// moves it by more than its share of the refresh time.
proof fn integrator_moves_by_its_share(counter: nat, low: bool, refresh: nat, threshold: nat)
    requires
        counter <= threshold,
    ensures
        low ==> counter <= crate::button::integrated(
            counter,
            low,
            refresh,
            threshold,
        ) <= counter + refresh,
        !low ==> counter - refresh / 2 <= crate::button::integrated(
            counter,
            low,
            refresh,
            threshold,
        ) <= counter,
{
}

/// Glitch rejection: while the low samples add up to less than the debounce threshold, however
/// they are spread, a released button stays released and no event comes of them.
pub proof fn glitches_are_rejected<BB: ButtonBehaviour>(button: ButtonView, samples: Seq<bool>)
    requires
        button.wf::<BB>(),
        !button.pressed,
        button.debounce_counter + count_at(samples, true) * button.refresh_time
            < button.debounce_threshold,
    ensures
        !button.updated_all::<BB>(samples).pressed,
        button.updated_all::<BB>(samples).phase is Idle,
        button.updated_all::<BB>(samples).pending == button.pending,
        button.updated_all::<BB>(samples).debounce_counter <= button.debounce_counter + count_at(
            samples,
            true,
        ) * button.refresh_time,
    decreases samples.len(),
{
    if samples.len() > 0 {
        let before = samples.drop_last();
        let c = count_at(before, true);
        let r = button.refresh_time;
        assert((c + 1) * r == c * r + r) by (nonlinear_arith);
        glitches_are_rejected::<BB>(button, before);
        invariant_kept_by_updates::<BB>(button, before);
        let mid = button.updated_all::<BB>(before);
        integrator_moves_by_its_share(
            mid.debounce_counter,
            samples.last(),
            r,
            mid.debounce_threshold,
        );
    } else {
        assert(0 * button.refresh_time == 0);
    }
}

/// Dropouts are rejected too: while the high samples together cannot bring the integrator
/// down to zero, a pressed button stays pressed throughout.
pub proof fn dropouts_are_rejected<BB: ButtonBehaviour>(button: ButtonView, samples: Seq<bool>)
    requires
        button.wf::<BB>(),
        button.pressed,
        count_at(samples, false) * (button.refresh_time / 2) < button.debounce_counter,
    ensures
        button.stays_pressed::<BB>(samples),
        button.updated_all::<BB>(samples).pressed,
        button.updated_all::<BB>(samples).debounce_counter + count_at(samples, false) * (
        button.refresh_time / 2) >= button.debounce_counter,
    decreases samples.len(),
{
    if samples.len() > 0 {
        let before = samples.drop_last();
        let c = count_at(before, false);
        let r = button.refresh_time / 2;
        assert((c + 1) * r == c * r + r) by (nonlinear_arith);
        dropouts_are_rejected::<BB>(button, before);
        invariant_kept_by_updates::<BB>(button, before);
        let mid = button.updated_all::<BB>(before);
        integrator_moves_by_its_share(
            mid.debounce_counter,
            samples.last(),
            mid.refresh_time,
            mid.debounce_threshold,
        );
    } else {
        assert(0 * (button.refresh_time / 2) == 0);
    }
}

/// A steady press is recognised: under low samples the integrator climbs by the refresh time
/// each, up to the threshold, and the button is pressed as soon as it is there.
pub proof fn steady_press_is_recognised<BB: ButtonBehaviour>(
    button: ButtonView,
    samples: Seq<bool>,
)
    requires
        button.wf::<BB>(),
        samples.len() > 0,
        forall|i: int| 0 <= i < samples.len() ==> samples[i],
    ensures
        ({
            let reached = button.debounce_counter + samples.len() * button.refresh_time;
            let after = button.updated_all::<BB>(samples);
            &&& after.debounce_counter == if reached < button.debounce_threshold {
                reached
            } else {
                button.debounce_threshold
            }
            &&& reached >= button.debounce_threshold ==> after.pressed
            &&& reached < button.debounce_threshold ==> after.pressed == button.pressed
        }),
    decreases samples.len(),
{
    let before = samples.drop_last();
    let c = before.len();
    let r = button.refresh_time;
    assert((c + 1) * r == c * r + r) by (nonlinear_arith);
    invariant_kept_by_updates::<BB>(button, before);
    if before.len() > 0 {
        steady_press_is_recognised::<BB>(button, before);
    } else {
        assert(0 * r == 0);
    }
    assert(samples.last());
}

/// A steady release is recognised: under high samples the integrator falls by half the
/// refresh time each, down to zero, and the button is released as soon as it is there, unless
/// the debounce threshold is zero as well.
pub proof fn steady_release_is_recognised<BB: ButtonBehaviour>(
    button: ButtonView,
    samples: Seq<bool>,
)
    requires
        button.wf::<BB>(),
        samples.len() > 0,
        forall|i: int| 0 <= i < samples.len() ==> !samples[i],
    ensures
        ({
            let lost = samples.len() * (button.refresh_time / 2);
            let after = button.updated_all::<BB>(samples);
            &&& after.debounce_counter == if lost < button.debounce_counter {
                button.debounce_counter - lost
            } else {
                0
            }
            &&& lost >= button.debounce_counter && button.debounce_threshold > 0 ==> !after.pressed
                && after.phase is Idle
            &&& lost < button.debounce_counter ==> after.pressed == button.pressed
        }),
    decreases samples.len(),
{
    let before = samples.drop_last();
    let c = before.len();
    let r = button.refresh_time / 2;
    assert((c + 1) * r == c * r + r) by (nonlinear_arith);
    invariant_kept_by_updates::<BB>(button, before);
    invariant_kept_by_updates::<BB>(button, samples);
    if before.len() > 0 {
        steady_release_is_recognised::<BB>(button, before);
    } else {
        assert(0 * r == 0);
    }
    assert(!samples.last());
}

/// A hold fires exactly at its threshold. A press that has counted `ticks` ticks counts on, one
/// tick per update, until the count is at the threshold; the update after that fires the hold,
/// after which the behaviour decides whether to count anew or to wait for the release.
///
/// This is true of the first hold, at the long-press threshold, and of every later one, at the
/// repeat threshold.
pub proof fn hold_fires_at_its_threshold<BB: ButtonBehaviour>(
    button: ButtonView,
    ticks: nat,
    samples: Seq<bool>,
)
    requires
        button.wf::<BB>(),
        button.phase == Phase::Counting(ticks),
        button.stays_pressed::<BB>(samples),
        ticks + samples.len() <= button.hold_threshold::<BB>() + 1,
    ensures
        ({
            let after = button.updated_all::<BB>(samples);
            let pending = button.pending_after_ticks::<BB>(samples.len());
            if ticks + samples.len() <= button.hold_threshold::<BB>() {
                &&& after.phase == Phase::Counting(ticks + samples.len())
                &&& after.hold_count == button.hold_count
                &&& after.pending == pending
            } else {
                &&& after.phase == match BB::hold_action(button.hold_count) {
                    HoldAction::EmitAndWaitRelease => Phase::WaitingRelease,
                    HoldAction::EmitAndReset => Phase::Counting(0),
                }
                &&& after.hold_count == button.hold_count + 1
                &&& after.pending == if pending is NoEvent {
                    InputEvent::SelectHold
                } else {
                    pending
                }
            }
        }),
    decreases samples.len(),
{
    if samples.len() > 0 {
        hold_fires_at_its_threshold::<BB>(button, ticks, samples.drop_last());
        invariant_kept_by_updates::<BB>(button, samples.drop_last());
    }
}

/// A short press selects once: a press that is released before its hold leaves exactly one
/// `Select` to be polled, whether the behaviour emits it at the start or at the release.
pub proof fn short_press_selects<BB: ButtonBehaviour>(
    button: ButtonView,
    press: bool,
    during: Seq<bool>,
    release: bool,
)
    requires
        button.wf::<BB>(),
        button.phase is Idle,
        button.pending is NoEvent,
        BB::selects_on_press() || BB::selects_on_release(false),
        button.sampled(press).pressed,
        button.updated::<BB>(press).stays_pressed::<BB>(during),
        during.len() <= button.long_press_threshold,
        !button.updated::<BB>(press).updated_all::<BB>(during).sampled(release).pressed,
    ensures
        ({
            let after = button.updated::<BB>(press).updated_all::<BB>(during).updated::<BB>(
                release,
            );
            &&& after.pending is Select
            &&& after.phase is Idle
            &&& after.hold_count == 0
        }),
{
    let down = button.updated::<BB>(press);
    invariant_kept_by_update::<BB>(button, press);
    hold_fires_at_its_threshold::<BB>(down, 0, during);
}

/// A long press holds: with a behaviour that does not select at the start, a press that lasts
/// one tick beyond the long-press threshold leaves `SelectHold` to be polled, and nothing
/// before that.
pub proof fn long_press_holds<BB: ButtonBehaviour>(
    button: ButtonView,
    press: bool,
    during: Seq<bool>,
)
    requires
        button.wf::<BB>(),
        button.phase is Idle,
        button.pending is NoEvent,
        !BB::selects_on_press(),
        button.sampled(press).pressed,
        button.updated::<BB>(press).stays_pressed::<BB>(during),
        during.len() == button.long_press_threshold + 1,
    ensures
        ({
            let down = button.updated::<BB>(press);
            let after = down.updated_all::<BB>(during);
            &&& down.updated_all::<BB>(during.drop_last()).pending is NoEvent
            &&& after.pending is SelectHold
            &&& after.hold_count == 1
        }),
{
    let down = button.updated::<BB>(press);
    invariant_kept_by_update::<BB>(button, press);
    hold_fires_at_its_threshold::<BB>(down, 0, during.drop_last());
    hold_fires_at_its_threshold::<BB>(down, 0, during);
}

/// After a hold that waits for the release, nothing happens until the release.
pub proof fn waiting_is_silent<BB: ButtonBehaviour>(button: ButtonView, samples: Seq<bool>)
    requires
        button.wf::<BB>(),
        button.phase is WaitingRelease,
        button.stays_pressed::<BB>(samples),
    ensures
        button.updated_all::<BB>(samples).phase is WaitingRelease,
        button.updated_all::<BB>(samples).hold_count == button.hold_count,
        button.updated_all::<BB>(samples).pending == button.pending,
    decreases samples.len(),
{
    if samples.len() > 0 {
        waiting_is_silent::<BB>(button, samples.drop_last());
    }
}

/// A release after a hold selects only if the behaviour says so: with a behaviour that
/// swallows it the pending event stays as it was, and with one that wants it `Select` waits
/// unless another event still does. A release while counting never adds to the `Select` that
/// the start of the press has had.
pub proof fn release_after_hold<BB: ButtonBehaviour>(button: ButtonView, release: bool)
    requires
        button.wf::<BB>(),
        button.hold_count > 0,
        !button.sampled(release).pressed,
    ensures
        !BB::selects_on_release(true) ==> button.updated::<BB>(release).pending == button.pending,
        button.phase is Counting && BB::selects_on_press() ==> button.updated::<BB>(release).pending
            == button.pending,
        button.pending !is NoEvent ==> button.updated::<BB>(release).pending == button.pending,
        BB::selects_on_release(true) && (button.phase is WaitingRelease || !BB::selects_on_press())
            && button.pending is NoEvent ==> button.updated::<BB>(release).pending is Select,
{
}

/// A behaviour that selects at the start of a press does not select again when the press is
/// released while it counts.
pub proof fn early_select_is_not_repeated<BB: ButtonBehaviour>(
    button: ButtonView,
    ticks: nat,
    release: bool,
)
    requires
        button.wf::<BB>(),
        BB::selects_on_press(),
        button.phase == Phase::Counting(ticks),
        ticks > 0 || button.hold_count > 0,
        !button.sampled(release).pressed,
    ensures
        button.updated::<BB>(release).pending == button.pending,
{
}

/// An update never loses a pending event, except that the `Select` of a behaviour that selects
/// at the start of a press takes its place.
pub proof fn pending_event_is_kept<BB: ButtonBehaviour>(button: ButtonView, low: bool)
    requires
        button.wf::<BB>(),
        button.pending !is NoEvent,
    ensures
        ({
            let next = button.updated::<BB>(low);
            ||| next.pending == button.pending
            ||| BB::selects_on_press() && next.pending is Select
        }),
{
}

/// A released button that stays released produces no event.
pub proof fn idle_is_silent<BB: ButtonBehaviour>(button: ButtonView, low: bool)
    requires
        button.wf::<BB>(),
        button.phase is Idle,
    ensures
        button.updated::<BB>(low).pending == button.pending,
{
}

/// A poll takes the event and nothing else: the updates that follow go as they would have gone
/// without it, but for what is pending.
pub proof fn polling_does_not_disturb<BB: ButtonBehaviour>(button: ButtonView, samples: Seq<bool>)
    ensures
        button.polled().pending is NoEvent,
        button.polled().updated_all::<BB>(samples).polled() == button.updated_all::<BB>(
            samples,
        ).polled(),
    decreases samples.len(),
{
    if samples.len() > 0 {
        let before = samples.drop_last();
        polling_does_not_disturb::<BB>(button, before);
        let with = button.polled().updated_all::<BB>(before);
        let without = button.updated_all::<BB>(before);
        assert(with == (ButtonView { pending: with.pending, ..without }));
    }
}

/// Updates for two batches of samples, one after the other, are updates for both together.
pub(crate) proof fn updates_concatenate<BB: ButtonBehaviour>(
    button: ButtonView,
    first: Seq<bool>,
    second: Seq<bool>,
)
    ensures
        button.updated_all::<BB>(first + second) == button.updated_all::<BB>(first).updated_all::<
            BB,
        >(second),
    decreases second.len(),
{
    if second.len() > 0 {
        updates_concatenate::<BB>(button, first, second.drop_last());
        assert((first + second).drop_last() =~= first + second.drop_last());
    } else {
        assert(first + second =~= first);
    }
}

/// Nor do many polls: with any number of them between the samples, everything but what is
/// pending goes as it would have gone without them.
pub proof fn polls_between_do_not_disturb<BB: ButtonBehaviour>(
    button: ButtonView,
    rounds: Seq<Seq<bool>>,
)
    ensures
        button.after_rounds::<BB>(rounds).polled() == button.updated_all::<BB>(
            all_samples(rounds),
        ).polled(),
    decreases rounds.len(),
{
    if rounds.len() > 0 {
        let before = rounds.drop_last();
        let alone = button.updated_all::<BB>(all_samples(before));
        polls_between_do_not_disturb::<BB>(button, before);
        polling_does_not_disturb::<BB>(button.after_rounds::<BB>(before), rounds.last());
        polling_does_not_disturb::<BB>(alone, rounds.last());
        updates_concatenate::<BB>(button, all_samples(before), rounds.last());
    }
}

/// A behaviour that always waits for the release fires at most one hold per press: it never
/// consults its repeat threshold, and its hold counter never runs out.
pub proof fn waiting_behaviour_holds_once<BB: ButtonBehaviour>(button: ButtonView, low: bool)
    requires
        button.wf::<BB>(),
        forall|count: nat| BB::hold_action(count) is EmitAndWaitRelease,
    ensures
        button.hold_count <= 1,
        button.phase is Counting ==> button.hold_threshold::<BB>() == button.long_press_threshold,
        button.sampled(low).fires_hold::<BB>() ==> button.hold_count == 0,
{
    assert(BB::hold_action(0) is EmitAndWaitRelease);
}

/// Of samples that are all at one level, all are at that level and none at the other.
proof fn count_at_one_level(samples: Seq<bool>, low: bool)
    requires
        forall|i: int| 0 <= i < samples.len() ==> samples[i] == low,
    ensures
        count_at(samples, low) == samples.len(),
        count_at(samples, !low) == 0,
    decreases samples.len(),
{
    if samples.len() > 0 {
        count_at_one_level(samples.drop_last(), low);
        assert(samples.last() == low);
    }
}

/// Two batches together have as many samples at a level as each for itself.
proof fn count_at_concatenates(first: Seq<bool>, second: Seq<bool>, low: bool)
    ensures
        count_at(first + second, low) == count_at(first, low) + count_at(second, low),
    decreases second.len(),
{
    if second.len() > 0 {
        count_at_concatenates(first, second.drop_last(), low);
        assert((first + second).drop_last() =~= first + second.drop_last());
    } else {
        assert(first + second =~= first);
    }
}

/// Pressing and releasing selects: from rest, the low samples that just settle a press, then
/// more low samples, then the high samples that just settle the release, then more high
/// samples leave `Select` to be polled, if the release settles before the hold fires.
pub proof fn press_and_release_selects<BB: ButtonBehaviour>(
    button: ButtonView,
    settling: Seq<bool>,
    down: Seq<bool>,
    rising: Seq<bool>,
    up: Seq<bool>,
)
    requires
        button.wf::<BB>(),
        button.debounce_threshold > 0,
        button.phase is Idle,
        button.pending is NoEvent,
        BB::selects_on_press() || BB::selects_on_release(false),
        forall|i: int| 0 <= i < settling.len() ==> settling[i],
        forall|i: int| 0 <= i < down.len() ==> down[i],
        forall|i: int| 0 <= i < rising.len() ==> !rising[i],
        forall|i: int| 0 <= i < up.len() ==> !up[i],
        button.debounce_counter + (settling.len() - 1) * button.refresh_time
            < button.debounce_threshold <= button.debounce_counter + settling.len()
            * button.refresh_time,
        (rising.len() - 1) * (button.refresh_time / 2) < button.debounce_threshold <= rising.len()
            * (button.refresh_time / 2),
        down.len() + rising.len() <= button.long_press_threshold + 1,
    ensures
        ({
            let pressed = button.updated_all::<BB>(settling).updated_all::<BB>(down);
            let released = pressed.updated_all::<BB>(rising).updated_all::<BB>(up);
            &&& pressed.pressed
            &&& !released.pressed
            &&& released.phase is Idle
            &&& released.pending is Select
        }),
{
    let refresh = button.refresh_time;
    let threshold = button.debounce_threshold;
    assert(settling.len() > 0 && rising.len() > 0) by {
        assert(0 * refresh == 0);
        assert(0 * (refresh / 2) == 0);
    }

    // Until the last settling sample the button rests.
    let before = settling.drop_last();
    count_at_one_level(before, true);
    glitches_are_rejected::<BB>(button, before);
    invariant_kept_by_updates::<BB>(button, before);
    let resting = button.updated_all::<BB>(before);

    // That sample settles the press, with the integrator at the threshold.
    steady_press_is_recognised::<BB>(button, settling);
    invariant_kept_by_updates::<BB>(button, settling);
    let pressed = button.updated_all::<BB>(settling);
    assert(settling.last());

    // The press stays settled until the last rising sample.
    let falling = rising.drop_last();
    let during = down + falling;
    count_at_one_level(down, true);
    count_at_one_level(falling, false);
    count_at_concatenates(down, falling, false);
    dropouts_are_rejected::<BB>(pressed, during);
    updates_concatenate::<BB>(pressed, down, falling);
    if down.len() > 0 {
        assert(down.len() * refresh >= 0) by (nonlinear_arith);
        steady_press_is_recognised::<BB>(pressed, down);
    }
    invariant_kept_by_updates::<BB>(pressed, down);
    let held = pressed.updated_all::<BB>(down);

    // That one settles the release.
    steady_release_is_recognised::<BB>(held, rising);
    invariant_kept_by_updates::<BB>(held, rising);
    assert(!rising.last());
    short_press_selects::<BB>(resting, true, during, false);

    // What follows changes nothing.
    let released = held.updated_all::<BB>(rising);
    count_at_one_level(up, false);
    assert(0 * refresh == 0);
    glitches_are_rejected::<BB>(released, up);
}

/// Under low samples a pressed button stays pressed, and has fired a hold or counted every
/// sample; while nothing but holds happens, what waits is nothing or `SelectHold`.
proof fn lows_lead_to_hold<BB: ButtonBehaviour>(button: ButtonView, lows: Seq<bool>)
    requires
        button.wf::<BB>(),
        !BB::selects_on_press(),
        button.pending == if button.hold_count > 0 {
            InputEvent::SelectHold
        } else {
            InputEvent::NoEvent
        },
        forall|i: int| 0 <= i < lows.len() ==> lows[i],
    ensures
        ({
            let after = button.updated_all::<BB>(lows);
            &&& after.pending == if after.hold_count > 0 {
                InputEvent::SelectHold
            } else {
                InputEvent::NoEvent
            }
            &&& button.pressed ==> after.pressed
            &&& button.pressed && after.hold_count == 0 ==> (after.phase matches Phase::Counting(
                ticks,
            ) && ticks >= lows.len())
        }),
    decreases lows.len(),
{
    if lows.len() > 0 {
        lows_lead_to_hold::<BB>(button, lows.drop_last());
        invariant_kept_by_updates::<BB>(button, lows.drop_last());
        assert(lows.last());
    }
}

/// Holding down holds: from rest, with a behaviour that does not select at the start, enough
/// low samples to settle a press and then more than the long-press threshold of them leave
/// `SelectHold` to be polled.
pub proof fn holding_down_holds<BB: ButtonBehaviour>(
    button: ButtonView,
    settle: Seq<bool>,
    hold: Seq<bool>,
)
    requires
        button.wf::<BB>(),
        button.phase is Idle,
        button.pending is NoEvent,
        !BB::selects_on_press(),
        settle.len() > 0,
        forall|i: int| 0 <= i < settle.len() ==> settle[i],
        forall|i: int| 0 <= i < hold.len() ==> hold[i],
        button.debounce_counter + settle.len() * button.refresh_time >= button.debounce_threshold,
        hold.len() > button.long_press_threshold,
    ensures
        button.updated_all::<BB>(settle).updated_all::<BB>(hold).pending is SelectHold,
        button.updated_all::<BB>(settle).updated_all::<BB>(hold).pressed,
{
    let down = button.updated_all::<BB>(settle);
    invariant_kept_by_updates::<BB>(button, settle);
    steady_press_is_recognised::<BB>(button, settle);
    lows_lead_to_hold::<BB>(button, settle);
    lows_lead_to_hold::<BB>(down, hold);
    invariant_kept_by_updates::<BB>(down, hold);
}

/// A reading counts as what it says; a failed one counts as high.
pub proof fn readings_are_taken_at_their_word<E>(low: bool, error: E)
    ensures
        crate::button::reads_low(Ok::<bool, E>(low)) == low,
        !crate::button::reads_low(Err::<bool, E>(error)),
{
}

/// A button starts with the settings it is given, released, at rest and with nothing pending.
pub proof fn new_button_has_its_settings(
    debounce_threshold: nat,
    long_press_threshold: nat,
    refresh_time: nat,
)
    ensures
        ({
            let button = ButtonView::initial(debounce_threshold, long_press_threshold, refresh_time);
            &&& button.debounce_threshold == debounce_threshold
            &&& button.long_press_threshold == long_press_threshold
            &&& button.refresh_time == refresh_time
            &&& button.debounce_counter == 0
            &&& !button.pressed
            &&& button.phase is Idle
            &&& button.pending is NoEvent
            &&& button.hold_count == 0
        }),
{
}

/// An update is refused for one reason only: it would count more holds than the counter holds.
pub proof fn update_is_refused_only_at_the_counters_end<BB: ButtonBehaviour>(
    button: Button<BB>,
    low: bool,
)
    requires
        button.wf(),
        button@.hold_count <= u16::MAX,
    ensures
        button.update_ready(low) <==> button@.updated::<BB>(low).hold_count <= u16::MAX,
{
}

/// A poll takes the pending event and touches nothing else.
pub proof fn poll_takes_only_the_event(button: ButtonView)
    ensures
        button.polled().pending is NoEvent,
        button.polled().debounce_threshold == button.debounce_threshold,
        button.polled().long_press_threshold == button.long_press_threshold,
        button.polled().refresh_time == button.refresh_time,
        button.polled().debounce_counter == button.debounce_counter,
        button.polled().pressed == button.pressed,
        button.polled().phase == button.phase,
        button.polled().hold_count == button.hold_count,
{
}

/// The integrator moves up by the whole refresh time and down by half of it, and is stopped by
/// the threshold and by zero alone; the level follows it at both ends and keeps between them.
pub proof fn level_has_hysteresis<BB: ButtonBehaviour>(button: ButtonView, low: bool)
    requires
        button.wf::<BB>(),
    ensures
        ({
            let next = button.updated::<BB>(low);
            let rise = next.debounce_counter - button.debounce_counter;
            &&& low ==> 0 <= rise <= button.refresh_time
            &&& low && rise < button.refresh_time ==> next.debounce_counter
                == button.debounce_threshold
            &&& !low ==> 0 <= -rise <= button.refresh_time / 2
            &&& !low && -rise < button.refresh_time / 2 ==> next.debounce_counter == 0
            &&& next.debounce_counter <= button.debounce_threshold
            &&& next.debounce_counter == button.debounce_threshold ==> next.pressed
            &&& next.debounce_counter == 0 && button.debounce_threshold > 0 ==> !next.pressed
            &&& 0 < next.debounce_counter < button.debounce_threshold ==> next.pressed
                == button.pressed
        }),
{
}

/// A button at rest begins to count from zero when it is pressed, and rests on otherwise; it
/// has fired no hold, and what is pending stays.
pub proof fn rest_ends_with_a_press<BB: ButtonBehaviour>(button: ButtonView, low: bool)
    requires
        button.wf::<BB>(),
        button.phase is Idle,
    ensures
        ({
            let next = button.updated::<BB>(low);
            &&& next.pressed ==> next.phase == Phase::Counting(0)
            &&& !next.pressed ==> next.phase is Idle
            &&& next.hold_count == 0
            &&& next.pending == button.pending
        }),
{
}

/// A counted press gains one tick per update until it has as many as its threshold, which is
/// the long-press threshold before the first hold and the repeat threshold after it; then it
/// fires a hold. The first tick of a press brings the early `Select`, which replaces what was
/// pending; a hold brings `SelectHold` unless something is pending.
pub proof fn press_counts_to_its_hold<BB: ButtonBehaviour>(
    button: ButtonView,
    low: bool,
    ticks: nat,
    threshold: nat,
)
    requires
        button.wf::<BB>(),
        button.phase == Phase::Counting(ticks),
        button.hold_count == 0 ==> threshold == button.long_press_threshold,
        button.hold_count > 0 ==> threshold == BB::repeat_threshold(button.long_press_threshold),
        button.updated::<BB>(low).pressed,
    ensures
        ({
            let next = button.updated::<BB>(low);
            let early = BB::selects_on_press() && ticks == 0 && button.hold_count == 0;
            &&& ticks <= threshold
            &&& ticks < threshold ==> next.phase == Phase::Counting(ticks + 1) && next.hold_count
                == button.hold_count
            &&& ticks == threshold ==> next.hold_count == button.hold_count + 1
            &&& ticks == threshold && BB::hold_action(button.hold_count) is EmitAndReset
                ==> next.phase == Phase::Counting(0)
            &&& ticks == threshold && BB::hold_action(button.hold_count) is EmitAndWaitRelease
                ==> next.phase is WaitingRelease
            &&& early ==> next.pending is Select
            &&& !early && (ticks < threshold || button.pending !is NoEvent) ==> next.pending
                == button.pending
            &&& !early && ticks == threshold && button.pending is NoEvent ==> next.pending
                is SelectHold
        }),
{
}

/// A release of a counted press ends it. It brings `Select` if the behaviour wants one and has
/// not had it at the start of the press; on its very first tick, a press that selects early
/// still does.
pub proof fn release_of_a_counted_press<BB: ButtonBehaviour>(
    button: ButtonView,
    low: bool,
    ticks: nat,
)
    requires
        button.wf::<BB>(),
        button.phase == Phase::Counting(ticks),
        !button.updated::<BB>(low).pressed,
    ensures
        ({
            let next = button.updated::<BB>(low);
            let early = BB::selects_on_press() && ticks == 0 && button.hold_count == 0;
            let wanted = BB::selects_on_release(button.hold_count > 0) && !BB::selects_on_press();
            &&& next.phase is Idle
            &&& next.hold_count == 0
            &&& early ==> next.pending is Select
            &&& !early && wanted && button.pending is NoEvent ==> next.pending is Select
            &&& !early && (!wanted || button.pending !is NoEvent) ==> next.pending
                == button.pending
        }),
{
}

/// A press that waits for its release does nothing until then; the release ends it and brings
/// `Select` if the behaviour wants one after a hold and nothing is pending.
pub proof fn release_of_a_waiting_press<BB: ButtonBehaviour>(button: ButtonView, low: bool)
    requires
        button.wf::<BB>(),
        button.phase is WaitingRelease,
    ensures
        ({
            let next = button.updated::<BB>(low);
            let wanted = BB::selects_on_release(true) && button.pending is NoEvent;
            &&& next.pressed ==> next.phase is WaitingRelease && next.hold_count
                == button.hold_count && next.pending == button.pending
            &&& !next.pressed ==> next.phase is Idle && next.hold_count == 0
            &&& !next.pressed && wanted ==> next.pending is Select
            &&& !next.pressed && !wanted ==> next.pending == button.pending
        }),
{
}

/// What the release of a press reports, with everything before it polled: the single-hold
/// buttons always select; the first hood button selects only without a hold; the second one
/// only where its early `Select` is still due.
pub proof fn what_a_release_reports(button: ButtonView, low: bool)
    requires
        button.pending is NoEvent,
        button.phase !is Idle,
    ensures
        button.wf::<RotaryButton>() && !button.updated::<RotaryButton>(low).pressed
            ==> button.updated::<RotaryButton>(low).pending is Select,
        button.wf::<PushButton>() && !button.updated::<PushButton>(low).pressed
            ==> button.updated::<PushButton>(low).pending is Select,
        button.wf::<HoodButton1>() && !button.updated::<HoodButton1>(low).pressed
            ==> button.updated::<HoodButton1>(low).pending == if button.hold_count == 0 {
            InputEvent::Select
        } else {
            InputEvent::NoEvent
        },
        button.wf::<HoodButton2>() && !button.updated::<HoodButton2>(low).pressed
            ==> button.updated::<HoodButton2>(low).pending == if button.hold_count == 0
            && button.phase == Phase::Counting(0) {
            InputEvent::Select
        } else {
            InputEvent::NoEvent
        },
{
}

/// Watching a button keeps its invariant and its settings and leaves nothing pending.
proof fn watching_keeps_invariant<BB: ButtonBehaviour>(button: ButtonView, samples: Seq<bool>)
    requires
        button.wf::<BB>(),
    ensures
        button.watched::<BB>(samples).wf::<BB>(),
        button.watched::<BB>(samples).debounce_threshold == button.debounce_threshold,
        button.watched::<BB>(samples).long_press_threshold == button.long_press_threshold,
        button.watched::<BB>(samples).refresh_time == button.refresh_time,
        button.pending is NoEvent ==> button.watched::<BB>(samples).pending is NoEvent,
    decreases samples.len(),
{
    if samples.len() > 0 {
        watching_keeps_invariant::<BB>(button, samples.drop_last());
        invariant_kept_by_update::<BB>(
            button.watched::<BB>(samples.drop_last()),
            samples.last(),
        );
    }
}

/// One more than a number: its place in a period either moves on or starts over.
proof fn next_in_period(number: int, period: int)
    requires
        0 <= number,
        0 < period,
    ensures
        0 <= number % period < period,
        number % period + 1 < period ==> (number + 1) % period == number % period + 1 && (number
            + 1) / period == number / period,
        number % period + 1 == period ==> (number + 1) % period == 0 && (number + 1) / period
            == number / period + 1,
        0int % period == 0,
        0int / period == 0,
{
    let quotient = number / period;
    let rest = number % period;
    vstd::arithmetic::div_mod::lemma_fundamental_div_mod(number, period);
    vstd::arithmetic::div_mod::lemma_mod_bound(number, period);
    assert(quotient * period == period * quotient) by (nonlinear_arith);
    if rest + 1 < period {
        vstd::arithmetic::div_mod::lemma_fundamental_div_mod_converse(
            number + 1,
            period,
            quotient,
            rest + 1,
        );
    } else {
        assert((quotient + 1) * period == quotient * period + period) by (nonlinear_arith);
        vstd::arithmetic::div_mod::lemma_fundamental_div_mod_converse(
            number + 1,
            period,
            quotient + 1,
            0,
        );
    }
    assert(0 * period == 0);
    vstd::arithmetic::div_mod::lemma_fundamental_div_mod_converse(0, period, 0, 0);
}

/// A press that is kept up repeats its holds without end: with a behaviour that resets after
/// every hold, polled after every update, the first hold is reported one tick after the
/// long-press threshold, and from then on one every repeat threshold plus one ticks. Nothing
/// else is reported but the early `Select` on the first tick.
pub proof fn holds_repeat_without_end<BB: ButtonBehaviour>(button: ButtonView, samples: Seq<bool>)
    requires
        button.wf::<BB>(),
        button.phase == Phase::Counting(0),
        button.hold_count == 0,
        button.pending is NoEvent,
        forall|count: nat| (#[trigger] BB::hold_action(count)) is EmitAndReset,
        button.watched_pressed::<BB>(samples),
        samples.len() > 0,
    ensures
        ({
            let late = samples.len() - button.long_press_threshold - 1;
            let period = BB::repeat_threshold(button.long_press_threshold) + 1;
            let after = button.watched::<BB>(samples);
            &&& button.reported::<BB>(samples) == if samples.len() == 1
                && BB::selects_on_press() {
                InputEvent::Select
            } else if late >= 0 && late % (period as int) == 0 {
                InputEvent::SelectHold
            } else {
                InputEvent::NoEvent
            }
            &&& late < 0 ==> after.hold_count == 0 && after.phase == Phase::Counting(samples.len())
            &&& late >= 0 ==> after.hold_count == late / (period as int) + 1 && after.phase
                == Phase::Counting((late % (period as int)) as nat)
        }),
    decreases samples.len(),
{
    let before = samples.drop_last();
    let period = BB::repeat_threshold(button.long_press_threshold) + 1;
    let late = samples.len() - button.long_press_threshold - 1;
    watching_keeps_invariant::<BB>(button, before);
    if late > 0 {
        next_in_period(late - 1, period as int);
    } else {
        next_in_period(0, period as int);
    }
    if before.len() > 0 {
        holds_repeat_without_end::<BB>(button, before);
    }
    let mid = button.watched::<BB>(before);
    assert(BB::hold_action(mid.hold_count) is EmitAndReset);
}

/// A press that is kept up holds once: with a behaviour that waits for the release, polled
/// after every update, the one hold is reported one tick after the long-press threshold, and
/// nothing else but the early `Select` on the first tick.
pub proof fn hold_is_reported_once<BB: ButtonBehaviour>(button: ButtonView, samples: Seq<bool>)
    requires
        button.wf::<BB>(),
        button.phase == Phase::Counting(0),
        button.hold_count == 0,
        button.pending is NoEvent,
        forall|count: nat| (#[trigger] BB::hold_action(count)) is EmitAndWaitRelease,
        button.watched_pressed::<BB>(samples),
        samples.len() > 0,
    ensures
        ({
            let after = button.watched::<BB>(samples);
            &&& button.reported::<BB>(samples) == if samples.len() == 1
                && BB::selects_on_press() {
                InputEvent::Select
            } else if samples.len() == button.long_press_threshold + 1 {
                InputEvent::SelectHold
            } else {
                InputEvent::NoEvent
            }
            &&& samples.len() <= button.long_press_threshold ==> after.hold_count == 0
                && after.phase == Phase::Counting(samples.len())
            &&& samples.len() > button.long_press_threshold ==> after.hold_count == 1
                && after.phase is WaitingRelease
        }),
    decreases samples.len(),
{
    let before = samples.drop_last();
    watching_keeps_invariant::<BB>(button, before);
    if before.len() > 0 {
        hold_is_reported_once::<BB>(button, before);
    }
    let mid = button.watched::<BB>(before);
    assert(BB::hold_action(mid.hold_count) is EmitAndWaitRelease);
}

/// Watching through two batches, one after the other, is watching through both together.
proof fn watching_concatenates<BB: ButtonBehaviour>(
    button: ButtonView,
    first: Seq<bool>,
    second: Seq<bool>,
)
    ensures
        button.watched::<BB>(first + second) == button.watched::<BB>(first).watched::<BB>(second),
        second.len() > 0 ==> button.reported::<BB>(first + second) == button.watched::<BB>(
            first,
        ).reported::<BB>(second),
    decreases second.len(),
{
    if second.len() > 0 {
        watching_concatenates::<BB>(button, first, second.drop_last());
        assert((first + second).drop_last() =~= first + second.drop_last());
    } else {
        assert(first + second =~= first);
    }
}

/// Under low samples a pressed button stays pressed.
proof fn lows_keep_the_press<BB: ButtonBehaviour>(button: ButtonView, lows: Seq<bool>)
    requires
        button.wf::<BB>(),
        button.pressed,
        forall|i: int| 0 <= i < lows.len() ==> lows[i],
    ensures
        button.watched_pressed::<BB>(lows),
        button.watched::<BB>(lows).pressed,
    decreases lows.len(),
{
    if lows.len() > 0 {
        lows_keep_the_press::<BB>(button, lows.drop_last());
        watching_keeps_invariant::<BB>(button, lows.drop_last());
        assert(lows.last());
    }
}

/// Under low samples a new button integrates the refresh time until the press settles with the
/// `settling`-th sample.
proof fn press_settles<BB: ButtonBehaviour>(
    debounce_threshold: nat,
    long_press: nat,
    refresh: nat,
    settling: nat,
    lows: Seq<bool>,
)
    requires
        forall|i: int| 0 <= i < lows.len() ==> lows[i],
        lows.len() <= settling,
        settling == 1 || settling > 1 && (settling - 1) * refresh < debounce_threshold,
        debounce_threshold <= settling * refresh,
    ensures
        ({
            let button = ButtonView::initial(debounce_threshold, long_press, refresh);
            let after = button.watched::<BB>(lows);
            &&& after.wf::<BB>()
            &&& after.pending is NoEvent
            &&& after.hold_count == 0
            &&& after.long_press_threshold == long_press
            &&& lows.len() > 0 ==> button.reported::<BB>(lows) is NoEvent
            &&& lows.len() < settling ==> !after.pressed && after.phase is Idle
                && after.debounce_counter == lows.len() * refresh
            &&& lows.len() == settling ==> after.pressed && after.phase == Phase::Counting(0)
        }),
    decreases lows.len(),
{
    let button = ButtonView::initial(debounce_threshold, long_press, refresh);
    watching_keeps_invariant::<BB>(button, lows);
    if lows.len() > 0 {
        let before = lows.drop_last();
        press_settles::<BB>(debounce_threshold, long_press, refresh, settling, before);
        watching_keeps_invariant::<BB>(button, before);
        assert(lows.last());
        let count = before.len();
        assert((count + 1) * refresh == count * refresh + refresh) by (nonlinear_arith);
        if lows.len() < settling {
            let more = (settling - 1) as nat;
            let now = lows.len();
            assert(now * refresh <= more * refresh) by (nonlinear_arith)
                requires
                    now <= more,
            ;
        }
    } else {
        assert(0 * refresh == 0);
    }
}

/// A new button that is held down for longer than it takes to settle the press counts from
/// zero once it has settled, and stays pressed; what is left to watch is the rest.
proof fn held_down_after_settling<BB: ButtonBehaviour>(
    debounce_threshold: nat,
    long_press: nat,
    refresh: nat,
    settling: nat,
    lows: Seq<bool>,
)
    requires
        forall|i: int| 0 <= i < lows.len() ==> lows[i],
        lows.len() > settling,
        settling == 1 || settling > 1 && (settling - 1) * refresh < debounce_threshold,
        debounce_threshold <= settling * refresh,
    ensures
        ({
            let button = ButtonView::initial(debounce_threshold, long_press, refresh);
            let down = button.watched::<BB>(lows.take(settling as int));
            let rest = lows.skip(settling as int);
            &&& down.wf::<BB>()
            &&& down.phase == Phase::Counting(0)
            &&& down.hold_count == 0
            &&& down.pending is NoEvent
            &&& down.long_press_threshold == long_press
            &&& down.watched_pressed::<BB>(rest)
            &&& down.watched::<BB>(rest).pressed
            &&& button.watched::<BB>(lows) == down.watched::<BB>(rest)
            &&& button.reported::<BB>(lows) == down.reported::<BB>(rest)
        }),
{
    let button = ButtonView::initial(debounce_threshold, long_press, refresh);
    let first = lows.take(settling as int);
    let rest = lows.skip(settling as int);
    press_settles::<BB>(debounce_threshold, long_press, refresh, settling, first);
    lows_keep_the_press::<BB>(button.watched::<BB>(first), rest);
    watching_concatenates::<BB>(button, first, rest);
    assert(first + rest =~= lows);
}

/// A new button with a behaviour that resets after every hold, held down and polled after
/// every update.
#[verifier::spinoff_prover]
proof fn held_down_repeats<BB: ButtonBehaviour>(
    debounce_threshold: nat,
    long_press: nat,
    refresh: nat,
    settling: nat,
    lows: Seq<bool>,
)
    requires
        forall|i: int| 0 <= i < lows.len() ==> lows[i],
        lows.len() > 0,
        settling == 1 || settling > 1 && (settling - 1) * refresh < debounce_threshold,
        debounce_threshold <= settling * refresh,
        forall|count: nat| (#[trigger] BB::hold_action(count)) is EmitAndReset,
    ensures
        ({
            let button = ButtonView::initial(debounce_threshold, long_press, refresh);
            let late = lows.len() - settling - long_press - 1;
            let period = BB::repeat_threshold(long_press) + 1;
            let after = button.watched::<BB>(lows);
            &&& after.pressed <==> lows.len() >= settling
            &&& late < 0 ==> after.hold_count == 0
            &&& late >= 0 ==> after.hold_count == late / (period as int) + 1
            &&& button.reported::<BB>(lows) == if lows.len() == settling + 1
                && BB::selects_on_press() {
                InputEvent::Select
            } else if late >= 0 && late % (period as int) == 0 {
                InputEvent::SelectHold
            } else {
                InputEvent::NoEvent
            }
        }),
{
    let button = ButtonView::initial(debounce_threshold, long_press, refresh);
    if lows.len() <= settling {
        press_settles::<BB>(debounce_threshold, long_press, refresh, settling, lows);
    } else {
        let down = button.watched::<BB>(lows.take(settling as int));
        let rest = lows.skip(settling as int);
        held_down_after_settling::<BB>(debounce_threshold, long_press, refresh, settling, lows);
        holds_repeat_without_end::<BB>(down, rest);
    }
}

/// A new button with a behaviour that waits for the release, held down and polled after every
/// update.
#[verifier::spinoff_prover]
proof fn held_down_holds_once<BB: ButtonBehaviour>(
    debounce_threshold: nat,
    long_press: nat,
    refresh: nat,
    settling: nat,
    lows: Seq<bool>,
)
    requires
        forall|i: int| 0 <= i < lows.len() ==> lows[i],
        lows.len() > 0,
        settling == 1 || settling > 1 && (settling - 1) * refresh < debounce_threshold,
        debounce_threshold <= settling * refresh,
        forall|count: nat| (#[trigger] BB::hold_action(count)) is EmitAndWaitRelease,
    ensures
        ({
            let button = ButtonView::initial(debounce_threshold, long_press, refresh);
            &&& button.watched::<BB>(lows).pressed <==> lows.len() >= settling
            &&& button.reported::<BB>(lows) == if lows.len() == settling + 1
                && BB::selects_on_press() {
                InputEvent::Select
            } else if lows.len() == settling + long_press + 1 {
                InputEvent::SelectHold
            } else {
                InputEvent::NoEvent
            }
        }),
{
    let button = ButtonView::initial(debounce_threshold, long_press, refresh);
    if lows.len() <= settling {
        press_settles::<BB>(debounce_threshold, long_press, refresh, settling, lows);
    } else {
        let down = button.watched::<BB>(lows.take(settling as int));
        let rest = lows.skip(settling as int);
        held_down_after_settling::<BB>(debounce_threshold, long_press, refresh, settling, lows);
        hold_is_reported_once::<BB>(down, rest);
    }
}

/// The first hood button, new and held down, polled after every update: once the press has
/// settled, `SelectHold` after the long-press threshold and then for ever at a third of it (one
/// tick at least), and nothing in between.
pub proof fn hood_button_1_held_down(
    debounce_threshold: nat,
    long_press: nat,
    refresh: nat,
    settling: nat,
    lows: Seq<bool>,
)
    requires
        forall|i: int| 0 <= i < lows.len() ==> lows[i],
        lows.len() > 0,
        settling == 1 || settling > 1 && (settling - 1) * refresh < debounce_threshold,
        debounce_threshold <= settling * refresh,
    ensures
        ({
            let button = ButtonView::initial(debounce_threshold, long_press, refresh);
            let late = lows.len() - settling - long_press - 1;
            let interval: int = if long_press < 3 {
                2
            } else {
                long_press as int / 3 + 1
            };
            &&& button.watched::<HoodButton1>(lows).pressed <==> lows.len() >= settling
            &&& button.watched::<HoodButton1>(lows).hold_count == if late >= 0 {
                late / interval + 1
            } else {
                0
            }
            &&& button.reported::<HoodButton1>(lows) == if late >= 0 && late % interval == 0 {
                InputEvent::SelectHold
            } else {
                InputEvent::NoEvent
            }
        }),
{
    held_down_repeats::<HoodButton1>(debounce_threshold, long_press, refresh, settling, lows);
}

/// The second hood button, new and held down, polled after every update: once the press has
/// settled, `Select` on the first tick, `SelectHold` after the long-press threshold and then
/// for ever at a fifth of it (one tick at least), and nothing in between.
pub proof fn hood_button_2_held_down(
    debounce_threshold: nat,
    long_press: nat,
    refresh: nat,
    settling: nat,
    lows: Seq<bool>,
)
    requires
        forall|i: int| 0 <= i < lows.len() ==> lows[i],
        lows.len() > 0,
        settling == 1 || settling > 1 && (settling - 1) * refresh < debounce_threshold,
        debounce_threshold <= settling * refresh,
    ensures
        ({
            let button = ButtonView::initial(debounce_threshold, long_press, refresh);
            let late = lows.len() - settling - long_press - 1;
            let interval: int = if long_press < 5 {
                2
            } else {
                long_press as int / 5 + 1
            };
            &&& button.watched::<HoodButton2>(lows).pressed <==> lows.len() >= settling
            &&& button.watched::<HoodButton2>(lows).hold_count == if late >= 0 {
                late / interval + 1
            } else {
                0
            }
            &&& button.reported::<HoodButton2>(lows) == if lows.len() == settling + 1 {
                InputEvent::Select
            } else if late >= 0 && late % interval == 0 {
                InputEvent::SelectHold
            } else {
                InputEvent::NoEvent
            }
        }),
{
    held_down_repeats::<HoodButton2>(debounce_threshold, long_press, refresh, settling, lows);
}

/// The push-button of an encoder, new and held down, polled after every update: once the press
/// has settled, `SelectHold` one tick after the long-press threshold, and nothing else.
pub proof fn rotary_button_held_down(
    debounce_threshold: nat,
    long_press: nat,
    refresh: nat,
    settling: nat,
    lows: Seq<bool>,
)
    requires
        forall|i: int| 0 <= i < lows.len() ==> lows[i],
        lows.len() > 0,
        settling == 1 || settling > 1 && (settling - 1) * refresh < debounce_threshold,
        debounce_threshold <= settling * refresh,
    ensures
        ({
            let button = ButtonView::initial(debounce_threshold, long_press, refresh);
            &&& button.watched::<RotaryButton>(lows).pressed <==> lows.len() >= settling
            &&& button.reported::<RotaryButton>(lows) == if lows.len() == settling + long_press
                + 1 {
                InputEvent::SelectHold
            } else {
                InputEvent::NoEvent
            }
        }),
{
    held_down_holds_once::<RotaryButton>(debounce_threshold, long_press, refresh, settling, lows);
}

/// The free-standing push-button, new and held down, polled after every update: once the press
/// has settled, `SelectHold` one tick after the long-press threshold, and nothing else.
pub proof fn push_button_held_down(
    debounce_threshold: nat,
    long_press: nat,
    refresh: nat,
    settling: nat,
    lows: Seq<bool>,
)
    requires
        forall|i: int| 0 <= i < lows.len() ==> lows[i],
        lows.len() > 0,
        settling == 1 || settling > 1 && (settling - 1) * refresh < debounce_threshold,
        debounce_threshold <= settling * refresh,
    ensures
        ({
            let button = ButtonView::initial(debounce_threshold, long_press, refresh);
            &&& button.watched::<PushButton>(lows).pressed <==> lows.len() >= settling
            &&& button.reported::<PushButton>(lows) == if lows.len() == settling + long_press + 1 {
                InputEvent::SelectHold
            } else {
                InputEvent::NoEvent
            }
        }),
{
    held_down_holds_once::<PushButton>(debounce_threshold, long_press, refresh, settling, lows);
}

} // verus!
