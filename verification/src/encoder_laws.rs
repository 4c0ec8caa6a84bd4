//! What every rotary encoder guarantees over whole runs of samples and polls.

use crate::behaviour::RotaryButton;
use crate::encoder::{EncoderView, Lines, RotaryEncoder};
use crate::types::{InputEvent, InputSource, RotaryAccumulatorMode};
use vstd::prelude::*;

verus! {

/// One sample of all pins; a pin is true while it is low.
pub ghost struct Sample {
    pub sw: bool,
    pub lines: Lines,
}

impl Lines {
    /// The levels with the two wires crossed.
    pub open spec fn crossed(self) -> Lines {
        Lines { clk: self.dt, dt: self.clk }
    }
}

/// The levels after the samples, starting from `lines`.
pub open spec fn lines_after(lines: Lines, samples: Seq<Sample>) -> Lines {
    if samples.len() == 0 {
        lines
    } else {
        samples.last().lines
    }
}

/// The sum of the quadrature steps along the samples, starting from `lines`.
pub open spec fn net_steps(lines: Lines, samples: Seq<Sample>) -> int
    decreases samples.len(),
{
    if samples.len() == 0 {
        0
    } else {
        net_steps(lines, samples.drop_last()) + lines_after(lines, samples.drop_last()).step_to(
            samples.last().lines,
        )
    }
}

/// Whether no sample along the way has both lines changed at once.
pub open spec fn no_place_skipped(lines: Lines, samples: Seq<Sample>) -> bool
    decreases samples.len(),
{
    samples.len() == 0 || {
        let from = lines_after(lines, samples.drop_last());
        let to = samples.last().lines;
        &&& no_place_skipped(lines, samples.drop_last())
        &&& from.clk == to.clk || from.dt == to.dt
    }
}

/// The samples of all rounds, one round after the other.
pub open spec fn all_samples(rounds: Seq<Seq<Sample>>) -> Seq<Sample>
    decreases rounds.len(),
{
    if rounds.len() == 0 {
        Seq::empty()
    } else {
        all_samples(rounds.drop_last()) + rounds.last()
    }
}

/// The same event in the other direction.
pub open spec fn mirrored(event: InputEvent) -> InputEvent {
    match event {
        InputEvent::Up => InputEvent::Down,
        InputEvent::FastUp => InputEvent::FastDown,
        InputEvent::Down => InputEvent::Up,
        InputEvent::FastDown => InputEvent::FastUp,
        other => other,
    }
}

/// Whether the event is a rotation.
pub open spec fn is_rotation(event: InputEvent) -> bool {
    event is Up || event is FastUp || event is Down || event is FastDown
}

impl EncoderView {
    /// The encoder after one update for each of the samples, without a poll between them.
    pub open spec fn updated_all(self, samples: Seq<Sample>) -> EncoderView
        decreases samples.len(),
    {
        if samples.len() == 0 {
            self
        } else {
            self.updated_all(samples.drop_last()).updated(samples.last().sw, samples.last().lines)
        }
    }

    /// The steps that wait once the steps of the samples have been added up.
    pub open spec fn steps_with(self, samples: Seq<Sample>) -> int {
        self.accumulator + net_steps(self.lines, samples)
    }

    /// Whether the sum of the steps stays within the accumulator's range after every one of
    /// the samples.
    pub open spec fn stays_in_range(self, samples: Seq<Sample>) -> bool
        decreases samples.len(),
    {
        samples.len() == 0 || {
            &&& self.stays_in_range(samples.drop_last())
            &&& i8::MIN <= self.steps_with(samples) <= i8::MAX
        }
    }

    /// The same encoder, turning the other way.
    pub open spec fn inverse(self) -> EncoderView {
        EncoderView { inverted: !self.inverted, ..self }
    }

    /// The encoder after rounds of updates, each followed by one poll.
    pub open spec fn after_rounds(self, rounds: Seq<Seq<Sample>>) -> EncoderView
        decreases rounds.len(),
    {
        if rounds.len() == 0 {
            self
        } else {
            self.after_rounds(rounds.drop_last()).updated_all(rounds.last()).polled()
        }
    }

    /// The encoder after the last round's updates, before its poll.
    pub open spec fn before_last_poll(self, rounds: Seq<Seq<Sample>>) -> EncoderView
        recommends
            rounds.len() > 0,
    {
        self.after_rounds(rounds.drop_last()).updated_all(rounds.last())
    }

    /// Whether every round's poll finds a click in the given direction, or none at all where
    /// the direction is `NoDirection`.
    pub open spec fn every_poll_finds(
        self,
        rounds: Seq<Seq<Sample>>,
        direction: RotaryAccumulatorMode,
    ) -> bool
        decreases rounds.len(),
    {
        rounds.len() == 0 || {
            &&& self.every_poll_finds(rounds.drop_last(), direction)
            &&& self.before_last_poll(rounds).click() == direction
        }
    }

    /// Whether no round's poll returns an event.
    pub open spec fn quiet_every_round(self, rounds: Seq<Seq<Sample>>) -> bool
        decreases rounds.len(),
    {
        rounds.len() == 0 || {
            &&& self.quiet_every_round(rounds.drop_last())
            &&& self.before_last_poll(rounds).poll_event() is NoEvent
        }
    }
}

/// An update keeps the invariant, and leaves the run and the settings alone.
pub proof fn invariant_kept_by_update(encoder: EncoderView, sw_low: bool, lines: Lines)
    requires
        encoder.wf(),
    ensures
        encoder.updated(sw_low, lines).wf(),
        encoder.updated(sw_low, lines).direction == encoder.direction,
        encoder.updated(sw_low, lines).run == encoder.run,
        encoder.updated(sw_low, lines).idle_polls == encoder.idle_polls,
        encoder.updated(sw_low, lines).reset_time == encoder.reset_time,
        encoder.updated(sw_low, lines).multi_step_threshold == encoder.multi_step_threshold,
        encoder.updated(sw_low, lines).inverted == encoder.inverted,
{
    crate::button_laws::invariant_kept_by_update::<RotaryButton>(encoder.button, sw_low);
}

/// A poll keeps the invariant.
pub proof fn invariant_kept_by_poll(encoder: EncoderView)
    requires
        encoder.wf(),
        encoder.poll_ready(),
    ensures
        encoder.polled().wf(),
{
    crate::button_laws::invariant_kept_by_poll::<RotaryButton>(encoder.button);
}

/// Going back undoes a step: the step from one pair of levels to another is the opposite of
/// the step the other way round.
pub proof fn step_back_undoes(from: Lines, to: Lines)
    ensures
        from.step_to(to) == -to.step_to(from),
        from.step_to(from) == 0,
{
}

/// Crossing the two wires reverses every step.
pub proof fn crossed_wires_reverse(from: Lines, to: Lines)
    ensures
        from.crossed().step_to(to.crossed()) == -from.step_to(to),
{
}

/// A bounce cancels out: a step to some levels and straight back leaves the accumulator as it
/// was, unless the first step runs into the end of its range.
pub proof fn bounce_cancels_out(encoder: EncoderView, there: Sample, back: Sample)
    requires
        i8::MIN <= encoder.accumulator <= i8::MAX,
        i8::MIN <= encoder.accumulator + encoder.lines.step_to(there.lines) <= i8::MAX,
        back.lines == encoder.lines,
    ensures
        encoder.updated(there.sw, there.lines).updated(back.sw, back.lines).accumulator
            == encoder.accumulator,
        encoder.updated(there.sw, there.lines).updated(back.sw, back.lines).lines
            == encoder.lines,
{
}

/// No step is missed: the accumulator takes in every quadrature step of the samples, however
/// many samples there are between two polls, as long as the sum of the steps stays in range.
pub proof fn no_step_is_missed(encoder: EncoderView, samples: Seq<Sample>)
    requires
        encoder.stays_in_range(samples),
    ensures
        encoder.updated_all(samples).accumulator == encoder.steps_with(samples),
        encoder.updated_all(samples).lines == lines_after(encoder.lines, samples),
    decreases samples.len(),
{
    if samples.len() > 0 {
        no_step_is_missed(encoder, samples.drop_last());
    }
}

/// A batch with no more samples than the accumulator's range has room for stays in range,
/// whichever way it turns.
pub proof fn small_batch_stays_in_range(encoder: EncoderView, samples: Seq<Sample>)
    requires
        i8::MIN <= encoder.accumulator - samples.len(),
        encoder.accumulator + samples.len() <= i8::MAX,
    ensures
        encoder.stays_in_range(samples),
        -samples.len() <= net_steps(encoder.lines, samples) <= samples.len(),
    decreases samples.len(),
{
    if samples.len() > 0 {
        small_batch_stays_in_range(encoder, samples.drop_last());
    }
}

/// Steps follow the position: as long as no place of the quadrature cycle is skipped, the net
/// steps are the change of position, up to whole cycles.
pub proof fn steps_follow_position(lines: Lines, samples: Seq<Sample>)
    requires
        no_place_skipped(lines, samples),
    ensures
        (lines.position() + net_steps(lines, samples)) % 4 == lines_after(
            lines,
            samples,
        ).position(),
    decreases samples.len(),
{
    if samples.len() > 0 {
        steps_follow_position(lines, samples.drop_last());
    }
}

/// A click is a full click: the poll after a batch of samples finds a click in one direction
/// exactly if the steps that wait come to a whole click that way.
pub proof fn click_takes_all_its_steps(encoder: EncoderView, samples: Seq<Sample>)
    requires
        encoder.stays_in_range(samples),
    ensures
        ({
            let click = encoder.updated_all(samples).click();
            let steps = encoder.steps_with(samples);
            &&& click is Positive <==> steps >= 4
            &&& click is Negative <==> steps <= -4
        }),
{
    no_step_is_missed(encoder, samples);
}

/// A poll returns a rotation exactly if a click waits, the direction of the click and the
/// inversion decide between up and down, and the accumulator is empty afterwards.
pub proof fn click_becomes_rotation(encoder: EncoderView)
    requires
        encoder.wf(),
    ensures
        is_rotation(encoder.poll_event()) <==> encoder.click() !is NoDirection,
        encoder.click() is Positive && !encoder.inverted || encoder.click() is Negative
            && encoder.inverted <==> encoder.poll_event() is Up || encoder.poll_event() is FastUp,
        encoder.click() !is NoDirection ==> encoder.polled().accumulator == 0,
        encoder.polled().click() is NoDirection,
{
}

/// Any run of updates keeps the invariant.
pub proof fn invariant_kept_by_updates(encoder: EncoderView, samples: Seq<Sample>)
    requires
        encoder.wf(),
    ensures
        encoder.updated_all(samples).wf(),
    decreases samples.len(),
{
    if samples.len() > 0 {
        invariant_kept_by_updates(encoder, samples.drop_last());
        invariant_kept_by_update(
            encoder.updated_all(samples.drop_last()),
            samples.last().sw,
            samples.last().lines,
        );
    }
}

/// Turning is reported: the poll after a batch of samples reports a rotation exactly if the
/// steps that wait come to a whole click or more, and reports it in the direction they turn.
pub proof fn turning_is_reported(encoder: EncoderView, samples: Seq<Sample>)
    requires
        encoder.wf(),
        encoder.stays_in_range(samples),
    ensures
        ({
            let steps = if encoder.inverted {
                -encoder.steps_with(samples)
            } else {
                encoder.steps_with(samples)
            };
            let event = encoder.updated_all(samples).poll_event();
            &&& steps >= 4 <==> event is Up || event is FastUp
            &&& steps <= -4 <==> event is Down || event is FastDown
        }),
{
    click_takes_all_its_steps(encoder, samples);
    invariant_kept_by_updates(encoder, samples);
    run_kept_by_updates(encoder, samples);
}

/// What the quadrature lines have done depends on nothing but the lines: two encoders that
/// agree on the lines and the accumulator still agree on them after the same samples.
proof fn rotation_depends_on_lines(one: EncoderView, other: EncoderView, samples: Seq<Sample>)
    requires
        one.lines == other.lines,
        one.accumulator == other.accumulator,
    ensures
        one.updated_all(samples).lines == other.updated_all(samples).lines,
        one.updated_all(samples).accumulator == other.updated_all(samples).accumulator,
    decreases samples.len(),
{
    if samples.len() > 0 {
        rotation_depends_on_lines(one, other, samples.drop_last());
    }
}

/// Updates for two batches of samples, one after the other, are updates for both together.
proof fn updates_concatenate(encoder: EncoderView, first: Seq<Sample>, second: Seq<Sample>)
    ensures
        encoder.updated_all(first + second) == encoder.updated_all(first).updated_all(second),
    decreases second.len(),
{
    if second.len() > 0 {
        updates_concatenate(encoder, first, second.drop_last());
        assert((first + second).drop_last() =~= first + second.drop_last());
    } else {
        assert(first + second =~= first);
    }
}

/// Polls that find no click keep the steps: with any number of them between the samples, the
/// lines and the accumulator are those of the samples alone.
pub proof fn polls_without_click_keep_the_steps(encoder: EncoderView, rounds: Seq<Seq<Sample>>)
    requires
        encoder.every_poll_finds(rounds, RotaryAccumulatorMode::NoDirection),
    ensures
        ({
            let after = encoder.after_rounds(rounds);
            let samples = all_samples(rounds);
            &&& after.lines == encoder.updated_all(samples).lines
            &&& after.accumulator == encoder.updated_all(samples).accumulator
            &&& encoder.stays_in_range(samples) ==> after.accumulator == encoder.steps_with(
                samples,
            )
        }),
    decreases rounds.len(),
{
    if rounds.len() > 0 {
        let before = rounds.drop_last();
        polls_without_click_keep_the_steps(encoder, before);
        updates_concatenate(encoder, all_samples(before), rounds.last());
        rotation_depends_on_lines(
            encoder.after_rounds(before),
            encoder.updated_all(all_samples(before)),
            rounds.last(),
        );
    }
    if encoder.stays_in_range(all_samples(rounds)) {
        no_step_is_missed(encoder, all_samples(rounds));
    }
}

/// Slow turning is reported as well: when the polls before the last one have found no click,
/// the last poll reports a rotation exactly if the steps of all rounds together come to a
/// whole click or more, and reports it in the direction they turn.
pub proof fn slow_turning_is_reported(encoder: EncoderView, rounds: Seq<Seq<Sample>>)
    requires
        encoder.wf(),
        rounds.len() > 0,
        encoder.every_poll_finds(rounds.drop_last(), RotaryAccumulatorMode::NoDirection),
        encoder.stays_in_range(all_samples(rounds)),
    ensures
        ({
            let steps = if encoder.inverted {
                -encoder.steps_with(all_samples(rounds))
            } else {
                encoder.steps_with(all_samples(rounds))
            };
            let event = encoder.before_last_poll(rounds).poll_event();
            &&& steps >= 4 <==> event is Up || event is FastUp
            &&& steps <= -4 <==> event is Down || event is FastDown
        }),
{
    let before = rounds.drop_last();
    let mid = encoder.after_rounds(before);
    polls_without_click_keep_the_steps(encoder, before);
    updates_concatenate(encoder, all_samples(before), rounds.last());
    rotation_depends_on_lines(
        mid,
        encoder.updated_all(all_samples(before)),
        rounds.last(),
    );
    no_step_is_missed(encoder, all_samples(rounds));
    invariant_kept_by_clickless_rounds(encoder, before);
    invariant_kept_by_updates(mid, rounds.last());
    settings_kept_by_rounds(encoder, before);
    run_kept_by_updates(mid, rounds.last());
}

/// Rounds whose polls find no click keep the invariant.
proof fn invariant_kept_by_clickless_rounds(encoder: EncoderView, rounds: Seq<Seq<Sample>>)
    requires
        encoder.wf(),
        encoder.every_poll_finds(rounds, RotaryAccumulatorMode::NoDirection),
    ensures
        encoder.after_rounds(rounds).wf(),
    decreases rounds.len(),
{
    if rounds.len() > 0 {
        invariant_kept_by_clickless_rounds(encoder, rounds.drop_last());
        invariant_kept_by_updates(encoder.after_rounds(rounds.drop_last()), rounds.last());
        invariant_kept_by_poll(encoder.before_last_poll(rounds));
    }
}

/// Inversion reverses the rotation and nothing else: an inverted encoder goes through the same
/// states and returns the same events, with up and down exchanged.
pub proof fn inversion_mirrors_rotation(encoder: EncoderView, sw_low: bool, lines: Lines)
    requires
        encoder.wf(),
    ensures
        encoder.inverse().updated(sw_low, lines) == encoder.updated(sw_low, lines).inverse(),
        encoder.inverse().poll_event() == mirrored(encoder.poll_event()),
        encoder.inverse().polled() == encoder.polled().inverse(),
{
}

/// Rotation comes first, and the button event is not lost: while a click waits the button
/// keeps its event, and the next poll returns it.
pub proof fn button_event_survives_rotation(encoder: EncoderView)
    requires
        encoder.click() !is NoDirection,
    ensures
        encoder.polled().button == encoder.button,
        encoder.polled().poll_event() == encoder.button.pending,
{
}

/// A button event ends the run of clicks and is returned once.
pub proof fn button_event_ends_the_run(encoder: EncoderView)
    requires
        encoder.click() is NoDirection,
        encoder.button.pending !is NoEvent,
    ensures
        encoder.poll_event() == encoder.button.pending,
        encoder.polled().run == 0,
        encoder.polled().direction is NoDirection,
        encoder.polled().poll_event() is NoEvent,
{
}

/// The switch samples of a batch.
pub open spec fn switch_samples(samples: Seq<Sample>) -> Seq<bool> {
    samples.map_values(|sample: Sample| sample.sw)
}

/// Rotation does not disturb the push-button: under any samples it goes through the states of
/// a button on its own.
pub proof fn button_is_independent(encoder: EncoderView, samples: Seq<Sample>)
    ensures
        encoder.updated_all(samples).button == encoder.button.updated_all::<RotaryButton>(
            switch_samples(samples),
        ),
    decreases samples.len(),
{
    if samples.len() > 0 {
        button_is_independent(encoder, samples.drop_last());
        assert(switch_samples(samples).drop_last() =~= switch_samples(samples.drop_last()));
    }
}

/// Nor do polls: with any number of polls between the samples, the push-button's integrator,
/// level, lifecycle and count of holds are those of a button on its own under the same
/// samples. Only what is pending differs.
pub proof fn polls_leave_the_button_alone(encoder: EncoderView, rounds: Seq<Seq<Sample>>)
    ensures
        ({
            let after = encoder.after_rounds(rounds).button;
            let alone = encoder.button.updated_all::<RotaryButton>(
                switch_samples(all_samples(rounds)),
            );
            &&& after.debounce_counter == alone.debounce_counter
            &&& after.pressed == alone.pressed
            &&& after.phase == alone.phase
            &&& after.hold_count == alone.hold_count
            &&& after.polled() == alone.polled()
            &&& rounds.len() > 0 ==> encoder.before_last_poll(rounds).button.polled()
                == alone.polled()
        }),
    decreases rounds.len(),
{
    if rounds.len() > 0 {
        let before = rounds.drop_last();
        let samples = switch_samples(all_samples(before));
        let last = switch_samples(rounds.last());
        let mid = encoder.after_rounds(before).button;
        let alone = encoder.button.updated_all::<RotaryButton>(samples);
        polls_leave_the_button_alone(encoder, before);
        button_is_independent(encoder.after_rounds(before), rounds.last());
        crate::button_laws::polling_does_not_disturb::<RotaryButton>(mid, last);
        crate::button_laws::polling_does_not_disturb::<RotaryButton>(alone, last);
        crate::button_laws::updates_concatenate::<RotaryButton>(encoder.button, samples, last);
        assert(switch_samples(all_samples(rounds)) =~= samples + last);
        let now = encoder.before_last_poll(rounds).button;
        assert(now.polled() == alone.updated_all::<RotaryButton>(last).polled());
    } else {
        assert(switch_samples(all_samples(rounds)) =~= Seq::<bool>::empty());
    }
}

/// Updates leave the run and the settings alone.
proof fn run_kept_by_updates(encoder: EncoderView, samples: Seq<Sample>)
    ensures
        encoder.updated_all(samples).direction == encoder.direction,
        encoder.updated_all(samples).run == encoder.run,
        encoder.updated_all(samples).idle_polls == encoder.idle_polls,
        encoder.updated_all(samples).reset_time == encoder.reset_time,
        encoder.updated_all(samples).multi_step_threshold == encoder.multi_step_threshold,
        encoder.updated_all(samples).inverted == encoder.inverted,
    decreases samples.len(),
{
    if samples.len() > 0 {
        run_kept_by_updates(encoder, samples.drop_last());
    }
}

/// Rounds of updates and polls leave the settings alone.
proof fn settings_kept_by_rounds(encoder: EncoderView, rounds: Seq<Seq<Sample>>)
    ensures
        encoder.after_rounds(rounds).reset_time == encoder.reset_time,
        encoder.after_rounds(rounds).multi_step_threshold == encoder.multi_step_threshold,
        encoder.after_rounds(rounds).inverted == encoder.inverted,
    decreases rounds.len(),
{
    if rounds.len() > 0 {
        settings_kept_by_rounds(encoder, rounds.drop_last());
        run_kept_by_updates(encoder.after_rounds(rounds.drop_last()), rounds.last());
    }
}

/// Clicks in one direction make a run: each poll that finds one lengthens it by one, a run in
/// the other direction starts over, and the length of the run decides whether the event is a
/// fast one.
pub proof fn clicks_make_a_run(
    encoder: EncoderView,
    rounds: Seq<Seq<Sample>>,
    direction: RotaryAccumulatorMode,
)
    requires
        direction !is NoDirection,
        rounds.len() > 0,
        encoder.every_poll_finds(rounds, direction),
    ensures
        ({
            let run = rounds.len() + if encoder.direction == direction {
                encoder.run
            } else {
                0
            };
            &&& encoder.after_rounds(rounds).direction == direction
            &&& encoder.after_rounds(rounds).run == run
            &&& encoder.before_last_poll(rounds).poll_event() == encoder.rotation_event(
                direction,
                run,
            )
        }),
    decreases rounds.len(),
{
    settings_kept_by_rounds(encoder, rounds.drop_last());
    run_kept_by_updates(encoder.after_rounds(rounds.drop_last()), rounds.last());
    if rounds.len() > 1 {
        clicks_make_a_run(encoder, rounds.drop_last(), direction);
    }
}

/// A run survives a pause of up to its idle limit in polls without an event, ends with the
/// poll after that, and stays ended for as long as the pause goes on. With the limit at its
/// maximum it never ends by a pause.
pub proof fn pause_ends_the_run(encoder: EncoderView, rounds: Seq<Seq<Sample>>)
    requires
        encoder.idle_polls <= encoder.idle_limit(),
        encoder.quiet_every_round(rounds),
    ensures
        ({
            let after = encoder.after_rounds(rounds);
            let idle = encoder.idle_polls + rounds.len();
            &&& idle <= encoder.idle_limit() ==> after.run == encoder.run && after.direction
                == encoder.direction && after.idle_polls == idle
            &&& idle > encoder.idle_limit() && encoder.idle_limit() < u8::MAX ==> after.run == 0
                && after.direction is NoDirection
            &&& idle == encoder.idle_limit() + 1 && encoder.idle_limit() < u8::MAX
                ==> after.idle_polls == 0
            &&& encoder.idle_limit() == u8::MAX ==> after.run == encoder.run && after.direction
                == encoder.direction
        }),
    decreases rounds.len(),
{
    if rounds.len() > 0 {
        settings_kept_by_rounds(encoder, rounds.drop_last());
        run_kept_by_updates(encoder.after_rounds(rounds.drop_last()), rounds.last());
        pause_ends_the_run(encoder, rounds.drop_last());
    }
}

/// Which way a change of the lines turns can be told from the lines themselves. A change of
/// phase A alone goes forward if phase A ends up different from phase B, and back otherwise; a
/// change of phase B alone goes forward if the two end up equal, and back otherwise. No change,
/// or a change of both, is no step.
pub proof fn step_is_told_by_the_lines(from: Lines, to: Lines)
    ensures
        from.clk != to.clk && from.dt == to.dt && to.clk != to.dt ==> from.step_to(to) == 1,
        from.clk != to.clk && from.dt == to.dt && to.clk == to.dt ==> from.step_to(to) == -1,
        from.clk == to.clk && from.dt != to.dt && to.clk == to.dt ==> from.step_to(to) == 1,
        from.clk == to.clk && from.dt != to.dt && to.clk != to.dt ==> from.step_to(to) == -1,
        (from.clk == to.clk) == (from.dt == to.dt) ==> from.step_to(to) == 0,
{
}

/// An encoder starts with the settings it is given, at the levels it is given, with nothing
/// accumulated, no run and a new button.
pub proof fn new_encoder_has_its_settings(
    lines: Lines,
    debounce_threshold: nat,
    long_press_threshold: nat,
    refresh_time: nat,
    reset_time: nat,
    multi_step_threshold: nat,
    inverted: bool,
)
    ensures
        ({
            let encoder = EncoderView::initial(
                lines,
                debounce_threshold,
                long_press_threshold,
                refresh_time,
                reset_time,
                multi_step_threshold,
                inverted,
            );
            &&& encoder.lines == lines
            &&& encoder.button.debounce_threshold == debounce_threshold
            &&& encoder.button.long_press_threshold == long_press_threshold
            &&& encoder.button.refresh_time == refresh_time
            &&& encoder.button.debounce_counter == 0
            &&& !encoder.button.pressed
            &&& encoder.button.phase is Idle
            &&& encoder.button.pending is NoEvent
            &&& encoder.button.hold_count == 0
            &&& encoder.accumulator == 0
            &&& encoder.direction is NoDirection
            &&& encoder.run == 0
            &&& encoder.idle_polls == 0
            &&& encoder.reset_time == reset_time
            &&& encoder.multi_step_threshold == multi_step_threshold
            &&& encoder.inverted == inverted
        }),
{
}

/// An update remembers the new levels and moves the accumulator by the step to them, stopped
/// by nothing but the two ends of its range. It touches neither the run nor the settings.
pub proof fn update_takes_in_one_step(encoder: EncoderView, sw_low: bool, lines: Lines)
    requires
        -128 <= encoder.accumulator <= 127,
    ensures
        ({
            let next = encoder.updated(sw_low, lines);
            let step = encoder.lines.step_to(lines);
            &&& next.lines == lines
            &&& step == 1 && encoder.accumulator < 127 ==> next.accumulator == encoder.accumulator
                + 1
            &&& step == -1 && encoder.accumulator > -128 ==> next.accumulator
                == encoder.accumulator - 1
            &&& step == 0 || step == 1 && encoder.accumulator == 127 || step == -1
                && encoder.accumulator == -128 ==> next.accumulator == encoder.accumulator
            &&& next.direction == encoder.direction
            &&& next.run == encoder.run
            &&& next.idle_polls == encoder.idle_polls
            &&& next.reset_time == encoder.reset_time
            &&& next.multi_step_threshold == encoder.multi_step_threshold
            &&& next.inverted == encoder.inverted
            &&& next.button == encoder.button.updated::<RotaryButton>(sw_low)
        }),
{
}

/// Whatever a poll returns, it leaves the levels of the lines and the settings as they were.
pub proof fn poll_leaves_the_lines(encoder: EncoderView)
    ensures
        encoder.polled().lines == encoder.lines,
        encoder.polled().reset_time == encoder.reset_time,
        encoder.polled().multi_step_threshold == encoder.multi_step_threshold,
        encoder.polled().inverted == encoder.inverted,
        encoder.polled().button.debounce_threshold == encoder.button.debounce_threshold,
        encoder.polled().button.long_press_threshold == encoder.button.long_press_threshold,
        encoder.polled().button.refresh_time == encoder.button.refresh_time,
{
}

/// A poll is refused for one reason only: the run would get longer than its counter counts.
pub proof fn poll_is_refused_only_at_the_counters_end(encoder: RotaryEncoder)
    requires
        encoder.wf(),
    ensures
        encoder.poll_ready() <==> encoder@.polled().run <= u8::MAX,
        !encoder.poll_ready() ==> encoder@.run == u8::MAX,
{
}

/// A poll that finds four steps or more one way takes them all, and nothing but them. The click
/// continues a run in its direction or begins one; it starts the pause afresh; it is reported up
/// or down by its direction and the inversion; and it is fast for every run that is longer than
/// the multi-step threshold, and downwards of zero also for one that is just as long.
pub proof fn poll_takes_a_click(encoder: EncoderView)
    requires
        encoder.accumulator >= 4 || encoder.accumulator <= -4,
    ensures
        ({
            let next = encoder.polled();
            let event = encoder.poll_event();
            let positive = encoder.accumulator >= 4;
            let continued = if positive {
                encoder.direction is Positive
            } else {
                encoder.direction is Negative
            };
            &&& next.accumulator == 0
            &&& next.button == encoder.button
            &&& next.idle_polls == 0
            &&& positive ==> next.direction is Positive
            &&& !positive ==> next.direction is Negative
            &&& continued ==> next.run == encoder.run + 1
            &&& !continued ==> next.run == 1
            &&& positive != encoder.inverted ==> event is Up || event is FastUp
            &&& positive == encoder.inverted ==> event is Down || event is FastDown
            &&& positive ==> (event is FastUp || event is FastDown <==> next.run
                > encoder.multi_step_threshold)
            &&& !positive ==> (event is FastUp || event is FastDown <==> next.run
                >= encoder.multi_step_threshold)
        }),
{
}

/// A poll that finds less than a click returns what the button has pending, and takes that
/// alone from the button; the accumulated steps stay. With an event the run is over and the
/// pause starts afresh. Without one, the pause gets one poll longer; the run goes on while the
/// pause is within the low eight bits of the reset time and is over when it is beyond them,
/// which it cannot be when all eight are set.
pub proof fn poll_without_a_click(encoder: EncoderView)
    requires
        -4 < encoder.accumulator < 4,
        encoder.idle_polls <= encoder.reset_time % 256,
    ensures
        ({
            let next = encoder.polled();
            let event = encoder.poll_event();
            let limit = encoder.reset_time % 256;
            &&& event == encoder.button.pending
            &&& next.accumulator == encoder.accumulator
            &&& next.button.pending is NoEvent
            &&& next.button.debounce_counter == encoder.button.debounce_counter
            &&& next.button.pressed == encoder.button.pressed
            &&& next.button.phase == encoder.button.phase
            &&& next.button.hold_count == encoder.button.hold_count
            &&& event !is NoEvent ==> next.run == 0 && next.direction is NoDirection
                && next.idle_polls == 0
            &&& event is NoEvent && encoder.idle_polls < limit ==> next.run == encoder.run
                && next.direction == encoder.direction && next.idle_polls == encoder.idle_polls + 1
            &&& event is NoEvent && encoder.idle_polls == limit && limit < 255 ==> next.run == 0
                && next.direction is NoDirection && next.idle_polls == 0
            &&& event is NoEvent && encoder.idle_polls == limit && limit == 255 ==> next.run
                == encoder.run && next.direction == encoder.direction && next.idle_polls == 255
        }),
{
}

/// After a poll that returns an event, the pause begins at zero.
pub proof fn event_starts_the_pause_afresh(encoder: EncoderView)
    requires
        encoder.poll_event() !is NoEvent,
    ensures
        encoder.polled().idle_polls == 0,
{
}

/// The lines after two batches are the lines after the second, starting from those after the
/// first.
proof fn lines_after_both(lines: Lines, first: Seq<Sample>, second: Seq<Sample>)
    ensures
        lines_after(lines, first + second) == lines_after(lines_after(lines, first), second),
{
    if second.len() > 0 {
        assert((first + second).last() == second.last());
    } else {
        assert(first + second =~= first);
    }
}

/// After updates the lines are as last sampled.
proof fn updates_remember_the_lines(encoder: EncoderView, samples: Seq<Sample>)
    ensures
        encoder.updated_all(samples).lines == lines_after(encoder.lines, samples),
{
}

/// However polls fall between the samples, and whatever they report, the lines are as last
/// sampled.
pub proof fn lines_are_as_last_sampled(encoder: EncoderView, rounds: Seq<Seq<Sample>>)
    ensures
        encoder.after_rounds(rounds).lines == lines_after(encoder.lines, all_samples(rounds)),
    decreases rounds.len(),
{
    if rounds.len() > 0 {
        let before = rounds.drop_last();
        lines_are_as_last_sampled(encoder, before);
        updates_remember_the_lines(encoder.after_rounds(before), rounds.last());
        lines_after_both(encoder.lines, all_samples(before), rounds.last());
    }
}

/// Steps are counted from the last click: let the poll after some rounds have taken a click,
/// and the polls of the rounds since then have found none. Then what waits is the sum of the
/// steps along the samples since that click, from the levels that were sampled last before it.
pub proof fn steps_are_counted_from_the_last_click(
    encoder: EncoderView,
    first: Seq<Seq<Sample>>,
    rest: Seq<Seq<Sample>>,
)
    requires
        first.len() > 0,
        encoder.before_last_poll(first).accumulator >= 4 || encoder.before_last_poll(
            first,
        ).accumulator <= -4,
        rest.len() > 0,
        encoder.after_rounds(first).every_poll_finds(
            rest.drop_last(),
            RotaryAccumulatorMode::NoDirection,
        ),
        encoder.after_rounds(first).stays_in_range(all_samples(rest)),
    ensures
        encoder.after_rounds(first).before_last_poll(rest).accumulator == net_steps(
            lines_after(encoder.lines, all_samples(first)),
            all_samples(rest),
        ),
{
    let mid = encoder.after_rounds(first);
    let before = rest.drop_last();
    lines_are_as_last_sampled(encoder, first);
    poll_takes_a_click(encoder.before_last_poll(first));
    polls_without_click_keep_the_steps(mid, before);
    updates_concatenate(mid, all_samples(before), rest.last());
    rotation_depends_on_lines(
        mid.after_rounds(before),
        mid.updated_all(all_samples(before)),
        rest.last(),
    );
    no_step_is_missed(mid, all_samples(rest));
}

/// The n-th click of a run is fast if and only if n is beyond the multi-step threshold, or, for
/// negative clicks, at it or beyond: for every n and every threshold.
pub proof fn nth_click_is_fast(
    encoder: EncoderView,
    rounds: Seq<Seq<Sample>>,
    direction: RotaryAccumulatorMode,
)
    requires
        direction !is NoDirection,
        encoder.direction != direction,
        rounds.len() > 0,
        encoder.every_poll_finds(rounds, direction),
    ensures
        ({
            let event = encoder.before_last_poll(rounds).poll_event();
            let fast = event is FastUp || event is FastDown;
            let up = event is Up || event is FastUp;
            let down = event is Down || event is FastDown;
            &&& direction is Positive ==> (fast <==> rounds.len() > encoder.multi_step_threshold)
            &&& direction is Negative ==> (fast <==> rounds.len() >= encoder.multi_step_threshold)
            &&& (direction is Positive) != encoder.inverted ==> up
            &&& (direction is Positive) == encoder.inverted ==> down
            &&& encoder.after_rounds(rounds).run == rounds.len()
        }),
{
    clicks_make_a_run(encoder, rounds, direction);
}

/// Whether every round turns by the same number of steps, from the levels sampled before it.
pub open spec fn turns_every_round(lines: Lines, rounds: Seq<Seq<Sample>>, steps: int) -> bool
    decreases rounds.len(),
{
    rounds.len() == 0 || {
        let from = lines_after(lines, all_samples(rounds.drop_last()));
        &&& turns_every_round(lines, rounds.drop_last(), steps)
        &&& rounds.last().len() <= 127
        &&& net_steps(from, rounds.last()) == steps
    }
}

/// In steady turning every poll finds a click.
proof fn steady_turning_clicks(
    encoder: EncoderView,
    rounds: Seq<Seq<Sample>>,
    direction: RotaryAccumulatorMode,
    steps: int,
)
    requires
        encoder.accumulator == 0,
        turns_every_round(encoder.lines, rounds, steps),
        direction is Positive && steps >= 4 || direction is Negative && steps <= -4,
    ensures
        encoder.every_poll_finds(rounds, direction),
        encoder.after_rounds(rounds).accumulator == 0,
    decreases rounds.len(),
{
    if rounds.len() > 0 {
        let before = rounds.drop_last();
        let mid = encoder.after_rounds(before);
        steady_turning_clicks(encoder, before, direction, steps);
        lines_are_as_last_sampled(encoder, before);
        small_batch_stays_in_range(mid, rounds.last());
        no_step_is_missed(mid, rounds.last());
    }
}

/// Steady turning is reported poll by poll: when every batch of samples turns by a click or
/// more the same way, every poll reports a rotation that way, and a fast one as soon as it is
/// the n-th for an n beyond the multi-step threshold (turning back, at it or beyond).
pub proof fn steady_turning_is_reported(
    encoder: EncoderView,
    rounds: Seq<Seq<Sample>>,
    steps: int,
)
    requires
        encoder.accumulator == 0,
        encoder.direction is NoDirection,
        rounds.len() > 0,
        turns_every_round(encoder.lines, rounds, steps),
        steps >= 4 || steps <= -4,
    ensures
        ({
            let event = encoder.before_last_poll(rounds).poll_event();
            let n = rounds.len();
            let fast = if steps > 0 {
                n > encoder.multi_step_threshold
            } else {
                n >= encoder.multi_step_threshold
            };
            event == if (steps > 0) != encoder.inverted {
                if fast {
                    InputEvent::FastUp
                } else {
                    InputEvent::Up
                }
            } else {
                if fast {
                    InputEvent::FastDown
                } else {
                    InputEvent::Down
                }
            }
        }),
{
    let direction = if steps > 0 {
        RotaryAccumulatorMode::Positive
    } else {
        RotaryAccumulatorMode::Negative
    };
    steady_turning_clicks(encoder, rounds, direction, steps);
    nth_click_is_fast(encoder, rounds, direction);
}

/// Whether a click continues the run of the click before it depends on the pause between the
/// two alone, whatever came before: a pause within the low eight bits of the reset time, in
/// polls without an event, keeps the run, and a longer one ends it; when all eight bits are
/// set, no pause does.
pub proof fn pause_between_two_clicks(
    encoder: EncoderView,
    pause: Seq<Seq<Sample>>,
    turn: Seq<Sample>,
)
    requires
        encoder.accumulator >= 4 || encoder.accumulator <= -4,
        encoder.polled().quiet_every_round(pause),
        ({
            let second = encoder.polled().after_rounds(pause).updated_all(turn);
            if encoder.accumulator >= 4 {
                second.accumulator >= 4
            } else {
                second.accumulator <= -4
            }
        }),
    ensures
        ({
            let second = encoder.polled().after_rounds(pause).updated_all(turn);
            let limit = encoder.reset_time % 256;
            let run = second.polled().run;
            let event = second.poll_event();
            let fast = event is FastUp || event is FastDown;
            &&& pause.len() <= limit || limit == 255 ==> run == encoder.polled().run + 1
            &&& pause.len() > limit && limit < 255 ==> run == 1
            &&& encoder.accumulator >= 4 ==> (fast <==> run > encoder.multi_step_threshold)
            &&& encoder.accumulator <= -4 ==> (fast <==> run >= encoder.multi_step_threshold)
        }),
{
    let first = encoder.polled();
    poll_takes_a_click(encoder);
    pause_ends_the_run(first, pause);
    settings_kept_by_rounds(first, pause);
    run_kept_by_updates(first.after_rounds(pause), turn);
    poll_takes_a_click(first.after_rounds(pause).updated_all(turn));
}

} // verus!
