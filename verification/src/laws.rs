//! What holds of every stopwatch, whatever the readings.

use vstd::prelude::*;
use crate::state::{capped, span, Control, StopwatchModel, LIMIT};
use crate::text::{
    clock_text, decimal, digit_char, hours_of, millis_of, minutes_of, seconds_of, zero_padded,
};

verus! {

/// Elapsed time never runs backwards: of two readings, the later one shows
/// at least as much elapsed time as the earlier one, running or stopped.
pub proof fn lemma_elapsed_monotonic(s: StopwatchModel, earlier: nat, later: nat)
    requires
        earlier <= later,
    ensures
        s.elapsed(earlier) <= s.elapsed(later),
{
}

/// Along any run of readings that never step back, the elapsed time shown
/// never steps back either.
pub proof fn lemma_elapsed_monotonic_along(s: StopwatchModel, readings: Seq<nat>)
    requires
        forall|i: int, j: int| 0 <= i <= j < readings.len() ==> readings[i] <= readings[j],
    ensures
        forall|i: int, j: int|
            0 <= i <= j < readings.len() ==> s.elapsed(readings[i]) <= s.elapsed(readings[j]),
{
    assert forall|i: int, j: int| 0 <= i <= j < readings.len() implies s.elapsed(readings[i])
        <= s.elapsed(readings[j]) by {
        lemma_elapsed_monotonic(s, readings[i], readings[j]);
    }
}

/// A stopped stopwatch shows the same elapsed time at every reading.
pub proof fn lemma_stopped_holds_still(s: StopwatchModel, now: nat, later: nat)
    requires
        !s.running(),
    ensures
        s.elapsed(later) == s.elapsed(now),
        s.elapsed(now) == s.accumulated,
{
}

/// Starting twice is starting once: a second start changes nothing,
/// whatever its reading.
pub proof fn lemma_start_idempotent(s: StopwatchModel, now: nat, again: nat)
    ensures
        s.start(now).start(again) == s.start(now),
        s.start(now).running(),
{
}

/// Stopping twice is stopping once.
pub proof fn lemma_stop_idempotent(s: StopwatchModel, now: nat, again: nat)
    ensures
        s.stop(now).stop(again) == s.stop(now),
        !s.stop(now).running(),
{
}

/// Stopping keeps the time: at every later reading a stopwatch stopped at
/// `now` shows what it showed at `now`.
pub proof fn lemma_stop_keeps_elapsed(s: StopwatchModel, now: nat, later: nat)
    ensures
        s.stop(now).elapsed(later) == s.elapsed(now),
{
}

/// Pause and resume: after a stop at `paused` and a start at `resumed`, the
/// elapsed time at `now` is the elapsed time at the stop plus the time since
/// the resume, as long as that sum is within `LIMIT`.
pub proof fn lemma_pause_resume(s: StopwatchModel, paused: nat, resumed: nat, now: nat)
    requires
        s.elapsed(paused) + span(resumed, now) <= LIMIT,
    ensures
        s.stop(paused).start(resumed).accumulated == s.elapsed(paused),
        s.stop(paused).start(resumed).elapsed(now) == s.elapsed(paused) + span(resumed, now),
{
}

/// Pause and resume for every reading: the sum of the elapsed time at the
/// stop and the time since the resume, held to `LIMIT`.
pub proof fn lemma_pause_resume_capped(s: StopwatchModel, paused: nat, resumed: nat, now: nat)
    ensures
        s.stop(paused).start(resumed).elapsed(now) == capped(
            s.elapsed(paused) + span(resumed, now),
        ),
{
}

/// After a reset the elapsed time is zero at every reading, whatever the
/// stopwatch was doing before.
pub proof fn lemma_reset_zeroes(s: StopwatchModel, now: nat)
    ensures
        s.reset().elapsed(now) == 0,
        !s.reset().running(),
        s.reset().laps == s.laps,
{
}

/// A lap adds exactly one entry, the elapsed time at its reading, behind the
/// earlier laps, which stay as they were; the timing is not disturbed.
pub proof fn lemma_lap_appends(s: StopwatchModel, now: nat)
    ensures
        s.lap(now).laps.len() == s.laps.len() + 1,
        s.lap(now).laps.last() == s.elapsed(now),
        s.lap(now).laps.drop_last() == s.laps,
        forall|at: nat| s.lap(now).elapsed(at) == s.elapsed(at),
        s.lap(now).running() == s.running(),
{
    assert(s.laps.push(s.elapsed(now)).drop_last() =~= s.laps);
}

/// Laps stand in the order in which they were taken.
pub proof fn lemma_laps_in_call_order(s: StopwatchModel, first: nat, second: nat)
    ensures
        s.lap(first).lap(second).laps == s.laps.push(s.elapsed(first)).push(s.elapsed(second)),
{
}

/// No control but `Clear` removes or reorders a lap: the laps recorded before
/// the press are the first laps after it, in the same order.
pub proof fn lemma_laps_only_grow(s: StopwatchModel, control: Control, now: nat)
    requires
        control != Control::Clear,
    ensures
        s.laps.is_prefix_of(s.press(control, now).laps),
{
}

/// Clearing the laps leaves none and does not touch the timing.
pub proof fn lemma_clear_laps_keeps_time(s: StopwatchModel, now: nat)
    ensures
        s.clear_laps().laps.len() == 0,
        s.clear_laps().elapsed(now) == s.elapsed(now),
        s.clear_laps().running() == s.running(),
{
}

/// The `Clear` control leaves the stopwatch as it was made.
pub proof fn lemma_clear_control_restores_idle(s: StopwatchModel, now: nat)
    ensures
        s.press(Control::Clear, now) == StopwatchModel::idle(),
{
    assert(s.press(Control::Clear, now).laps =~= Seq::<nat>::empty());
}

/// A number below a hundred, padded to two digits, is its tens digit and its
/// ones digit.
pub proof fn lemma_two_digits(n: nat)
    requires
        n < 100,
    ensures
        zero_padded(n, 2) == seq![digit_char(n / 10), digit_char(n % 10)],
{
    reveal_with_fuel(decimal, 2);
    assert(zero_padded(n, 2) =~= seq![digit_char(n / 10), digit_char(n % 10)]);
}

/// A number below a thousand, padded to three digits, is its hundreds digit,
/// its tens digit and its ones digit.
pub proof fn lemma_three_digits(n: nat)
    requires
        n < 1000,
    ensures
        zero_padded(n, 3) == seq![
            digit_char(n / 100),
            digit_char(n / 10 % 10),
            digit_char(n % 10),
        ],
{
    reveal_with_fuel(decimal, 3);
    assert(zero_padded(n, 3) =~= seq![
        digit_char(n / 100),
        digit_char(n / 10 % 10),
        digit_char(n % 10),
    ]);
}

/// Minutes and seconds stay below sixty and milliseconds below a thousand,
/// and together with the hours they account for every whole millisecond.
pub proof fn lemma_fields_in_range(nanos: nat)
    ensures
        minutes_of(nanos) < 60,
        seconds_of(nanos) < 60,
        millis_of(nanos) < 1000,
        ((hours_of(nanos) * 60 + minutes_of(nanos)) * 60 + seconds_of(nanos)) * 1000 + millis_of(
            nanos,
        ) == nanos / 1_000_000,
{
}

/// Below a hundred hours the text has twelve characters: two digits each
/// for hours, minutes and seconds, three for milliseconds, with colons
/// between the first three and a point before the last.
pub proof fn lemma_clock_text_below_hundred_hours(nanos: nat)
    requires
        hours_of(nanos) < 100,
    ensures
        clock_text(nanos) == seq![
            digit_char(hours_of(nanos) / 10),
            digit_char(hours_of(nanos) % 10),
            ':',
            digit_char(minutes_of(nanos) / 10),
            digit_char(minutes_of(nanos) % 10),
            ':',
            digit_char(seconds_of(nanos) / 10),
            digit_char(seconds_of(nanos) % 10),
            '.',
            digit_char(millis_of(nanos) / 100),
            digit_char(millis_of(nanos) / 10 % 10),
            digit_char(millis_of(nanos) % 10),
        ],
{
    lemma_fields_in_range(nanos);
    lemma_two_digits(hours_of(nanos));
    lemma_two_digits(minutes_of(nanos));
    lemma_two_digits(seconds_of(nanos));
    lemma_three_digits(millis_of(nanos));
    assert(clock_text(nanos) =~= seq![
        digit_char(hours_of(nanos) / 10),
        digit_char(hours_of(nanos) % 10),
        ':',
        digit_char(minutes_of(nanos) / 10),
        digit_char(minutes_of(nanos) % 10),
        ':',
        digit_char(seconds_of(nanos) / 10),
        digit_char(seconds_of(nanos) % 10),
        '.',
        digit_char(millis_of(nanos) / 100),
        digit_char(millis_of(nanos) / 10 % 10),
        digit_char(millis_of(nanos) % 10),
    ]);
}

/// From a hundred hours on the hours are written out in full, and the rest
/// of the text is as before: ten characters for minutes, seconds and
/// milliseconds with their separators.
pub proof fn lemma_clock_text_from_hundred_hours(nanos: nat)
    requires
        hours_of(nanos) >= 100,
    ensures
        clock_text(nanos) == decimal(hours_of(nanos)) + seq![
            ':',
            digit_char(minutes_of(nanos) / 10),
            digit_char(minutes_of(nanos) % 10),
            ':',
            digit_char(seconds_of(nanos) / 10),
            digit_char(seconds_of(nanos) % 10),
            '.',
            digit_char(millis_of(nanos) / 100),
            digit_char(millis_of(nanos) / 10 % 10),
            digit_char(millis_of(nanos) % 10),
        ],
        decimal(hours_of(nanos)).len() >= 3,
{
    lemma_fields_in_range(nanos);
    lemma_two_digits(minutes_of(nanos));
    lemma_two_digits(seconds_of(nanos));
    lemma_three_digits(millis_of(nanos));
    reveal_with_fuel(decimal, 3);
    assert(decimal(hours_of(nanos)).len() >= 3);
    assert(clock_text(nanos) =~= decimal(hours_of(nanos)) + seq![
        ':',
        digit_char(minutes_of(nanos) / 10),
        digit_char(minutes_of(nanos) % 10),
        ':',
        digit_char(seconds_of(nanos) / 10),
        digit_char(seconds_of(nanos) % 10),
        '.',
        digit_char(millis_of(nanos) / 100),
        digit_char(millis_of(nanos) / 10 % 10),
        digit_char(millis_of(nanos) % 10),
    ]);
}

} // verus!
