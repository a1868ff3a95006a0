//! Properties that relate the library's functions to each other, proved
//! over the specifications that their contracts use.
use vstd::prelude::*;

use crate::sensor::{bracket_energy, duration_from_ns, duration_of, elapsed_ns, Sensor};
use crate::session::{
    passed_uj, passed_us, repeat_done, sum_uj, sum_us, trial_record, CompletedTest, TrialRecord,
    REPEAT_TESTS_AMOUNT_OF_TIMES,
};
use crate::verdict::{verdict, PanicPayload, ShouldPanic, Verdict};
use crate::text::progress_line;

verus! {

/// A bracket whose counter did not go down spent the difference of its two
/// readings. One whose counter went down wrapped around once: it spent what
/// was left of the range after the start, plus the stop reading.
pub proof fn energy_of_bracket<S: Sensor>(sensor: S)
    ensures
        sensor.energy_end() >= sensor.energy_start() ==> bracket_energy(
            sensor.energy_start(),
            sensor.energy_end(),
            sensor.max_range(),
        ) == sensor.energy_end() - sensor.energy_start(),
        sensor.energy_end() < sensor.energy_start() ==> bracket_energy(
            sensor.energy_start(),
            sensor.energy_end(),
            sensor.max_range(),
        ) == (sensor.max_range() - sensor.energy_start()) + sensor.energy_end(),
{
}

/// The elapsed time of a bracket is zero while its start or its stop is
/// missing, and zero, not negative, when the stop's instant precedes the
/// start's.
pub proof fn elapsed_of_incomplete_bracket(start: Option<u64>, end: Option<u64>)
    ensures
        start is None || end is None ==> elapsed_ns(start, end) == 0,
        start is Some && end is Some && end->Some_0 < start->Some_0 ==> elapsed_ns(start, end)
            == 0,
        start is None || end is None ==> duration_from_ns(elapsed_ns(start, end)) == duration_of(
            0,
            0,
        ),
{
}

/// The progress line of a test is a function of its name, state, energy and
/// time alone: two tests that agree on those read the same.
pub proof fn progress_line_depends_on_data(a: CompletedTest, b: CompletedTest)
    requires
        a.name@ == b.name@,
        a.state@ == b.state@,
        a.uj == b.uj,
        a.us == b.us,
    ensures
        progress_line(a) == progress_line(b),
{
}

/// Only passed tests count against the whole run: a test that failed or was
/// ignored leaves the subtracted totals as they were, a passed one adds its
/// own, and with no test nothing is subtracted, so the overhead is the
/// whole run.
pub proof fn overhead_counts_passed_tests(ts: Seq<CompletedTest>, t: CompletedTest)
    ensures
        passed_uj(Seq::<CompletedTest>::empty()) == 0,
        passed_us(Seq::<CompletedTest>::empty()) == 0,
        t.state@ != Verdict::Passed ==> passed_uj(ts.push(t)) == passed_uj(ts) && passed_us(
            ts.push(t),
        ) == passed_us(ts),
        t.state@ == Verdict::Passed ==> passed_uj(ts.push(t)) == passed_uj(ts) + t.uj->Some_0
            && passed_us(ts.push(t)) == passed_us(ts) + t.us->Some_0,
{
    assert(ts.push(t).drop_last() =~= ts);
}

/// The repeat loop stops at the first trial that does not pass: when the
/// trials before trial `k` passed and trial `k` did not, the loop goes on
/// after each of the first `k` trials, is over after trial `k`, and has then
/// accumulated exactly the energy and time of those `k + 1` trials.
pub proof fn repeat_stops_at_first_failure(h: Seq<TrialRecord>, k: int)
    requires
        0 <= k < h.len(),
        k < REPEAT_TESTS_AMOUNT_OF_TIMES,
        forall|i: int| 0 <= i < k ==> #[trigger] h[i].verdict == Verdict::Passed,
        h[k].verdict != Verdict::Passed,
    ensures
        forall|j: int| 0 <= j <= k ==> !repeat_done(#[trigger] h.take(j)),
        repeat_done(h.take(k + 1)),
        sum_uj(h.take(k + 1)) == sum_uj(h.take(k)) + h[k].uj,
        sum_us(h.take(k + 1)) == sum_us(h.take(k)) + h[k].us,
{
    assert forall|j: int| 0 <= j <= k implies !repeat_done(#[trigger] h.take(j)) by {
        if j > 0 {
            assert(h.take(j).last() == h[j - 1]);
        }
    }
    assert(h.take(k + 1).last() == h[k]);
    assert(h.take(k + 1).drop_last() =~= h.take(k));
}

/// A test whose trials all pass runs the whole budget: the loop goes on
/// after each trial before the last of the budget and is over after it.
pub proof fn repeat_runs_whole_budget(h: Seq<TrialRecord>)
    requires
        h.len() == REPEAT_TESTS_AMOUNT_OF_TIMES,
        forall|i: int| 0 <= i < h.len() ==> #[trigger] h[i].verdict == Verdict::Passed,
    ensures
        forall|j: int| 0 <= j < h.len() ==> !repeat_done(#[trigger] h.take(j)),
        repeat_done(h),
{
    assert forall|j: int| 0 <= j < h.len() implies !repeat_done(#[trigger] h.take(j)) by {
        if j > 0 {
            assert(h.take(j).last() == h[j - 1]);
        }
    }
}

/// A trial whose readings lie in the counter's range and whose totals fit
/// contributes exactly its bracket's energy and time, judged by its verdict.
/// Any other trial does not pass, so it ends the repeat loop.
pub proof fn trial_contributes_its_bracket<S: Sensor>(
    sp: ShouldPanic,
    sensor: S,
    outcome: Result<(), PanicPayload>,
    uj: int,
    us: int,
)
    ensures
        ({
            let e = bracket_energy(sensor.energy_start(), sensor.energy_end(), sensor.max_range());
            let t = elapsed_ns(sensor.timer_start(), sensor.timer_end()) / 1000;
            let fits = (sensor.energy_end() < sensor.energy_start() ==> sensor.energy_start()
                <= sensor.max_range()) && uj + e <= u128::MAX && us + t <= u128::MAX;
            let rec = trial_record(sp, sensor, outcome, uj, us);
            &&& fits ==> rec.uj == e && rec.us == t && rec.verdict == verdict(sp, outcome)
            &&& !fits ==> rec.verdict != Verdict::Passed
        }),
{
}

} // verus!
