//! The repeated-trial loop of one test and the accounting of a whole
//! session: per-test totals, whole-run totals and the harness's overhead.
use vstd::prelude::*;

use crate::sensor::{bracket_energy, elapsed_ns, Sensor, SensorError};
use crate::verdict::{test_state, verdict, PanicPayload, ShouldPanic, TestDesc, TestResult, Verdict};

verus! {

/// How many trials a passing test runs.
pub const REPEAT_TESTS_AMOUNT_OF_TIMES: usize = 100;

/// The diagnostic of a trial whose energy could not be accounted for.
pub open spec fn counter_fault_message() -> Seq<char> {
    "energy counter reading out of range"@
}

/// What one trial contributed: its energy in microjoules, its time in
/// microseconds and its verdict.
pub struct TrialRecord {
    pub uj: int,
    pub us: int,
    pub verdict: Verdict,
}

/// Energy over a sequence of trials.
pub open spec fn sum_uj(h: Seq<TrialRecord>) -> int
    decreases h.len(),
{
    if h.len() == 0 {
        0
    } else {
        sum_uj(h.drop_last()) + h.last().uj
    }
}

/// Time over a sequence of trials.
pub open spec fn sum_us(h: Seq<TrialRecord>) -> int
    decreases h.len(),
{
    if h.len() == 0 {
        0
    } else {
        sum_us(h.drop_last()) + h.last().us
    }
}

/// The repeat loop is over once a trial did not pass or the trial budget
/// is spent.
pub open spec fn repeat_done(h: Seq<TrialRecord>) -> bool {
    h.len() > 0 && (h.last().verdict != Verdict::Passed || h.len() >= REPEAT_TESTS_AMOUNT_OF_TIMES)
}

/// The record of a trial that ended in `outcome` on a sensor whose bracket
/// now holds the trial's readings, after trials that spent `uj` and `us`.
/// A trial whose energy cannot be accounted for, or whose totals would not
/// fit, fails and adds nothing.
pub open spec fn trial_record<S: Sensor>(
    sp: ShouldPanic,
    sensor: S,
    outcome: Result<(), PanicPayload>,
    uj: int,
    us: int,
) -> TrialRecord {
    let e = bracket_energy(sensor.energy_start(), sensor.energy_end(), sensor.max_range());
    let t = elapsed_ns(sensor.timer_start(), sensor.timer_end()) / 1000;
    if (sensor.energy_end() < sensor.energy_start() ==> sensor.energy_start() <= sensor.max_range())
        && uj + e <= u128::MAX && us + t <= u128::MAX {
        TrialRecord { uj: e, us: t as int, verdict: verdict(sp, outcome) }
    } else {
        TrialRecord { uj: 0, us: 0, verdict: Verdict::Failed(Some(counter_fault_message())) }
    }
}

/// The outcome of a full test slot. A passed test always carries its energy
/// and time.
#[derive(Clone, Debug)]
pub struct CompletedTest {
    pub name: String,
    pub state: TestResult,
    pub uj: Option<u128>,
    pub us: Option<u128>,
    pub stdout: Option<Vec<u8>>,
}

impl CompletedTest {
    /// Well formed: a passed test carries its energy and time.
    pub open spec fn wf(&self) -> bool {
        self.state@ == Verdict::Passed ==> self.uj is Some && self.us is Some
    }

    /// The slot of a test that was not run.
    pub fn empty(desc: TestDesc) -> (r: CompletedTest)
        ensures
            r.name == desc.name,
            r.state@ == Verdict::Ignored,
            r.uj is None,
            r.us is None,
            r.stdout is None,
            r.wf(),
    {
        CompletedTest { name: desc.name, state: TestResult::Ignored, uj: None, us: None, stdout: None }
    }

    /// The slot of a test whose sensor could not be acquired: it fails with
    /// the sensor's error message.
    pub fn unprepared(desc: TestDesc, error: &SensorError) -> (r: CompletedTest)
        ensures
            r.name == desc.name,
            r.state@ == Verdict::Failed(Some(error.message_view())),
            r.uj is None,
            r.us is None,
            r.stdout is None,
            r.wf(),
    {
        CompletedTest {
            name: desc.name,
            state: TestResult::Failed(Some(error.message())),
            uj: None,
            us: None,
            stdout: None,
        }
    }
}

/// The repeat loop of one test: trials run one after another, each in its
/// own bracket, until one does not pass or the budget is spent.
pub struct TrialRun {
    desc: TestDesc,
    uj: u128,
    us: u128,
    trials: usize,
    state: TestResult,
    done: bool,
    output: Vec<u8>,
    history: Ghost<Seq<TrialRecord>>,
}

impl TrialRun {
    /// The trials recorded so far.
    pub closed spec fn history(&self) -> Seq<TrialRecord> {
        self.history@
    }

    /// What the last recorded trial wrote to its standard output.
    pub closed spec fn last_output(&self) -> Seq<u8> {
        self.output@
    }

    /// The test's description.
    pub closed spec fn test(&self) -> TestDesc {
        self.desc
    }

    /// The totals, the count and the state agree with the recorded trials.
    pub closed spec fn wf(&self) -> bool {
        &&& self.uj == sum_uj(self.history@)
        &&& self.us == sum_us(self.history@)
        &&& self.trials == self.history@.len()
        &&& self.trials <= REPEAT_TESTS_AMOUNT_OF_TIMES
        &&& forall|i: int|
            0 <= i < self.history@.len() - 1 ==> #[trigger] self.history@[i].verdict
                == Verdict::Passed
        &&& self.state@ == if self.history@.len() == 0 {
            Verdict::Ignored
        } else {
            self.history@.last().verdict
        }
        &&& self.done == repeat_done(self.history@)
    }

    /// Starts the slot of `desc`: a skipped test is over at once, as an
    /// ignored slot; any other begins its repeat loop with no trial run.
    pub fn new(desc: TestDesc) -> (r: Result<TrialRun, CompletedTest>)
        ensures
            desc.ignore ==> (r matches Err(c) && c.name == desc.name && c.state@
                == Verdict::Ignored && c.uj is None && c.us is None && c.stdout is None),
            !desc.ignore ==> (r matches Ok(run) && run.wf() && run.test() == desc
                && run.history().len() == 0),
    {
        if desc.ignore {
            Err(CompletedTest::empty(desc))
        } else {
            let run = TrialRun {
                desc,
                uj: 0,
                us: 0,
                trials: 0,
                state: TestResult::Ignored,
                done: false,
                output: Vec::new(),
                history: Ghost(Seq::empty()),
            };
            assert(sum_uj(run.history@) == 0);
            Ok(run)
        }
    }

    /// Whether the loop is over.
    pub fn is_done(&self) -> (r: bool)
        requires
            self.wf(),
        ensures
            r == repeat_done(self.history()),
    {
        self.done
    }

    /// How many trials ran.
    pub fn trials(&self) -> (r: usize)
        requires
            self.wf(),
        ensures
            r == self.history().len(),
    {
        self.trials
    }

    /// Records a trial that ended in `result`, measured by `sensor`'s bracket,
    /// with what it wrote to its standard output. Returns whether the loop is
    /// over.
    pub fn record_trial<S: Sensor>(
        &mut self,
        sensor: &S,
        result: Result<(), PanicPayload>,
        output: Vec<u8>,
    ) -> (done: bool)
        requires
            old(self).wf(),
            !repeat_done(old(self).history()),
        ensures
            final(self).wf(),
            final(self).test() == old(self).test(),
            final(self).history() == old(self).history().push(
                trial_record(
                    old(self).test().should_panic,
                    *sensor,
                    result,
                    sum_uj(old(self).history()),
                    sum_us(old(self).history()),
                ),
            ),
            final(self).last_output() == output@,
            done == repeat_done(final(self).history()),
    {
        let ghost rec = trial_record(
            self.desc.should_panic,
            *sensor,
            result,
            sum_uj(self.history@),
            sum_us(self.history@),
        );
        let mut fault = true;
        if sensor.reading_in_range() {
            let e = sensor.get_measured_uj();
            let t = sensor.get_elapsed_time_us();
            if e <= u128::MAX - self.uj && t <= u128::MAX - self.us {
                self.uj = self.uj + e;
                self.us = self.us + t;
                self.state = test_state(&self.desc, result);
                fault = false;
            }
        }
        if fault {
            let msg = String::from_str("energy counter reading out of range");
            self.state = TestResult::Failed(Some(msg));
        }
        let ghost old_history = self.history@;
        self.history = Ghost(self.history@.push(rec));
        proof {
            assert(self.history@.drop_last() =~= old_history);
            assert forall|i: int| 0 <= i < self.history@.len() - 1 implies #[trigger] self.history@[i].verdict
                == Verdict::Passed by {
                assert(self.history@[i] == old_history[i]);
            }
        }
        self.trials = self.trials + 1;
        self.output = output;
        self.done = !self.state.is_passed() || self.trials >= REPEAT_TESTS_AMOUNT_OF_TIMES;
        self.done
    }

    /// Ends the slot once the loop is over: the last trial's state and
    /// output, and the energy and time of all trials run.
    pub fn finish(self) -> (r: CompletedTest)
        requires
            self.wf(),
            repeat_done(self.history()),
        ensures
            r.name == self.test().name,
            r.state@ == self.history().last().verdict,
            r.uj == Some(sum_uj(self.history()) as u128),
            r.us == Some(sum_us(self.history()) as u128),
            r.stdout is Some && r.stdout->Some_0@ == self.last_output(),
            r.wf(),
    {
        CompletedTest {
            name: self.desc.name,
            state: self.state,
            uj: Some(self.uj),
            us: Some(self.us),
            stdout: Some(self.output),
        }
    }
}

/// Energy over the passed tests of a sequence.
pub open spec fn passed_uj(ts: Seq<CompletedTest>) -> int
    decreases ts.len(),
{
    if ts.len() == 0 {
        0
    } else {
        passed_uj(ts.drop_last()) + if ts.last().state@ == Verdict::Passed {
            ts.last().uj->Some_0 as int
        } else {
            0
        }
    }
}

/// Time over the passed tests of a sequence.
pub open spec fn passed_us(ts: Seq<CompletedTest>) -> int
    decreases ts.len(),
{
    if ts.len() == 0 {
        0
    } else {
        passed_us(ts.drop_last()) + if ts.last().state@ == Verdict::Passed {
            ts.last().us->Some_0 as int
        } else {
            0
        }
    }
}

/// Whether a verdict is a failure.
pub open spec fn is_failure(v: Verdict) -> bool {
    v is Failed
}

/// How many tests of a sequence end in a state that `pick` selects.
pub open spec fn count_where(ts: Seq<CompletedTest>, pick: spec_fn(Verdict) -> bool) -> nat
    decreases ts.len(),
{
    if ts.len() == 0 {
        0
    } else {
        count_where(ts.drop_last(), pick) + if pick(ts.last().state@) {
            1nat
        } else {
            0nat
        }
    }
}

proof fn lemma_count_bound(ts: Seq<CompletedTest>, pick: spec_fn(Verdict) -> bool)
    ensures
        count_where(ts, pick) <= ts.len(),
    decreases ts.len(),
{
    if ts.len() > 0 {
        lemma_count_bound(ts.drop_last(), pick);
    }
}

/// The totals of a finished session.
#[derive(Clone, Copy, Debug, PartialEq, Eq, Structural)]
pub struct SessionTotals {
    /// Energy of the whole-run bracket.
    pub total_uj: u128,
    /// Time of the whole-run bracket.
    pub total_us: u128,
    /// Energy of the passed tests.
    pub test_uj: u128,
    /// Time of the passed tests.
    pub test_us: u128,
    /// Energy of the harness: the whole run less the passed tests.
    pub overhead_uj: u128,
    /// Time of the harness: the whole run less the passed tests.
    pub overhead_us: u128,
    pub passed: usize,
    pub failed: usize,
    pub ignored: usize,
}

/// Why a session's totals cannot be given.
#[derive(Clone, Copy, Debug, PartialEq, Eq, Structural)]
pub enum SessionError {
    /// The whole-run bracket's readings cannot be accounted for.
    CounterOutOfRange,
    /// The passed tests took more than the whole run: a measurement fault.
    NegativeOverhead,
}

/// One run over all tests, in the order they were handed over.
pub struct Session {
    tests: Vec<CompletedTest>,
    test_uj: u128,
    test_us: u128,
    passed: usize,
    failed: usize,
    ignored: usize,
}

impl Session {
    /// The tests recorded so far, in order.
    pub closed spec fn tests(&self) -> Seq<CompletedTest> {
        self.tests@
    }

    /// The totals and counts agree with the recorded tests.
    pub closed spec fn wf(&self) -> bool {
        &&& forall|i: int| 0 <= i < self.tests@.len() ==> (#[trigger] self.tests@[i]).wf()
        &&& self.test_uj == passed_uj(self.tests@)
        &&& self.test_us == passed_us(self.tests@)
        &&& self.passed == count_where(self.tests@, |v: Verdict| v == Verdict::Passed)
        &&& self.failed == count_where(self.tests@, |v: Verdict| is_failure(v))
        &&& self.ignored == count_where(self.tests@, |v: Verdict| v == Verdict::Ignored)
    }

    /// A session with no test recorded.
    pub fn new() -> (r: Session)
        ensures
            r.wf(),
            r.tests().len() == 0,
    {
        let r = Session { tests: Vec::new(), test_uj: 0, test_us: 0, passed: 0, failed: 0, ignored: 0 };
        assert(r.tests@ =~= Seq::<CompletedTest>::empty());
        r
    }

    /// Energy of the passed tests recorded so far.
    pub fn test_uj(&self) -> (r: u128)
        requires
            self.wf(),
        ensures
            r == passed_uj(self.tests()),
    {
        self.test_uj
    }

    /// Time of the passed tests recorded so far.
    pub fn test_us(&self) -> (r: u128)
        requires
            self.wf(),
        ensures
            r == passed_us(self.tests()),
    {
        self.test_us
    }

    /// The tests recorded so far, in order.
    pub fn completed(&self) -> (r: &Vec<CompletedTest>)
        ensures
            r@ == self.tests(),
    {
        &self.tests
    }

    /// Records the outcome of the next test.
    pub fn record(&mut self, test: CompletedTest)
        requires
            old(self).wf(),
            test.wf(),
            old(self).tests().len() < usize::MAX,
            passed_uj(old(self).tests().push(test)) <= u128::MAX,
            passed_us(old(self).tests().push(test)) <= u128::MAX,
        ensures
            final(self).wf(),
            final(self).tests() == old(self).tests().push(test),
    {
        let ghost before = self.tests@;
        proof {
            assert(before.push(test).drop_last() =~= before);
            lemma_count_bound(before, |v: Verdict| v == Verdict::Passed);
            lemma_count_bound(before, |v: Verdict| is_failure(v));
            lemma_count_bound(before, |v: Verdict| v == Verdict::Ignored);
        }
        match &test.state {
            TestResult::Passed => {
                match (test.uj, test.us) {
                    (Some(e), Some(t)) => {
                        self.test_uj = self.test_uj + e;
                        self.test_us = self.test_us + t;
                    },
                    _ => {},
                }
                self.passed = self.passed + 1;
            },
            TestResult::Failed(_) => {
                self.failed = self.failed + 1;
            },
            TestResult::Ignored => {
                self.ignored = self.ignored + 1;
            },
        }
        self.tests.push(test);
        proof {
            assert(self.tests@.drop_last() =~= before);
            assert forall|i: int| 0 <= i < self.tests@.len() implies (#[trigger] self.tests@[i]).wf() by {
                if i < before.len() {
                    assert(self.tests@[i] == before[i]);
                }
            }
        }
    }

    /// The totals of the session once the whole-run bracket `whole_run` is
    /// closed: the overhead is the whole run less the passed tests.
    pub fn finish<S: Sensor>(&self, whole_run: &S) -> (r: Result<SessionTotals, SessionError>)
        requires
            self.wf(),
        ensures
            !(whole_run.energy_end() < whole_run.energy_start() ==> whole_run.energy_start()
                <= whole_run.max_range()) ==> r == Err::<SessionTotals, SessionError>(
                SessionError::CounterOutOfRange,
            ),
            (whole_run.energy_end() < whole_run.energy_start() ==> whole_run.energy_start()
                <= whole_run.max_range()) ==> ({
                let total_uj = bracket_energy(
                    whole_run.energy_start(),
                    whole_run.energy_end(),
                    whole_run.max_range(),
                );
                let total_us = elapsed_ns(whole_run.timer_start(), whole_run.timer_end()) / 1000;
                if total_uj < passed_uj(self.tests()) || total_us < passed_us(self.tests()) {
                    r == Err::<SessionTotals, SessionError>(SessionError::NegativeOverhead)
                } else {
                    r == Ok::<SessionTotals, SessionError>(
                        SessionTotals {
                            total_uj: total_uj as u128,
                            total_us: total_us as u128,
                            test_uj: passed_uj(self.tests()) as u128,
                            test_us: passed_us(self.tests()) as u128,
                            overhead_uj: (total_uj - passed_uj(self.tests())) as u128,
                            overhead_us: (total_us - passed_us(self.tests())) as u128,
                            passed: count_where(self.tests(), |v: Verdict| v == Verdict::Passed) as usize,
                            failed: count_where(self.tests(), |v: Verdict| is_failure(v)) as usize,
                            ignored: count_where(self.tests(), |v: Verdict| v == Verdict::Ignored) as usize,
                        },
                    )
                }
            }),
    {
        if !whole_run.reading_in_range() {
            return Err(SessionError::CounterOutOfRange);
        }
        let total_uj = whole_run.get_measured_uj();
        let total_us = whole_run.get_elapsed_time_us();
        if total_uj < self.test_uj || total_us < self.test_us {
            return Err(SessionError::NegativeOverhead);
        }
        Ok(SessionTotals {
            total_uj,
            total_us,
            test_uj: self.test_uj,
            test_us: self.test_us,
            overhead_uj: total_uj - self.test_uj,
            overhead_us: total_us - self.test_us,
            passed: self.passed,
            failed: self.failed,
            ignored: self.ignored,
        })
    }

    /// The tests of the session, in order.
    pub fn into_tests(self) -> (r: Vec<CompletedTest>)
        ensures
            r@ == self.tests(),
    {
        self.tests
    }
}

} // verus!
