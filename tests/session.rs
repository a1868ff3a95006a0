use coppers::sensor::{CounterProbe, RAPLSensor, Sample, Sensor, SensorError};
use coppers::session::{
    CompletedTest, Session, SessionError, TrialRun, REPEAT_TESTS_AMOUNT_OF_TIMES,
};
use coppers::verdict::{PanicPayload, ShouldPanic, TestDesc, TestResult};

fn sensor() -> RAPLSensor {
    let probe = CounterProbe {
        enabled: Some(String::from("1\n")),
        energy: Some(String::from("0\n")),
        name: Some(String::from("package-0\n")),
        max_range: Some(String::from("1000000\n")),
    };
    RAPLSensor::new(String::from("/counters/intel-rapl:0"), probe).unwrap()
}

fn desc(name: &str, should_panic: ShouldPanic) -> TestDesc {
    TestDesc { name: String::from(name), ignore: false, should_panic }
}

/// Runs trials until the loop is over; trial `i` spends `10 + i` µJ in
/// `2 + i` µs and ends as `outcome(i)`.
fn run_slot(
    d: TestDesc,
    outcome: impl Fn(usize) -> Result<(), PanicPayload>,
) -> (CompletedTest, usize) {
    let mut run = match TrialRun::new(d) {
        Ok(run) => run,
        Err(done) => return (done, 0),
    };
    let mut s = sensor();
    let mut i: usize = 0;
    let mut counter: u128 = 500;
    let mut clock: u64 = 0;
    loop {
        s.start_measuring(Sample { energy_uj: counter, at_ns: clock });
        counter += 10 + i as u128;
        clock += (2 + i as u64) * 1000;
        s.stop_measuring(Sample { energy_uj: counter, at_ns: clock });
        let done = run.record_trial(&s, outcome(i), format!("trial {i}").into_bytes());
        i += 1;
        if done {
            break;
        }
    }
    assert_eq!(run.trials(), i);
    (run.finish(), i)
}

#[test]
fn test_succesful_test() {
    assert_eq!(1 + 1, 2);
    let (t, trials) = run_slot(desc("test_succesful_test", ShouldPanic::No), |_| {
        assert_eq!(1 + 1, 2);
        Ok(())
    });
    assert_eq!(trials, REPEAT_TESTS_AMOUNT_OF_TIMES);
    assert_eq!(t.state, TestResult::Passed);
    let expected_uj: u128 = (0..100u128).map(|i| 10 + i).sum();
    let expected_us: u128 = (0..100u128).map(|i| 2 + i).sum();
    assert_eq!(t.uj, Some(expected_uj));
    assert_eq!(t.us, Some(expected_us));
    assert_eq!(t.stdout, Some(b"trial 99".to_vec()));
}

#[test]
fn test_ignored_test() {
    let mut d = desc("test_ignored_test", ShouldPanic::No);
    d.ignore = true;
    let (t, trials) = run_slot(d, |_| {
        assert_eq!(5 * 10, 5);
        Ok(())
    });
    assert_eq!(trials, 0);
    assert_eq!(t.state, TestResult::Ignored);
    assert_eq!(t.uj, None);
    assert_eq!(t.us, None);
    assert_eq!(t.stdout, None);
}

#[test]
fn failure_on_third_trial_stops_the_loop() {
    let (t, trials) = run_slot(desc("flaky", ShouldPanic::No), |i| {
        if i == 2 {
            Err(PanicPayload::Message(String::from("boom")))
        } else {
            Ok(())
        }
    });
    assert_eq!(trials, 3);
    assert_eq!(t.state, TestResult::Failed(None));
    assert_eq!(t.uj, Some(10 + 11 + 12));
    assert_eq!(t.us, Some(2 + 3 + 4));
    assert_eq!(t.stdout, Some(b"trial 2".to_vec()));
}

#[test]
fn expected_panic_passes_all_trials() {
    let (t, trials) = run_slot(desc("panics", ShouldPanic::Yes), |_| {
        Err(PanicPayload::Message(String::from("assertion failed")))
    });
    assert_eq!(trials, 100);
    assert_eq!(t.state, TestResult::Passed);
}

#[test]
fn missing_panic_fails_first_trial() {
    let (t, trials) = run_slot(desc("calm", ShouldPanic::Yes), |_| Ok(()));
    assert_eq!(trials, 1);
    assert_eq!(
        t.state,
        TestResult::Failed(Some(String::from("test did not panic as expected")))
    );
    assert_eq!(t.uj, Some(10));
}

#[test]
fn out_of_range_reading_fails_the_trial() {
    let mut run = TrialRun::new(desc("odd", ShouldPanic::No)).unwrap();
    let mut s = sensor();
    s.start_measuring(Sample { energy_uj: 5_000_000, at_ns: 0 });
    s.stop_measuring(Sample { energy_uj: 1, at_ns: 1000 });
    assert!(run.record_trial(&s, Ok(()), Vec::new()));
    let t = run.finish();
    assert_eq!(
        t.state,
        TestResult::Failed(Some(String::from("energy counter reading out of range")))
    );
    assert_eq!(t.uj, Some(0));
    assert_eq!(t.us, Some(0));
}

#[test]
fn unprepared_test_carries_sensor_message() {
    let e = SensorError::SensorUnavailable(String::from("/x"));
    let t = CompletedTest::unprepared(desc("t", ShouldPanic::No), &e);
    assert_eq!(
        t.state,
        TestResult::Failed(Some(String::from("The location `/x` is unreachable")))
    );
    assert_eq!(t.uj, None);
}

fn completed(name: &str, state: TestResult, uj: Option<u128>, us: Option<u128>) -> CompletedTest {
    CompletedTest { name: String::from(name), state, uj, us, stdout: None }
}

fn whole_run(uj: u128, us: u64) -> RAPLSensor {
    let mut s = sensor();
    s.start_measuring(Sample { energy_uj: 0, at_ns: 0 });
    s.stop_measuring(Sample { energy_uj: uj, at_ns: us * 1000 });
    s
}

#[test]
fn overhead_subtracts_passed_tests_only() {
    let mut session = Session::new();
    session.record(completed("a", TestResult::Passed, Some(300), Some(30)));
    session.record(completed("b", TestResult::Failed(None), Some(5000), Some(500)));
    session.record(completed("c", TestResult::Ignored, None, None));
    session.record(completed("d", TestResult::Passed, Some(200), Some(20)));
    assert_eq!(session.test_uj(), 500);
    assert_eq!(session.test_us(), 50);
    let totals = session.finish(&whole_run(1000, 80)).unwrap();
    assert_eq!(totals.total_uj, 1000);
    assert_eq!(totals.total_us, 80);
    assert_eq!(totals.test_uj, 500);
    assert_eq!(totals.test_us, 50);
    assert_eq!(totals.overhead_uj, 500);
    assert_eq!(totals.overhead_us, 30);
    assert_eq!((totals.passed, totals.failed, totals.ignored), (2, 1, 1));
    assert_eq!(session.completed().len(), 4);
    assert_eq!(session.into_tests()[1].name, "b");
}

#[test]
fn empty_session_overhead_is_whole_run() {
    let session = Session::new();
    let totals = session.finish(&whole_run(777, 9)).unwrap();
    assert_eq!(totals.overhead_uj, 777);
    assert_eq!(totals.overhead_us, 9);
    assert_eq!(totals.test_uj, 0);
    assert_eq!((totals.passed, totals.failed, totals.ignored), (0, 0, 0));
}

#[test]
fn negative_overhead_is_an_error() {
    let mut session = Session::new();
    session.record(completed("a", TestResult::Passed, Some(300), Some(1)));
    assert_eq!(session.finish(&whole_run(100, 80)), Err(SessionError::NegativeOverhead));
}

#[test]
fn whole_run_out_of_range_is_an_error() {
    let session = Session::new();
    let mut s = sensor();
    s.start_measuring(Sample { energy_uj: 9_000_000, at_ns: 0 });
    s.stop_measuring(Sample { energy_uj: 1, at_ns: 0 });
    assert_eq!(session.finish(&s), Err(SessionError::CounterOutOfRange));
}
