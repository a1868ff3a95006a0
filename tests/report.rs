use coppers::history::{
    compare_records, latest_record, previous_record, Change, Revision, SessionRecord,
    RECORD_VERSION,
};
use coppers::session::{CompletedTest, SessionTotals};
use coppers::text::{
    failed_indices, failure_line, failures_report, passed, render_number, stdout_header,
    summary_text, test_result_line,
};
use coppers::verdict::TestResult;

fn completed(name: &str, state: TestResult, uj: Option<u128>, us: Option<u128>) -> CompletedTest {
    CompletedTest { name: String::from(name), state, uj, us, stdout: None }
}

fn totals() -> SessionTotals {
    SessionTotals {
        total_uj: 1000,
        total_us: 80,
        test_uj: 500,
        test_us: 50,
        overhead_uj: 500,
        overhead_us: 30,
        passed: 2,
        failed: 1,
        ignored: 0,
    }
}

#[test]
fn passed_words() {
    assert_eq!(passed(true), "ok");
    assert_eq!(passed(false), "FAILED");
}

#[test]
fn numbers_in_decimal() {
    assert_eq!(render_number(0), "0");
    assert_eq!(render_number(7), "7");
    assert_eq!(render_number(10), "10");
    assert_eq!(render_number(950), "950");
    assert_eq!(render_number(u128::MAX), u128::MAX.to_string());
}

#[test]
fn progress_lines() {
    let ok = completed("adds", TestResult::Passed, Some(950), Some(12));
    assert_eq!(
        test_result_line(&ok),
        Some(String::from("test adds ... ok - [950 μJ in 12 μs]"))
    );
    let bad = completed("breaks", TestResult::Failed(None), Some(1), Some(1));
    assert_eq!(test_result_line(&bad), Some(String::from("test breaks ... FAILED")));
    let skipped = completed("skipped", TestResult::Ignored, None, None);
    assert_eq!(test_result_line(&skipped), None);
}

#[test]
fn progress_text_reads_the_same_twice() {
    let ok = completed("adds", TestResult::Passed, Some(950), Some(12));
    assert_eq!(test_result_line(&ok), test_result_line(&ok));
    assert_eq!(summary_text(&totals()), summary_text(&totals()));
}

#[test]
fn failures_section_lines() {
    let with_msg = completed("t1", TestResult::Failed(Some(String::from("boom"))), None, None);
    assert_eq!(failure_line(&with_msg), "\tt1: boom\n");
    let without = completed("t2", TestResult::Failed(None), None, None);
    assert_eq!(failure_line(&without), "\tt2");
    assert_eq!(stdout_header("t1"), "\n---- t1 stdout ----\n");
}

#[test]
fn summary_line() {
    assert_eq!(
        summary_text(&totals()),
        "test result: FAILED.\n\t2 passed;\n\t1 failed;\n\t0 ignored;\n\tfinished in 80 μs consuming 1000 μJ\n\tspend 50 μs and 500 μJ on tests\n\tspend 30 μs and 500 μJ on overhead"
    );
    let mut all_good = totals();
    all_good.failed = 0;
    assert!(summary_text(&all_good).starts_with("test result: ok.\n"));
}

fn record(exec: u64, commit: Option<i64>, total_uj: u128, tests: Vec<CompletedTest>) -> SessionRecord {
    let revision = commit.map(|c| Revision { id: vec![0xab, 0x01, 0xf0], commit_timestamp: c });
    let mut t = totals();
    t.total_uj = total_uj;
    SessionRecord::new(&t, tests, exec, revision)
}

#[test]
fn record_of_a_session() {
    let r = record(1_700_000_000, Some(1_600_000_000), 1000, Vec::new());
    assert_eq!(r.head, Some(String::from("ab01f0")));
    assert_eq!(r.commit_timestamp, Some(1_600_000_000));
    assert_eq!(r.execution_timestamp, 1_700_000_000);
    assert_eq!(r.number_of_repeats, 100);
    assert_eq!(r.version, RECORD_VERSION);
    assert_eq!((r.test_uj, r.test_us), (500, 50));
    assert_eq!(r.overhead_uj, 500);
    let bare = record(5, None, 1000, Vec::new());
    assert_eq!(bare.head, None);
    assert_eq!(bare.commit_timestamp, None);
}

#[test]
fn previous_record_by_commit_time() {
    let records = vec![
        record(10, Some(300), 1, Vec::new()),
        record(11, Some(100), 1, Vec::new()),
        record(12, None, 1, Vec::new()),
        record(13, Some(250), 1, Vec::new()),
        record(14, Some(250), 1, Vec::new()),
        record(15, Some(400), 1, Vec::new()),
    ];
    let latest = record(20, Some(300), 1, Vec::new());
    assert_eq!(previous_record(&records, &latest), Some(3));
    let earliest = record(21, Some(50), 1, Vec::new());
    assert_eq!(previous_record(&records, &earliest), None);
    let unknown = record(22, None, 1, Vec::new());
    assert_eq!(previous_record(&records, &unknown), None);
}

#[test]
fn comparison_per_trial() {
    let before = record(
        1,
        Some(1),
        50_000,
        vec![
            completed("a", TestResult::Passed, Some(1000), Some(200)),
            completed("gone", TestResult::Passed, Some(1000), Some(200)),
            completed("b", TestResult::Passed, Some(3000), Some(100)),
        ],
    );
    let after = record(
        2,
        Some(2),
        40_000,
        vec![
            completed("b", TestResult::Passed, Some(2000), Some(300)),
            completed("new", TestResult::Passed, Some(1000), Some(200)),
            completed("a", TestResult::Passed, Some(1500), Some(200)),
            completed("skipped", TestResult::Ignored, None, None),
        ],
    );
    let c = compare_records(&after, &before).unwrap();
    assert_eq!(c.overall_energy, Change { before: 500, after: 400, increased: false, amount: 100 });
    assert_eq!(c.tests.len(), 2);
    assert_eq!(c.tests[0].name, "b");
    assert_eq!(c.tests[0].energy, Change { before: 30, after: 20, increased: false, amount: 10 });
    assert_eq!(c.tests[0].time, Change { before: 1, after: 3, increased: true, amount: 2 });
    assert_eq!(c.tests[1].name, "a");
    assert_eq!(c.tests[1].energy, Change { before: 10, after: 15, increased: true, amount: 5 });
    assert_eq!(c.tests[1].time, Change { before: 2, after: 2, increased: false, amount: 0 });
}

#[test]
fn records_of_other_versions_do_not_compare() {
    let before = record(1, Some(1), 100, Vec::new());
    let mut after = record(2, Some(2), 100, Vec::new());
    after.version = RECORD_VERSION + 1;
    assert!(compare_records(&after, &before).is_none());
    after.version = RECORD_VERSION;
    let c = compare_records(&after, &before).unwrap();
    assert_eq!(c.overall_energy, Change { before: 1, after: 1, increased: false, amount: 0 });
    assert!(c.tests.is_empty());
}

#[test]
fn failures_section_of_a_session() {
    let tests = vec![
        completed("a", TestResult::Passed, Some(1), Some(1)),
        completed("b", TestResult::Failed(Some(String::from("boom"))), None, None),
        completed("c", TestResult::Ignored, None, None),
        completed("d", TestResult::Failed(None), Some(1), Some(1)),
    ];
    assert_eq!(failures_report(&tests), "\nfailures:\n\tb: boom\n\td\n");
    assert_eq!(failed_indices(&tests), vec![1, 3]);
    let fine = vec![completed("a", TestResult::Passed, Some(1), Some(1))];
    assert_eq!(failures_report(&fine), "");
    assert!(failed_indices(&fine).is_empty());
}

#[test]
fn latest_record_by_execution_time() {
    let records = vec![
        record(10, Some(300), 1, Vec::new()),
        record(30, Some(100), 1, Vec::new()),
        record(30, Some(200), 1, Vec::new()),
        record(20, None, 1, Vec::new()),
    ];
    assert_eq!(latest_record(&records), Some(1));
    assert_eq!(latest_record(&Vec::new()), None);
}
