//! The human-readable progress text of a session: one line per finished
//! test, the failures section and the closing summary.
use vstd::prelude::*;

use crate::session::{CompletedTest, SessionTotals};
use crate::verdict::{TestResult, Verdict};

verus! {

/// The decimal digit characters, by value.
pub open spec fn digit_chars() -> Seq<char> {
    seq!['0', '1', '2', '3', '4', '5', '6', '7', '8', '9']
}

/// The decimal notation of `n`, without leading zeros.
pub open spec fn decimal(n: nat) -> Seq<char>
    decreases n,
{
    if n < 10 {
        seq![digit_chars()[n as int]]
    } else {
        decimal(n / 10).push(digit_chars()[(n % 10) as int])
    }
}

fn digit_str(d: u128) -> (r: &'static str)
    requires
        d < 10,
    ensures
        r@ == seq![digit_chars()[d as int]],
{
    let all = "0123456789";
    proof {
        reveal_strlit("0123456789");
        assert(all@ =~= digit_chars());
    }
    let r = all.substring_char(d as usize, d as usize + 1);
    assert(r@ =~= seq![digit_chars()[d as int]]);
    r
}

/// The decimal notation of `n`.
pub fn render_number(n: u128) -> (r: String)
    ensures
        r@ == decimal(n as nat),
    decreases n,
{
    if n < 10 {
        String::from_str(digit_str(n))
    } else {
        let mut s = render_number(n / 10);
        s.append(digit_str(n % 10));
        s
    }
}

/// The word for a good or a bad result.
pub open spec fn passed_word(condition: bool) -> Seq<char> {
    if condition {
        "ok"@
    } else {
        "FAILED"@
    }
}

/// `"ok"` for a good result, `"FAILED"` for a bad one.
pub fn passed(condition: bool) -> (r: &'static str)
    ensures
        r@ == passed_word(condition),
{
    if condition {
        "ok"
    } else {
        "FAILED"
    }
}

/// The progress line of a finished test; none for an ignored one.
pub open spec fn progress_line(test: CompletedTest) -> Option<Seq<char>> {
    match test.state@ {
        Verdict::Passed => Some(
            "test "@ + test.name@ + " ... "@ + passed_word(true) + " - ["@ + decimal(
                test.uj->Some_0 as nat,
            ) + " μJ in "@ + decimal(test.us->Some_0 as nat) + " μs]"@,
        ),
        Verdict::Failed(_) => Some("test "@ + test.name@ + " ... "@ + passed_word(false)),
        Verdict::Ignored => None,
    }
}

/// The progress line of a finished test: its name and verdict, and for a
/// passed test its energy and time; none for an ignored test.
pub fn test_result_line(test: &CompletedTest) -> (r: Option<String>)
    requires
        test.wf(),
    ensures
        r is Some == progress_line(*test) is Some,
        r is Some ==> r->Some_0@ == progress_line(*test)->Some_0,
{
    match &test.state {
        TestResult::Passed => {
            let mut s = String::from_str("test ");
            s.append(test.name.as_str());
            s.append(" ... ");
            s.append(passed(true));
            s.append(" - [");
            match (test.uj, test.us) {
                (Some(uj), Some(us)) => {
                    s.append(render_number(uj).as_str());
                    s.append(" μJ in ");
                    s.append(render_number(us).as_str());
                },
                _ => {},
            }
            s.append(" μs]");
            Some(s)
        },
        TestResult::Failed(_) => {
            let mut s = String::from_str("test ");
            s.append(test.name.as_str());
            s.append(" ... ");
            s.append(passed(false));
            Some(s)
        },
        TestResult::Ignored => None,
    }
}

/// The heading above the captured output of a failed test.
pub open spec fn stdout_heading(name: Seq<char>) -> Seq<char> {
    "\n---- "@ + name + " stdout ----\n"@
}

/// The heading above the captured output of the test called `name`.
pub fn stdout_header(name: &str) -> (r: String)
    ensures
        r@ == stdout_heading(name@),
{
    let mut s = String::from_str("\n---- ");
    s.append(name);
    s.append(" stdout ----\n");
    s
}

/// The entry of a failed test in the failures section: its name, then its
/// failure message when there is one.
pub open spec fn failure_entry(test: CompletedTest) -> Seq<char> {
    match test.state@ {
        Verdict::Failed(Some(m)) => "\t"@ + test.name@ + ": "@ + m + "\n"@,
        _ => "\t"@ + test.name@,
    }
}

/// The entry of a failed test in the failures section.
pub fn failure_line(test: &CompletedTest) -> (r: String)
    ensures
        r@ == failure_entry(*test),
{
    let mut s = String::from_str("\t");
    s.append(test.name.as_str());
    match &test.state {
        TestResult::Failed(Some(m)) => {
            s.append(": ");
            s.append(m.as_str());
            s.append("\n");
        },
        _ => {},
    }
    s
}

/// The closing summary of a session.
pub open spec fn summary(t: SessionTotals) -> Seq<char> {
    "test result: "@ + passed_word(t.failed == 0) + ".\n\t"@ + decimal(t.passed as nat)
        + " passed;\n\t"@ + decimal(t.failed as nat) + " failed;\n\t"@ + decimal(t.ignored as nat)
        + " ignored;\n\tfinished in "@ + decimal(t.total_us as nat) + " μs consuming "@ + decimal(
        t.total_uj as nat,
    ) + " μJ\n\tspend "@ + decimal(t.test_us as nat) + " μs and "@ + decimal(t.test_uj as nat)
        + " μJ on tests\n\tspend "@ + decimal(t.overhead_us as nat) + " μs and "@ + decimal(
        t.overhead_uj as nat,
    ) + " μJ on overhead"@
}

/// The closing summary of a session: its verdict, the number of passed,
/// failed and ignored tests, and the whole-run, test and overhead totals.
pub fn summary_text(t: &SessionTotals) -> (r: String)
    ensures
        r@ == summary(*t),
{
    let mut s = String::from_str("test result: ");
    s.append(passed(t.failed == 0));
    s.append(".\n\t");
    s.append(render_number(t.passed as u128).as_str());
    s.append(" passed;\n\t");
    s.append(render_number(t.failed as u128).as_str());
    s.append(" failed;\n\t");
    s.append(render_number(t.ignored as u128).as_str());
    s.append(" ignored;\n\tfinished in ");
    s.append(render_number(t.total_us).as_str());
    s.append(" μs consuming ");
    s.append(render_number(t.total_uj).as_str());
    s.append(" μJ\n\tspend ");
    s.append(render_number(t.test_us).as_str());
    s.append(" μs and ");
    s.append(render_number(t.test_uj).as_str());
    s.append(" μJ on tests\n\tspend ");
    s.append(render_number(t.overhead_us).as_str());
    s.append(" μs and ");
    s.append(render_number(t.overhead_uj).as_str());
    s.append(" μJ on overhead");
    s
}

/// The entries of the failed tests of a sequence, in order.
pub open spec fn failure_entries(ts: Seq<CompletedTest>) -> Seq<char>
    decreases ts.len(),
{
    if ts.len() == 0 {
        Seq::empty()
    } else {
        failure_entries(ts.drop_last()) + if ts.last().state@ is Failed {
            failure_entry(ts.last())
        } else {
            Seq::empty()
        }
    }
}

/// The failures section: a heading, one entry per failed test and a blank
/// line; nothing when no test failed.
pub open spec fn failures_section(ts: Seq<CompletedTest>) -> Seq<char> {
    if failure_entries(ts).len() == 0 {
        Seq::empty()
    } else {
        "\nfailures:\n"@ + failure_entries(ts) + "\n"@
    }
}

/// The failures section of the tests `tests`.
pub fn failures_report(tests: &Vec<CompletedTest>) -> (r: String)
    ensures
        r@ == failures_section(tests@),
{
    let mut entries = String::new();
    let mut k: usize = 0;
    while k < tests.len()
        invariant
            k <= tests@.len(),
            entries@ == failure_entries(tests@.take(k as int)),
        decreases tests@.len() - k,
    {
        proof {
            assert(tests@.take(k as int + 1).drop_last() =~= tests@.take(k as int));
        }
        let t = &tests[k];
        if let TestResult::Failed(_) = &t.state {
            entries.append(failure_line(t).as_str());
        } else {
            assert(failure_entries(tests@.take(k as int + 1)) =~= entries@);
        }
        k = k + 1;
    }
    proof {
        assert(tests@.take(k as int) =~= tests@);
    }
    if entries.unicode_len() == 0 {
        String::new()
    } else {
        let mut s = String::from_str("\nfailures:\n");
        s.append(entries.as_str());
        s.append("\n");
        s
    }
}

/// The positions of the failed tests of a sequence, in order.
pub open spec fn failed_positions(ts: Seq<CompletedTest>) -> Seq<int>
    decreases ts.len(),
{
    if ts.len() == 0 {
        Seq::empty()
    } else if ts.last().state@ is Failed {
        failed_positions(ts.drop_last()).push(ts.len() - 1)
    } else {
        failed_positions(ts.drop_last())
    }
}

/// The positions of the failed tests among `tests`, in order.
pub fn failed_indices(tests: &Vec<CompletedTest>) -> (r: Vec<usize>)
    ensures
        r@.len() == failed_positions(tests@).len(),
        forall|i: int| 0 <= i < r@.len() ==> r@[i] as int == #[trigger] failed_positions(tests@)[i],
{
    let mut r: Vec<usize> = Vec::new();
    let mut k: usize = 0;
    while k < tests.len()
        invariant
            k <= tests@.len(),
            r@.len() == failed_positions(tests@.take(k as int)).len(),
            forall|i: int|
                0 <= i < r@.len() ==> r@[i] as int == #[trigger] failed_positions(
                    tests@.take(k as int),
                )[i],
        decreases tests@.len() - k,
    {
        proof {
            assert(tests@.take(k as int + 1).drop_last() =~= tests@.take(k as int));
        }
        if let TestResult::Failed(_) = &tests[k].state {
            r.push(k);
        }
        k = k + 1;
    }
    proof {
        assert(tests@.take(k as int) =~= tests@);
    }
    r
}

} // verus!
