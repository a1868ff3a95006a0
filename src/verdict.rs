//! The verdict of one trial: how a test's normal return or panic is judged
//! against what its description expects.
use vstd::prelude::*;

verus! {

/// What a test expects of its own termination.
#[derive(Clone, Debug)]
pub enum ShouldPanic {
    /// The test must return normally.
    No,
    /// The test must panic.
    Yes,
    /// The test must panic with a message holding this substring.
    YesWithMessage(String),
}

/// What a panicking test left behind.
#[derive(Clone, Debug)]
pub enum PanicPayload {
    /// A panic whose payload is text.
    Message(String),
    /// A panic whose payload is not text; the string describes its type.
    Opaque(String),
}

/// The state a test slot ends in.
#[derive(Clone, Debug, PartialEq, Eq)]
pub enum TestResult {
    Passed,
    Failed(Option<String>),
    Ignored,
}

/// The mathematical value of a `TestResult`.
pub enum Verdict {
    Passed,
    Failed(Option<Seq<char>>),
    Ignored,
}

impl View for TestResult {
    type V = Verdict;

    open spec fn view(&self) -> Verdict {
        match self {
            TestResult::Passed => Verdict::Passed,
            TestResult::Failed(Some(m)) => Verdict::Failed(Some(m@)),
            TestResult::Failed(None) => Verdict::Failed(None),
            TestResult::Ignored => Verdict::Ignored,
        }
    }
}

impl TestResult {
    /// Whether the state is `Passed`.
    pub fn is_passed(&self) -> (r: bool)
        ensures
            r == (self@ == Verdict::Passed),
    {
        match self {
            TestResult::Passed => true,
            _ => false,
        }
    }
}

/// A test as the test source hands it over: its name, whether it is skipped,
/// and what it expects of its termination.
#[derive(Clone, Debug)]
pub struct TestDesc {
    pub name: String,
    pub ignore: bool,
    pub should_panic: ShouldPanic,
}

/// `needle` occurs in `hay` as a contiguous run of characters.
pub open spec fn contains(hay: Seq<char>, needle: Seq<char>) -> bool {
    exists|i: int|
        0 <= i && i + needle.len() <= hay.len() && #[trigger] hay.subrange(i, i + needle.len())
            == needle
}

/// The diagnostic for a test that returned although it had to panic.
pub open spec fn not_panicked_message() -> Seq<char> {
    "test did not panic as expected"@
}

/// The diagnostic for a panic message that lacks the expected substring.
pub open spec fn mismatch_message(actual: Seq<char>, expected: Seq<char>) -> Seq<char> {
    "panic did not contain expected string\n      panic message: `"@ + actual
        + "`,\n expected substring: `"@ + expected + "`"@
}

/// The diagnostic for a panic without a text payload where a message was expected.
pub open spec fn non_string_message(kind: Seq<char>, expected: Seq<char>) -> Seq<char> {
    "expected panic with string value,\n found non-string value: `"@ + kind
        + "`\n     expected substring: `"@ + expected + "`"@
}

/// How a trial that ended in `outcome` is judged under the expectation `sp`.
pub open spec fn verdict(sp: ShouldPanic, outcome: Result<(), PanicPayload>) -> Verdict {
    match sp {
        ShouldPanic::No => match outcome {
            Ok(_) => Verdict::Passed,
            Err(_) => Verdict::Failed(None),
        },
        ShouldPanic::Yes => match outcome {
            Ok(_) => Verdict::Failed(Some(not_panicked_message())),
            Err(_) => Verdict::Passed,
        },
        ShouldPanic::YesWithMessage(m) => match outcome {
            Ok(_) => Verdict::Failed(Some(not_panicked_message())),
            Err(PanicPayload::Message(p)) => if contains(p@, m@) {
                Verdict::Passed
            } else {
                Verdict::Failed(Some(mismatch_message(p@, m@)))
            },
            Err(PanicPayload::Opaque(k)) => Verdict::Failed(Some(non_string_message(k@, m@))),
        },
    }
}

/// Whether `hay` holds `needle` as a substring (case-sensitive, no patterns).
pub fn str_contains(hay: &str, needle: &str) -> (r: bool)
    ensures
        r == contains(hay@, needle@),
{
    let h = hay.unicode_len();
    let n = needle.unicode_len();
    if n > h {
        return false;
    }
    if n == 0 {
        assert(hay@.subrange(0, 0 + needle@.len() as int) =~= needle@);
        return true;
    }
    let mut i: usize = 0;
    while i <= h - n
        invariant
            h == hay@.len(),
            n == needle@.len(),
            1 <= n <= h,
            i <= h - n + 1,
            forall|j: int| 0 <= j < i ==> #[trigger] hay@.subrange(j, j + n) != needle@,
        decreases h - n + 1 - i,
    {
        let mut k: usize = 0;
        let mut same = true;
        while k < n && same
            invariant
                h == hay@.len(),
                n == needle@.len(),
                i + n <= h,
                k <= n,
                same ==> forall|m: int| 0 <= m < k ==> hay@[i + m] == needle@[m],
                !same ==> hay@.subrange(i as int, i + n) != needle@,
            decreases n - k + (if same { 1int } else { 0 }),
        {
            if hay.get_char(i + k) != needle.get_char(k) {
                same = false;
                assert(hay@.subrange(i as int, i + n)[k as int] != needle@[k as int]);
            } else {
                k = k + 1;
            }
        }
        if same {
            assert(hay@.subrange(i as int, i + n) =~= needle@);
            return true;
        }
        i = i + 1;
    }
    false
}

/// Judges one trial: the state that a test whose expectation is `desc` ends
/// in when it returned normally (`Ok`) or panicked with `payload` (`Err`).
pub fn test_state(desc: &TestDesc, result: Result<(), PanicPayload>) -> (r: TestResult)
    ensures
        r@ == verdict(desc.should_panic, result),
{
    match &desc.should_panic {
        ShouldPanic::No => match &result {
            Ok(_) => TestResult::Passed,
            Err(_) => TestResult::Failed(None),
        },
        ShouldPanic::Yes => match &result {
            Ok(_) => TestResult::Failed(Some(String::from_str("test did not panic as expected"))),
            Err(_) => TestResult::Passed,
        },
        ShouldPanic::YesWithMessage(msg) => match &result {
            Ok(_) => TestResult::Failed(Some(String::from_str("test did not panic as expected"))),
            Err(PanicPayload::Message(p)) => {
                if str_contains(p.as_str(), msg.as_str()) {
                    TestResult::Passed
                } else {
                    let mut s = String::from_str(
                        "panic did not contain expected string\n      panic message: `",
                    );
                    s.append(p.as_str());
                    s.append("`,\n expected substring: `");
                    s.append(msg.as_str());
                    s.append("`");
                    TestResult::Failed(Some(s))
                }
            },
            Err(PanicPayload::Opaque(kind)) => {
                let mut s = String::from_str(
                    "expected panic with string value,\n found non-string value: `",
                );
                s.append(kind.as_str());
                s.append("`\n     expected substring: `");
                s.append(msg.as_str());
                s.append("`");
                TestResult::Failed(Some(s))
            },
        },
    }
}

} // verus!
