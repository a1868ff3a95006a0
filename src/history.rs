//! The persisted record of a session and the comparison of two records,
//! test by test, in energy and time per trial.
use vstd::prelude::*;

use crate::session::{CompletedTest, SessionTotals, REPEAT_TESTS_AMOUNT_OF_TIMES};

verus! {

/// Lowercase hexadecimal digit characters, by value.
pub open spec fn hex_digits() -> Seq<char> {
    seq!['0', '1', '2', '3', '4', '5', '6', '7', '8', '9', 'a', 'b', 'c', 'd', 'e', 'f']
}

/// Lowercase hexadecimal notation of bytes: two digits per byte, the high
/// half first.
pub open spec fn hex_of(b: Seq<u8>) -> Seq<char>
    decreases b.len(),
{
    if b.len() == 0 {
        Seq::empty()
    } else {
        hex_of(b.drop_last()) + seq![
            hex_digits()[(b.last() / 16) as int],
            hex_digits()[(b.last() % 16) as int],
        ]
    }
}

/// Relies on `hex::encode`, which writes each byte as two lowercase
/// hexadecimal digits, the high half first, in the order of the bytes.
#[verifier::external_body]
fn encode_hex(bytes: &Vec<u8>) -> (r: String)
    ensures
        r@ == hex_of(bytes@),
{
    hex::encode(bytes)
}

/// The source revision a session ran on: the commit's object id and the
/// commit's timestamp in seconds.
#[derive(Clone, Debug)]
pub struct Revision {
    pub id: Vec<u8>,
    pub commit_timestamp: i64,
}

/// The layout version of the records this library writes.
pub const RECORD_VERSION: u32 = 1;

/// The record of one session as it is persisted and compared.
#[derive(Clone, Debug)]
pub struct SessionRecord {
    /// The layout version of the record; only records of one version compare.
    pub version: u32,
    /// Seconds since the epoch when the session ran.
    pub execution_timestamp: u64,
    /// The revision's object id in hexadecimal, when it is known.
    pub head: Option<String>,
    /// The revision's commit timestamp, when it is known.
    pub commit_timestamp: Option<i64>,
    /// Time of the whole-run bracket.
    pub total_us: u128,
    /// Energy of the whole-run bracket.
    pub total_uj: u128,
    /// Time of the passed tests.
    pub test_us: u128,
    /// Energy of the passed tests.
    pub test_uj: u128,
    /// Time of the harness.
    pub overhead_us: u128,
    /// Energy of the harness.
    pub overhead_uj: u128,
    /// How many trials a passing test ran.
    pub number_of_repeats: usize,
    /// The tests, in the order they ran.
    pub tests: Vec<CompletedTest>,
}

impl SessionRecord {
    /// The record of a finished session with `totals` and `tests`, run at
    /// `execution_timestamp`, on `revision` when it is known.
    pub fn new(
        totals: &SessionTotals,
        tests: Vec<CompletedTest>,
        execution_timestamp: u64,
        revision: Option<Revision>,
    ) -> (r: SessionRecord)
        ensures
            r.version == RECORD_VERSION,
            r.execution_timestamp == execution_timestamp,
            r.head is Some == revision is Some,
            revision is Some ==> r.head->Some_0@ == hex_of(revision->Some_0.id@),
            r.commit_timestamp == match revision {
                Some(v) => Some(v.commit_timestamp),
                None => None::<i64>,
            },
            r.total_us == totals.total_us,
            r.total_uj == totals.total_uj,
            r.test_us == totals.test_us,
            r.test_uj == totals.test_uj,
            r.overhead_us == totals.overhead_us,
            r.overhead_uj == totals.overhead_uj,
            r.number_of_repeats == REPEAT_TESTS_AMOUNT_OF_TIMES,
            r.tests@ == tests@,
    {
        let (head, commit_timestamp) = match &revision {
            Some(v) => (Some(encode_hex(&v.id)), Some(v.commit_timestamp)),
            None => (None, None),
        };
        SessionRecord {
            version: RECORD_VERSION,
            execution_timestamp,
            head,
            commit_timestamp,
            total_us: totals.total_us,
            total_uj: totals.total_uj,
            test_us: totals.test_us,
            test_uj: totals.test_uj,
            overhead_us: totals.overhead_us,
            overhead_uj: totals.overhead_uj,
            number_of_repeats: REPEAT_TESTS_AMOUNT_OF_TIMES,
            tests,
        }
    }
}

/// The record that ran last: the first one with the largest execution
/// timestamp; none when there is no record.
pub fn latest_record(records: &Vec<SessionRecord>) -> (r: Option<usize>)
    ensures
        r is None <==> records@.len() == 0,
        r is Some ==> {
            let i = r->Some_0 as int;
            &&& 0 <= i < records@.len()
            &&& forall|j: int| 0 <= j < records@.len() ==> (#[trigger] records@[j]).execution_timestamp
                <= records@[i].execution_timestamp
            &&& forall|j: int| 0 <= j < i ==> (#[trigger] records@[j]).execution_timestamp
                < records@[i].execution_timestamp
        },
{
    if records.len() == 0 {
        return None;
    }
    let mut best: usize = 0;
    let mut k: usize = 1;
    while k < records.len()
        invariant
            1 <= k <= records@.len(),
            0 <= best < k,
            forall|j: int| 0 <= j < k ==> (#[trigger] records@[j]).execution_timestamp
                <= records@[best as int].execution_timestamp,
            forall|j: int| 0 <= j < best ==> (#[trigger] records@[j]).execution_timestamp
                < records@[best as int].execution_timestamp,
        decreases records@.len() - k,
    {
        if records[k].execution_timestamp > records[best].execution_timestamp {
            best = k;
        }
        k = k + 1;
    }
    Some(best)
}

/// Record `r` came from a revision committed strictly before `latest`.
pub open spec fn precedes(r: SessionRecord, latest: i64) -> bool {
    r.commit_timestamp is Some && r.commit_timestamp->Some_0 < latest
}

/// The record that precedes `latest` in source history: among the records
/// committed strictly before it, the first one with the largest commit
/// timestamp. None when `latest` has no commit timestamp or no record
/// precedes it.
pub fn previous_record(records: &Vec<SessionRecord>, latest: &SessionRecord) -> (r: Option<usize>)
    ensures
        latest.commit_timestamp is None ==> r is None,
        latest.commit_timestamp is Some ==> {
            let t = latest.commit_timestamp->Some_0;
            &&& r is None <==> forall|j: int| 0 <= j < records@.len() ==> !precedes(#[trigger] records@[j], t)
            &&& r is Some ==> {
                let i = r->Some_0 as int;
                &&& 0 <= i < records@.len()
                &&& precedes(records@[i], t)
                &&& forall|j: int| 0 <= j < records@.len() && precedes(#[trigger] records@[j], t)
                    ==> records@[j].commit_timestamp->Some_0 <= records@[i].commit_timestamp->Some_0
                &&& forall|j: int| 0 <= j < i && precedes(#[trigger] records@[j], t)
                    ==> records@[j].commit_timestamp->Some_0 < records@[i].commit_timestamp->Some_0
            }
        },
{
    let t = match latest.commit_timestamp {
        Some(t) => t,
        None => return None,
    };
    let mut best: Option<usize> = None;
    let mut k: usize = 0;
    while k < records.len()
        invariant
            k <= records@.len(),
            best is None <==> forall|j: int| 0 <= j < k ==> !precedes(#[trigger] records@[j], t),
            best is Some ==> {
                let i = best->Some_0 as int;
                &&& 0 <= i < k
                &&& precedes(records@[i], t)
                &&& forall|j: int| 0 <= j < k && precedes(#[trigger] records@[j], t)
                    ==> records@[j].commit_timestamp->Some_0 <= records@[i].commit_timestamp->Some_0
                &&& forall|j: int| 0 <= j < i && precedes(#[trigger] records@[j], t)
                    ==> records@[j].commit_timestamp->Some_0 < records@[i].commit_timestamp->Some_0
            },
        decreases records@.len() - k,
    {
        match records[k].commit_timestamp {
            Some(c) => {
                if c < t {
                    match best {
                        None => {
                            best = Some(k);
                        },
                        Some(i) => {
                            match records[i].commit_timestamp {
                                Some(b) => {
                                    if c > b {
                                        best = Some(k);
                                    }
                                },
                                None => {},
                            }
                        },
                    }
                }
            },
            None => {},
        }
        k = k + 1;
    }
    best
}

/// A quantity before and after, with the size and direction of the change.
#[derive(Clone, Copy, Debug, PartialEq, Eq, Structural)]
pub struct Change {
    pub before: u128,
    pub after: u128,
    /// Whether the quantity went up.
    pub increased: bool,
    /// How much it went up or down.
    pub amount: u128,
}

/// The change from `before` to `after`.
pub open spec fn change_of(before: u128, after: u128) -> Change {
    Change {
        before,
        after,
        increased: after > before,
        amount: if after > before {
            (after - before) as u128
        } else {
            (before - after) as u128
        },
    }
}

impl Change {
    /// The change from `before` to `after`.
    pub fn between(before: u128, after: u128) -> (r: Change)
        ensures
            r == change_of(before, after),
    {
        if after > before {
            Change { before, after, increased: true, amount: after - before }
        } else {
            Change { before, after, increased: false, amount: before - after }
        }
    }
}

/// How one test changed between two records, per trial.
#[derive(Clone, Debug)]
pub struct TestChange {
    pub name: String,
    pub energy: Change,
    pub time: Change,
}

/// The mathematical value of a `TestChange`.
pub struct TestChangeView {
    pub name: Seq<char>,
    pub energy: Change,
    pub time: Change,
}

impl View for TestChange {
    type V = TestChangeView;

    open spec fn view(&self) -> TestChangeView {
        TestChangeView { name: self.name@, energy: self.energy, time: self.time }
    }
}

/// The values of a sequence of test changes.
pub open spec fn change_views(v: Seq<TestChange>) -> Seq<TestChangeView> {
    v.map_values(|c: TestChange| c@)
}

/// A test entry that carries energy and time.
pub open spec fn measured(t: CompletedTest) -> bool {
    t.uj is Some && t.us is Some
}

/// The index of the first measured test called `name`, or -1.
pub open spec fn find_test(ts: Seq<CompletedTest>, name: Seq<char>) -> int
    decreases ts.len(),
{
    if ts.len() == 0 {
        -1
    } else {
        let k = find_test(ts.drop_last(), name);
        if k >= 0 {
            k
        } else if measured(ts.last()) && ts.last().name@ == name {
            ts.len() - 1
        } else {
            -1
        }
    }
}

/// The per-trial change of each measured test of `after` that `before` also
/// measured, in the order of `after`; `n` and `m` are the two records'
/// trial counts.
pub open spec fn test_changes(
    before: Seq<CompletedTest>,
    m: nat,
    after: Seq<CompletedTest>,
    n: nat,
) -> Seq<TestChangeView>
    decreases after.len(),
{
    if after.len() == 0 {
        Seq::empty()
    } else {
        let rest = test_changes(before, m, after.drop_last(), n);
        let t = after.last();
        let k = find_test(before, t.name@);
        if measured(t) && k >= 0 {
            rest.push(
                TestChangeView {
                    name: t.name@,
                    energy: change_of(
                        (before[k].uj->Some_0 as nat / m) as u128,
                        (t.uj->Some_0 as nat / n) as u128,
                    ),
                    time: change_of(
                        (before[k].us->Some_0 as nat / m) as u128,
                        (t.us->Some_0 as nat / n) as u128,
                    ),
                },
            )
        } else {
            rest
        }
    }
}

/// How a record compares with the one before it.
#[derive(Clone, Debug)]
pub struct Comparison {
    /// The whole-run energy per trial.
    pub overall_energy: Change,
    /// The tests present in both records.
    pub tests: Vec<TestChange>,
}

fn find_measured(ts: &Vec<CompletedTest>, name: &String) -> (r: Option<usize>)
    ensures
        find_test(ts@, name@) >= 0 ==> (r is Some && r->Some_0 as int == find_test(ts@, name@)),
        find_test(ts@, name@) < 0 ==> r is None,
{
    let mut k: usize = 0;
    while k < ts.len()
        invariant
            k <= ts@.len(),
            find_test(ts@.take(k as int), name@) < 0,
        decreases ts@.len() - k,
    {
        proof {
            assert(ts@.take(k as int + 1).drop_last() =~= ts@.take(k as int));
        }
        let t = &ts[k];
        if t.uj.is_some() && t.us.is_some() && t.name == *name {
            proof {
                lemma_find_test_prefix(ts@, name@, k as int + 1);
            }
            return Some(k);
        }
        k = k + 1;
    }
    proof {
        assert(ts@.take(k as int) =~= ts@);
    }
    None
}

proof fn lemma_find_test_found(ts: Seq<CompletedTest>, name: Seq<char>)
    ensures
        find_test(ts, name) >= 0 ==> {
            let k = find_test(ts, name);
            &&& k < ts.len()
            &&& measured(ts[k])
            &&& ts[k].name@ == name
        },
    decreases ts.len(),
{
    if ts.len() > 0 {
        lemma_find_test_found(ts.drop_last(), name);
    }
}

proof fn lemma_find_test_prefix(ts: Seq<CompletedTest>, name: Seq<char>, k: int)
    requires
        0 <= k <= ts.len(),
        find_test(ts.take(k), name) >= 0,
    ensures
        find_test(ts, name) == find_test(ts.take(k), name),
    decreases ts.len() - k,
{
    if k < ts.len() {
        assert(ts.take(k + 1).drop_last() =~= ts.take(k));
        lemma_find_test_prefix(ts, name, k + 1);
    } else {
        assert(ts.take(k) =~= ts);
    }
}

/// Compares `latest` with the record before it, per trial: the whole-run
/// energy, and the energy and time of each test measured in both, in the
/// order of `latest`. Tests missing from either side are left out. Records
/// of different versions do not compare.
pub fn compare_records(latest: &SessionRecord, previous: &SessionRecord) -> (r: Option<Comparison>)
    requires
        latest.number_of_repeats > 0,
        previous.number_of_repeats > 0,
    ensures
        r is None <==> latest.version != previous.version,
        r is Some ==> r->Some_0.overall_energy == change_of(
            (previous.total_uj / previous.number_of_repeats as u128) as u128,
            (latest.total_uj / latest.number_of_repeats as u128) as u128,
        ),
        r is Some ==> change_views(r->Some_0.tests@) == test_changes(
            previous.tests@,
            previous.number_of_repeats as nat,
            latest.tests@,
            latest.number_of_repeats as nat,
        ),
{
    if latest.version != previous.version {
        return None;
    }
    let n = latest.number_of_repeats as u128;
    let m = previous.number_of_repeats as u128;
    let overall_energy = Change::between(previous.total_uj / m, latest.total_uj / n);
    let mut tests: Vec<TestChange> = Vec::new();
    let mut k: usize = 0;
    while k < latest.tests.len()
        invariant
            k <= latest.tests@.len(),
            n == latest.number_of_repeats,
            m == previous.number_of_repeats,
            n > 0,
            m > 0,
            change_views(tests@) == test_changes(
                previous.tests@,
                m as nat,
                latest.tests@.take(k as int),
                n as nat,
            ),
        decreases latest.tests@.len() - k,
    {
        proof {
            assert(latest.tests@.take(k as int + 1).drop_last() =~= latest.tests@.take(k as int));
            assert(latest.tests@.take(k as int + 1).last() == latest.tests@[k as int]);
        }
        let t = &latest.tests[k];
        match (t.uj, t.us) {
            (Some(uj), Some(us)) => {
                proof {
                    lemma_find_test_found(previous.tests@, t.name@);
                }
                match find_measured(&previous.tests, &t.name) {
                    Some(j) => {
                        let p = &previous.tests[j];
                        match (p.uj, p.us) {
                            (Some(puj), Some(pus)) => {
                                let c = TestChange {
                                    name: t.name.clone(),
                                    energy: Change::between(puj / m, uj / n),
                                    time: Change::between(pus / m, us / n),
                                };
                                let ghost before = tests@;
                                tests.push(c);
                                proof {
                                    assert(change_views(tests@) =~= change_views(before).push(c@));
                                }
                            },
                            _ => {},
                        }
                    },
                    None => {},
                }
            },
            _ => {},
        }
        k = k + 1;
    }
    proof {
        assert(latest.tests@.take(k as int) =~= latest.tests@);
    }
    Some(Comparison { overall_energy, tests })
}

} // verus!
