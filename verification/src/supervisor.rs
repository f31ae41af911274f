//! The supervision of the solution on every test, outside a sandbox: where
//! the output of a test goes, how long the test is waited for, and what
//! becomes of it by the way its process ended.

use crate::checker::config::MonitorType;
use crate::checker::Error;
use crate::maps::lemma_walk_meets_all;
use std::collections::BTreeMap;
use std::time::Duration;
use vstd::prelude::*;
use vstd::std_specs::btree::*;
use vstd::std_specs::iter::IteratorSpec;

verus! {

/// The character of the digit `d`.
pub open spec fn digit(d: nat) -> char
    recommends
        d < 10,
{
    if d == 0 {
        '0'
    } else if d == 1 {
        '1'
    } else if d == 2 {
        '2'
    } else if d == 3 {
        '3'
    } else if d == 4 {
        '4'
    } else if d == 5 {
        '5'
    } else if d == 6 {
        '6'
    } else if d == 7 {
        '7'
    } else if d == 8 {
        '8'
    } else {
        '9'
    }
}

/// The number `n` written in decimal digits, without leading zeros.
pub open spec fn decimal(n: nat) -> Seq<char>
    decreases n,
{
    if n < 10 {
        seq![digit(n)]
    } else {
        decimal(n / 10).push(digit(n % 10))
    }
}

/// The digit `d` as text.
fn digit_text(d: usize) -> (text: &'static str)
    requires
        d < 10,
    ensures
        text@ == seq![digit(d as nat)],
{
    proof {
        reveal_strlit("0");
        reveal_strlit("1");
        reveal_strlit("2");
        reveal_strlit("3");
        reveal_strlit("4");
        reveal_strlit("5");
        reveal_strlit("6");
        reveal_strlit("7");
        reveal_strlit("8");
        reveal_strlit("9");
    }
    let text = if d == 0 {
        "0"
    } else if d == 1 {
        "1"
    } else if d == 2 {
        "2"
    } else if d == 3 {
        "3"
    } else if d == 4 {
        "4"
    } else if d == 5 {
        "5"
    } else if d == 6 {
        "6"
    } else if d == 7 {
        "7"
    } else if d == 8 {
        "8"
    } else {
        "9"
    };
    assert(text@ =~= seq![digit(d as nat)]);
    text
}

/// Writes `n` in decimal digits.
pub fn write_decimal(n: usize) -> (text: String)
    ensures
        text@ == decimal(n as nat),
    decreases n,
{
    if n < 10 {
        digit_text(n).to_string()
    } else {
        let mut text = write_decimal(n / 10);
        text.append(digit_text(n % 10));
        assert(text@ =~= decimal(n as nat));
        text
    }
}

/// The path of the file that the output of the test `id` is written to:
/// in `out_dir`, named by the test's number and ending in `.out`.
pub open spec fn out_path(out_dir: Seq<char>, id: usize) -> Seq<char> {
    out_dir + "/"@ + decimal(id as nat) + ".out"@
}

/// The path of the file that the output of the test `id` is written to.
pub fn out_file(out_dir: &str, id: usize) -> (path: String)
    ensures
        path@ == out_path(out_dir@, id),
{
    let number = write_decimal(id);
    out_dir.to_string().concat("/").concat(number.as_str()).concat(".out")
}

/// The time that a test is waited for: the limit of the last monitor that
/// sets one, and none where no monitor does.
pub open spec fn time_limit(monitors: Seq<MonitorType>) -> Option<Duration>
    decreases monitors.len(),
{
    if monitors.len() == 0 {
        None
    } else {
        match monitors.last() {
            MonitorType::Timeout { limit } => Some(limit),
            MonitorType::TimeFootprint => time_limit(monitors.drop_last()),
        }
    }
}

/// The time that a test is waited for.
pub fn timeout_limit(monitors: &Vec<MonitorType>) -> (limit: Option<Duration>)
    ensures
        limit == time_limit(monitors@),
{
    let mut i: usize = monitors.len();
    proof {
        assert(monitors@.take(monitors.len() as int) =~= monitors@);
    }
    while i > 0
        invariant
            i <= monitors.len(),
            time_limit(monitors@) == time_limit(monitors@.take(i as int)),
        decreases i,
    {
        proof {
            assert(monitors@.take(i as int).last() == monitors@[i as int - 1]);
            assert(monitors@.take(i as int).drop_last() =~= monitors@.take(i as int - 1));
        }
        match &monitors[i - 1] {
            MonitorType::Timeout { limit } => {
                return Some(*limit);
            },
            MonitorType::TimeFootprint => {},
        }
        i -= 1;
    }
    None
}

/// What became of the process of one test, as the one who ran it reports
/// it.
#[derive(Debug, Clone, PartialEq, Eq)]
pub enum ChildReport {
    /// The process was not started: the input could not be opened, the
    /// output not created, or the command not run. The text says which.
    NotStarted(String),
    /// The wait for the process failed; the text says how.
    WaitFailed(String),
    /// The process ran longer than it was waited for.
    TimedOut,
    /// The process ended. `status` is its exit status as text.
    Exited { success: bool, status: String },
}

/// What is said of a test that ran longer than it was waited for.
pub open spec fn time_exceeded() -> Seq<char> {
    "Time exceeded!"@
}

/// What is said of a test whose process ended with `status` and without
/// success.
pub open spec fn exit_status(status: Seq<char>) -> Seq<char> {
    "Exit status: "@ + status
}

/// What a test gives: the path of its output, where its process ended with
/// success, and otherwise the reason for which it gives none.
pub open spec fn verdict(report: ChildReport, output: Seq<char>) -> Result<Seq<char>, Seq<char>> {
    match report {
        ChildReport::NotStarted(reason) => Err(reason@),
        ChildReport::WaitFailed(reason) => Err(reason@),
        ChildReport::TimedOut => Err(time_exceeded()),
        ChildReport::Exited { success, status } => if success {
            Ok(output)
        } else {
            Err(exit_status(status@))
        },
    }
}

/// Whether `result` is what `verdict` says, with the reason as the detail
/// of a test error.
pub open spec fn is_verdict(result: Result<String, Error>, expected: Result<Seq<char>, Seq<char>>) -> bool {
    match result {
        Ok(path) => expected == Ok::<Seq<char>, Seq<char>>(path@),
        Err(error) => error matches Error::TestError(detail) && expected == Err::<
            Seq<char>,
            Seq<char>,
        >(detail@),
    }
}

/// Decides what the test gives whose process ended as `report` says and
/// whose output was to go to `output`.
pub fn test_result(report: &ChildReport, output: String) -> (result: Result<String, Error>)
    ensures
        is_verdict(result, verdict(*report, output@)),
{
    match report {
        ChildReport::NotStarted(reason) => Err(Error::TestError(reason.clone())),
        ChildReport::WaitFailed(reason) => Err(Error::TestError(reason.clone())),
        ChildReport::TimedOut => Err(Error::TestError("Time exceeded!".to_string())),
        ChildReport::Exited { success, status } => {
            if *success {
                Ok(output)
            } else {
                Err(Error::TestError("Exit status: ".to_string().concat(status.as_str())))
            }
        },
    }
}

/// Decides what every test in `reports` gives. Each test is decided by its
/// own report and its own output file in `out_dir`.
pub fn collect(out_dir: &str, reports: &BTreeMap<usize, ChildReport>) -> (results: BTreeMap<
    usize,
    Result<String, Error>,
>)
    ensures
        results@.dom() == reports@.dom(),
        forall|id: usize| #[trigger]
            reports@.contains_key(id) ==> is_verdict(
                results@[id],
                verdict(reports@[id], out_path(out_dir@, id)),
            ),
{
    let mut results: BTreeMap<usize, Result<String, Error>> = BTreeMap::new();
    assert(vstd::laws_cmp::obeys_cmp::<usize>());
    assert(key_obeys_cmp_spec::<usize>());
    for (id, report) in it: reports.iter()
        invariant
            it.seq() == spec_btree_map_iter(reports).remaining(),
            vstd::laws_cmp::obeys_cmp::<usize>(),
            forall|id: usize| #[trigger]
                results@.contains_key(id) ==> reports@.contains_key(id) && is_verdict(
                    results@[id],
                    verdict(reports@[id], out_path(out_dir@, id)),
                ),
            forall|i: int|
                0 <= i < it.index() ==> results@.contains_key(*(#[trigger] it.seq()[i]).0),
    {
        assert(reports@.contains_key(*id) && reports@[*id] == *report);
        let one = test_result(report, out_file(out_dir, *id));
        results.insert(*id, one);
    }
    proof {
        lemma_walk_meets_all(reports, results@.dom());
    }
    assert(results@.dom() =~= reports@.dom());
    results
}

/// A test that ran longer than it was waited for gives an error that says
/// so, and no other test gives anything else on that account: what the
/// others give is what they give whatever became of that one.
pub proof fn lemma_timeout_is_local(
    out_dir: Seq<char>,
    reports: Map<usize, ChildReport>,
    slow: usize,
    other: usize,
    instead: ChildReport,
)
    requires
        reports.contains_key(slow),
        reports.contains_key(other),
        reports[slow] is TimedOut,
        other != slow,
    ensures
        verdict(reports[slow], out_path(out_dir, slow)) == Err::<Seq<char>, Seq<char>>(
            time_exceeded(),
        ),
        verdict(reports.insert(slow, instead)[other], out_path(out_dir, other)) == verdict(
            reports[other],
            out_path(out_dir, other),
        ),
{
}

} // verus!
