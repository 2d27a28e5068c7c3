use vstd::prelude::*;
use vstd::string::*;
use crate::doctor::{CheckResult, CheckStatus};
use crate::text::{dec_str, push_decimal};

verus! {

/// How many checks ended in each status.
#[derive(Debug, Clone, Copy, PartialEq, Eq, Structural)]
pub struct Summary {
    pub pass: usize,
    pub warn: usize,
    pub fail: usize,
}

/// A check result in the shape of the JSON report.
#[derive(Debug, Clone)]
pub struct CheckResultJson {
    pub id: String,
    pub status: String,
    pub message: String,
    pub hint: Option<String>,
}

/// The JSON report: every check and the summary.
#[derive(Debug, Clone)]
pub struct DoctorReport {
    pub checks: Vec<CheckResultJson>,
    pub summary: Summary,
}

/// The number of results with status `st`.
pub open spec fn count_status(results: Seq<CheckResult>, st: CheckStatus) -> nat
    decreases results.len(),
{
    if results.len() == 0 {
        0
    } else {
        count_status(results.drop_last(), st) + if results.last().status == st { 1nat } else { 0nat }
    }
}

/// The status word of the JSON report.
pub open spec fn status_word(st: CheckStatus) -> Seq<char> {
    match st {
        CheckStatus::Pass => "pass"@,
        CheckStatus::Warn => "warn"@,
        CheckStatus::Fail => "fail"@,
    }
}

/// The mark printed before a check in the human report.
pub open spec fn status_mark(st: CheckStatus) -> Seq<char> {
    match st {
        CheckStatus::Pass => "\u{2713}"@,
        CheckStatus::Warn => "\u{26a0}"@,
        CheckStatus::Fail => "\u{2717}"@,
    }
}

/// The lines of the human report for one check.
pub open spec fn check_lines(r: CheckResult) -> Seq<char> {
    status_mark(r.status) + " "@ + r.id@ + ": "@ + r.message@ + "\n"@ + match r.hint {
        Some(h) => "  Hint: "@ + h@ + "\n"@,
        None => Seq::empty(),
    }
}

/// The lines of the human report for every check, in order.
pub open spec fn all_check_lines(results: Seq<CheckResult>) -> Seq<char>
    decreases results.len(),
{
    if results.len() == 0 {
        Seq::empty()
    } else {
        all_check_lines(results.drop_last()) + check_lines(results.last())
    }
}

/// The human-readable report.
pub open spec fn human_report(results: Seq<CheckResult>) -> Seq<char> {
    "PortaQEMU Diagnostics\n=====================\n\n"@ + all_check_lines(results) + "\nSummary: "@
        + dec_str(count_status(results, CheckStatus::Pass)) + " pass, "@
        + dec_str(count_status(results, CheckStatus::Warn)) + " warn, "@
        + dec_str(count_status(results, CheckStatus::Fail)) + " fail\n"@
}

/// Counts the results of each status.
pub fn summarize(results: &[CheckResult]) -> (r: Summary)
    ensures
        r.pass == count_status(results@, CheckStatus::Pass),
        r.warn == count_status(results@, CheckStatus::Warn),
        r.fail == count_status(results@, CheckStatus::Fail),
{
    let mut pass: usize = 0;
    let mut warn: usize = 0;
    let mut fail: usize = 0;
    let mut i: usize = 0;
    while i < results.len()
        invariant
            i <= results@.len(),
            pass == count_status(results@.subrange(0, i as int), CheckStatus::Pass),
            warn == count_status(results@.subrange(0, i as int), CheckStatus::Warn),
            fail == count_status(results@.subrange(0, i as int), CheckStatus::Fail),
            pass + warn + fail == i,
        decreases results@.len() - i,
    {
        let ghost done = results@.subrange(0, i + 1);
        assert(done.drop_last() =~= results@.subrange(0, i as int));
        match results[i].status {
            CheckStatus::Pass => pass = pass + 1,
            CheckStatus::Warn => warn = warn + 1,
            CheckStatus::Fail => fail = fail + 1,
        }
        i = i + 1;
    }
    assert(results@.subrange(0, i as int) =~= results@);
    Summary { pass, warn, fail }
}

fn copy_text(s: &String) -> (r: String)
    ensures
        r@ == s@,
{
    String::from_str(s.as_str())
}

impl CheckResultJson {
    /// The JSON shape of a check result, with the status as a lower-case word.
    pub fn from_check(result: &CheckResult) -> (r: CheckResultJson)
        ensures
            r.id@ == result.id@,
            r.status@ == status_word(result.status),
            r.message@ == result.message@,
            r.hint is Some <==> result.hint is Some,
            result.hint is Some ==> r.hint->Some_0@ == result.hint->Some_0@,
    {
        let status = match result.status {
            CheckStatus::Pass => String::from_str("pass"),
            CheckStatus::Warn => String::from_str("warn"),
            CheckStatus::Fail => String::from_str("fail"),
        };
        let hint = match &result.hint {
            Some(h) => Some(copy_text(h)),
            None => None,
        };
        CheckResultJson { id: String::from_str(result.id), status, message: copy_text(&result.message), hint }
    }
}

/// The JSON report's contents: each check in order and the summary.
pub fn doctor_report(results: &[CheckResult]) -> (r: DoctorReport)
    ensures
        r.checks@.len() == results@.len(),
        forall|i: int| 0 <= i < results@.len() ==> {
            &&& (#[trigger] r.checks@[i]).id@ == results@[i].id@
            &&& r.checks@[i].status@ == status_word(results@[i].status)
            &&& r.checks@[i].message@ == results@[i].message@
            &&& (r.checks@[i].hint is Some <==> results@[i].hint is Some)
            &&& (results@[i].hint is Some ==> r.checks@[i].hint->Some_0@ == results@[i].hint->Some_0@)
        },
        r.summary.pass == count_status(results@, CheckStatus::Pass),
        r.summary.warn == count_status(results@, CheckStatus::Warn),
        r.summary.fail == count_status(results@, CheckStatus::Fail),
{
    let mut checks: Vec<CheckResultJson> = Vec::new();
    let mut i: usize = 0;
    while i < results.len()
        invariant
            i <= results@.len(),
            checks@.len() == i,
            forall|k: int| 0 <= k < i ==> {
                &&& (#[trigger] checks@[k]).id@ == results@[k].id@
                &&& checks@[k].status@ == status_word(results@[k].status)
                &&& checks@[k].message@ == results@[k].message@
                &&& (checks@[k].hint is Some <==> results@[k].hint is Some)
                &&& (results@[k].hint is Some ==> checks@[k].hint->Some_0@ == results@[k].hint->Some_0@)
            },
        decreases results@.len() - i,
    {
        checks.push(CheckResultJson::from_check(&results[i]));
        i = i + 1;
    }
    DoctorReport { checks, summary: summarize(results) }
}

/// Appends the human report's lines for one check.
fn push_check_lines(out: &mut String, r: &CheckResult)
    ensures
        final(out)@ == old(out)@ + check_lines(*r),
{
    match r.status {
        CheckStatus::Pass => out.append("\u{2713}"),
        CheckStatus::Warn => out.append("\u{26a0}"),
        CheckStatus::Fail => out.append("\u{2717}"),
    }
    out.append(" ");
    out.append(r.id);
    out.append(": ");
    out.append(r.message.as_str());
    out.append("\n");
    match &r.hint {
        Some(h) => {
            out.append("  Hint: ");
            out.append(h.as_str());
            out.append("\n");
        },
        None => {},
    }
    assert(final(out)@ =~= old(out)@ + check_lines(*r));
}

/// The human-readable diagnostics report: a header, one line per check
/// with its hint below where it has one, and the summary counts.
pub fn format_report_human(results: &[CheckResult]) -> (r: String)
    ensures
        r@ == human_report(results@),
{
    let mut out = String::from_str("PortaQEMU Diagnostics\n=====================\n\n");
    let ghost head = out@;
    let mut i: usize = 0;
    while i < results.len()
        invariant
            i <= results@.len(),
            out@ == head + all_check_lines(results@.subrange(0, i as int)),
        decreases results@.len() - i,
    {
        let ghost before = out@;
        push_check_lines(&mut out, &results[i]);
        let ghost done = results@.subrange(0, i + 1);
        assert(done.drop_last() =~= results@.subrange(0, i as int));
        assert(out@ =~= before + check_lines(results@[i as int]));
        i = i + 1;
    }
    assert(results@.subrange(0, i as int) =~= results@);
    let s = summarize(results);
    out.append("\nSummary: ");
    push_decimal(&mut out, s.pass as u64);
    out.append(" pass, ");
    push_decimal(&mut out, s.warn as u64);
    out.append(" warn, ");
    push_decimal(&mut out, s.fail as u64);
    out.append(" fail\n");
    out
}

} // verus!
