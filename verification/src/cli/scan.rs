//! The decisions of `scan`: the scanner subset and its label, which
//! scanners run, the diff-only filter, the per-scanner summary rows and
//! the exit code.
use vstd::prelude::*;

use crate::ignore::external::dedup;
use crate::registry::scanner_descriptor::ScannerDescriptor;
use crate::scanner::{RawFinding, ScanMode};
use crate::strmap::StrMap;
use crate::paths::{join_path, path_join};
use crate::text::{
    blank, chars_of, concat, decimal, decimal_string, ends_with, forward_slashes, has_suffix,
    is_blank, lines_of, owned, split_lines, str_eq, string_of, to_forward_slashes, views,
};

verus! {

/// The scanner subset chosen by the flags: `--quick` wins over
/// `--security`; neither means a full scan.
pub fn scan_mode(quick: bool, security: bool) -> (m: ScanMode)
    ensures
        m == (if quick {
            ScanMode::Quick
        } else if security {
            ScanMode::Security
        } else {
            ScanMode::Full
        }),
{
    if quick {
        ScanMode::Quick
    } else if security {
        ScanMode::Security
    } else {
        ScanMode::Full
    }
}

/// The human-readable name of the scan mode.
pub fn mode_label(quick: bool, security: bool) -> (s: &'static str)
    ensures
        s@ == (if quick {
            "Quick scan"@
        } else if security {
            "Security scan"@
        } else {
            "Full scan"@
        }),
{
    if quick {
        "Quick scan"
    } else if security {
        "Security scan"
    } else {
        "Full scan"
    }
}

/// The names of the descriptors whose scanner the config marks available,
/// in descriptor order.
pub open spec fn enabled_names(ds: Seq<ScannerDescriptor>, tools: Map<Seq<char>, bool>) -> Seq<
    Seq<char>,
>
    decreases ds.len(),
{
    if ds.len() == 0 {
        Seq::empty()
    } else {
        let d = ds.last();
        enabled_names(ds.drop_last(), tools) + if tools.contains_key(d.name@) && tools[d.name@] {
            seq![d.name@]
        } else {
            Seq::empty()
        }
    }
}

/// The scanners that run: those the config's tool list marks available.
pub fn enabled_scanner_names(descriptors: &Vec<ScannerDescriptor>, tools: &StrMap<bool>) -> (v: Vec<
    String,
>)
    requires
        tools.wf(),
    ensures
        views(v@) == enabled_names(descriptors@, tools@),
{
    let mut out: Vec<String> = Vec::new();
    let n = descriptors.len();
    assert(views(out@) =~= enabled_names(descriptors@.take(0), tools@));
    for i in 0..n
        invariant
            n == descriptors@.len(),
            tools.wf(),
            views(out@) == enabled_names(descriptors@.take(i as int), tools@),
    {
        let d = &descriptors[i];
        proof {
            assert(descriptors@.take(i + 1).drop_last() =~= descriptors@.take(i as int));
        }
        let on = match tools.get(d.name.as_str()) {
            Some(b) => *b,
            None => false,
        };
        if on {
            let s = d.name.clone();
            assert(views(out@.push(s)) =~= views(out@).push(s@));
            out.push(s);
        } else {
            assert(views(out@) + Seq::<Seq<char>>::empty() =~= views(out@));
        }
    }
    assert(descriptors@.take(n as int) =~= descriptors@);
    out
}

/// A file git reports as changed: its path and its last component
/// (empty when it has none).
pub struct ChangedFile {
    pub path: String,
    pub file_name: String,
}

/// The last component of a path: what follows its last `/`, the whole
/// path when it has none.
pub open spec fn last_component(p: Seq<char>) -> Seq<char>
    decreases p.len(),
{
    if p.len() == 0 {
        Seq::empty()
    } else if p.last() == '/' {
        Seq::empty()
    } else {
        last_component(p.drop_last()).push(p.last())
    }
}

/// The lines of `git diff --name-only` output that name a file.
pub open spec fn named_lines(output: Seq<char>) -> Seq<Seq<char>> {
    lines_of(output).filter(|l: Seq<char>| !blank(l))
}

/// `c` is the changed file git reports as `line`, under `target`.
pub open spec fn changed_file_for(c: ChangedFile, target: Seq<char>, line: Seq<char>) -> bool {
    c.path@ == path_join(target, line) && c.file_name@ == last_component(line)
}

fn last_component_of(p: &str) -> (r: String)
    ensures
        r@ == last_component(p@),
{
    let cs = chars_of(p);
    let n = cs.len();
    let mut start: usize = 0;
    for i in 0..n
        invariant
            n == cs@.len(),
            cs@ == p@,
            start <= i,
            last_component(p@.take(i as int)) == p@.subrange(start as int, i as int),
    {
        proof {
            assert(p@.take(i + 1).drop_last() =~= p@.take(i as int));
            assert(p@.take(i + 1).last() == cs@[i as int]);
        }
        if cs[i] == '/' {
            start = i + 1;
            assert(last_component(p@.take(i + 1)) =~= p@.subrange(start as int, i + 1));
        } else {
            assert(p@.subrange(start as int, i + 1) =~= p@.subrange(start as int, i as int).push(cs@[i as int]));
        }
    }
    assert(p@.take(n as int) =~= p@);
    let r = string_of(&cs.as_slice()[start..n]);
    assert(cs@.subrange(start as int, n as int) =~= p@.subrange(start as int, n as int));
    r
}

/// The changed files in the output of `git diff --name-only`, run in
/// `target`: one per line that names a file, in order.
pub fn changed_files_of(output: &str, target: &str) -> (v: Vec<ChangedFile>)
    ensures
        v@.len() == named_lines(output@).len(),
        forall|i: int| 0 <= i < v@.len() ==> changed_file_for(#[trigger] v@[i], target@, named_lines(output@)[i]),
{
    let lines = split_lines(output);
    let ghost ls = lines_of(output@);
    let mut out: Vec<ChangedFile> = Vec::new();
    let n = lines.len();
    for i in 0..n
        invariant
            n == lines@.len(),
            views(lines@) == ls,
            ls == lines_of(output@),
            out@.len() == ls.take(i as int).filter(|l: Seq<char>| !blank(l)).len(),
            forall|k: int| 0 <= k < out@.len() ==> changed_file_for(#[trigger] out@[k], target@, ls.take(i as int).filter(|l: Seq<char>| !blank(l))[k]),
    {
        let line = lines[i].as_str();
        proof {
            assert(ls.take(i + 1) =~= ls.take(i as int).push(ls[i as int]));
            ls.take(i as int).lemma_filter_push(ls[i as int], |l: Seq<char>| !blank(l));
            assert(ls[i as int] == line@);
        }
        if !is_blank(line) {
            let c = ChangedFile { path: join_path(target, line), file_name: last_component_of(line) };
            out.push(c);
        }
    }
    assert(ls.take(n as int) =~= ls);
    out
}

/// Whether a finding's file is one of the changed files: a changed path
/// ends with the finding's path, or the finding's path ends with a changed
/// file's name (paths compared with forward slashes).
pub open spec fn in_changed(changed: Seq<ChangedFile>, finding_path: Seq<char>) -> bool {
    exists|i: int| 0 <= i < changed.len() && matches_changed(#[trigger] changed[i], forward_slashes(finding_path))
}

/// Whether a finding path (with forward slashes) belongs to a changed
/// file.
pub open spec fn matches_changed(c: ChangedFile, finding_path: Seq<char>) -> bool {
    has_suffix(forward_slashes(c.path@), finding_path) || has_suffix(finding_path, c.file_name@)
}

/// Whether a finding's file is one of the changed files.
pub fn in_changed_files(changed: &Vec<ChangedFile>, finding_path: &str) -> (b: bool)
    ensures
        b == in_changed(changed@, finding_path@),
{
    let fp = to_forward_slashes(finding_path);
    let n = changed.len();
    for i in 0..n
        invariant
            n == changed@.len(),
            fp@ == forward_slashes(finding_path@),
            forall|j: int| 0 <= j < i ==> !matches_changed(#[trigger] changed@[j], fp@),
    {
        let cp = to_forward_slashes(changed[i].path.as_str());
        if ends_with(cp.as_str(), fp.as_str()) || ends_with(fp.as_str(), changed[i].file_name.as_str()) {
            assert(matches_changed(changed@[i as int], fp@));
            return true;
        }
    }
    false
}

/// The findings kept by the diff-only filter, in order.
pub open spec fn kept_findings(fs: Seq<RawFinding>, changed: Seq<ChangedFile>) -> Seq<RawFinding>
    decreases fs.len(),
{
    if fs.len() == 0 {
        Seq::empty()
    } else if in_changed(changed, fs.last().file_path@) {
        kept_findings(fs.drop_last(), changed).push(fs.last())
    } else {
        kept_findings(fs.drop_last(), changed)
    }
}

/// The diff-only filter: with changed files known, only findings in them
/// are kept; with none known, every finding is.
pub fn diff_only_findings(findings: Vec<RawFinding>, changed: &Vec<ChangedFile>) -> (v: Vec<
    RawFinding,
>)
    ensures
        v@ == (if changed@.len() == 0 {
            findings@
        } else {
            kept_findings(findings@, changed@)
        }),
{
    if changed.len() == 0 {
        return findings;
    }
    let mut out: Vec<RawFinding> = Vec::new();
    let mut rest = findings;
    let ghost orig = rest@;
    let n = rest.len();
    let mut i: usize = 0;
    while i < n
        invariant
            n == orig.len(),
            i <= n,
            rest@ == orig.skip(i as int),
            out@ == kept_findings(orig.take(i as int), changed@),
        decreases n - i,
    {
        let f = rest.remove(0);
        proof {
            assert(orig.take(i + 1).drop_last() =~= orig.take(i as int));
            assert(rest@ =~= orig.skip(i + 1));
        }
        if in_changed_files(changed, f.file_path.as_str()) {
            out.push(f);
        }
        i = i + 1;
    }
    assert(orig.take(n as int) =~= orig);
    out
}

/// The scanner of each finding.
pub open spec fn finding_scanners(fs: Seq<RawFinding>) -> Seq<Seq<char>> {
    fs.map_values(|f: RawFinding| f.scanner@)
}

fn contains_name(v: &Vec<String>, s: &str) -> (r: bool)
    ensures
        r == views(v@).contains(s@),
{
    let n = v.len();
    for i in 0..n
        invariant
            n == v@.len(),
            forall|j: int| 0 <= j < i ==> v@[j]@ != s@,
    {
        if str_eq(v[i].as_str(), s) {
            assert(views(v@)[i as int] == s@);
            assert(views(v@).contains(s@));
            return true;
        }
    }
    assert forall|j: int| 0 <= j < views(v@).len() implies views(v@)[j] != s@ by {
        assert(views(v@)[j] == v@[j]@);
    }
    false
}

/// The scanners that produced findings, each once, in order of first
/// finding.
pub fn scanners_run(findings: &Vec<RawFinding>) -> (v: Vec<String>)
    ensures
        views(v@) == dedup(finding_scanners(findings@)),
{
    let mut out: Vec<String> = Vec::new();
    let n = findings.len();
    let ghost all = finding_scanners(findings@);
    assert(views(out@) =~= dedup(all.take(0)));
    for i in 0..n
        invariant
            n == findings@.len(),
            all == finding_scanners(findings@),
            views(out@) == dedup(all.take(i as int)),
    {
        let s = findings[i].scanner.as_str();
        proof {
            assert(all.take(i + 1).drop_last() =~= all.take(i as int));
            assert(all.take(i + 1).last() == s@);
        }
        if !contains_name(&out, s) {
            let o = owned(s);
            assert(views(out@.push(o)) =~= views(out@).push(o@));
            out.push(o);
        }
    }
    assert(all.take(n as int) =~= all);
    out
}

/// Status of a scanner run.
#[derive(Debug, Clone, Copy, PartialEq, Eq, Structural)]
pub enum ScannerStatus {
    /// The scanner ran and returned results (possibly none).
    Success,
    /// The scanner ran but failed.
    Failed,
    /// The scanner was not run.
    Skipped,
}

/// One row of the scan summary table.
#[derive(Debug, Clone)]
pub struct ScannerResult {
    /// Scanner name.
    pub name: String,
    /// Outcome.
    pub status: ScannerStatus,
    /// Total findings of this scanner.
    pub findings: usize,
    /// Findings with severity `error`.
    pub high: usize,
    /// Findings with severity `warning`.
    pub medium: usize,
    /// Findings with severity `info`.
    pub low: usize,
    /// Findings with any other severity.
    pub info: usize,
    /// Wall-clock time in milliseconds (not measured per scanner: 0).
    pub duration_ms: u64,
    /// Short error description for failed scanners.
    pub error_msg: Option<String>,
}

/// The number of findings of `scanner` (with severity `severity`, when
/// given).
pub open spec fn count_of(fs: Seq<RawFinding>, scanner: Seq<char>, severity: Option<Seq<char>>) -> nat
    decreases fs.len(),
{
    if fs.len() == 0 {
        0
    } else {
        let f = fs.last();
        count_of(fs.drop_last(), scanner, severity) + if f.scanner@ == scanner && match severity {
            Some(s) => f.severity@ == s,
            None => true,
        } {
            1nat
        } else {
            0nat
        }
    }
}

proof fn lemma_count_bounds(fs: Seq<RawFinding>, scanner: Seq<char>)
    ensures
        count_of(fs, scanner, None) <= fs.len(),
        count_of(fs, scanner, Some("error"@)) + count_of(fs, scanner, Some("warning"@)) + count_of(
            fs,
            scanner,
            Some("info"@),
        ) <= count_of(fs, scanner, None),
    decreases fs.len(),
{
    reveal_strlit("error");
    reveal_strlit("warning");
    reveal_strlit("info");
    assert("error"@.len() == 5 && "warning"@.len() == 7 && "info"@.len() == 4);
    if fs.len() > 0 {
        lemma_count_bounds(fs.drop_last(), scanner);
    }
}

/// The summary row of a scanner: its finding total, the counts by
/// severity (`error` high, `warning` medium, `info` low, the rest info),
/// status success, no duration and no error.
pub open spec fn row_ok(r: ScannerResult, name: Seq<char>, fs: Seq<RawFinding>) -> bool {
    let total = count_of(fs, name, None);
    let high = count_of(fs, name, Some("error"@));
    let medium = count_of(fs, name, Some("warning"@));
    let low = count_of(fs, name, Some("info"@));
    &&& r.name@ == name
    &&& r.status == ScannerStatus::Success
    &&& r.findings == total
    &&& r.high == high
    &&& r.medium == medium
    &&& r.low == low
    &&& r.info == total - (high + medium + low)
    &&& r.duration_ms == 0
    &&& r.error_msg is None
}

/// The summary row of one scanner.
pub fn scanner_result(name: &str, findings: &Vec<RawFinding>) -> (r: ScannerResult)
    ensures
        row_ok(r, name@, findings@),
{
    let n = findings.len();
    let mut total: usize = 0;
    let mut high: usize = 0;
    let mut medium: usize = 0;
    let mut low: usize = 0;
    proof {
        reveal_strlit("error");
        reveal_strlit("warning");
        reveal_strlit("info");
    }
    for i in 0..n
        invariant
            n == findings@.len(),
            total == count_of(findings@.take(i as int), name@, None),
            high == count_of(findings@.take(i as int), name@, Some("error"@)),
            medium == count_of(findings@.take(i as int), name@, Some("warning"@)),
            low == count_of(findings@.take(i as int), name@, Some("info"@)),
            total <= i,
            high + medium + low <= total,
    {
        let f = &findings[i];
        proof {
            assert(findings@.take(i + 1).drop_last() =~= findings@.take(i as int));
            lemma_count_bounds(findings@.take(i as int), name@);
            reveal_strlit("error");
            reveal_strlit("warning");
            reveal_strlit("info");
            assert("error"@.len() == 5 && "warning"@.len() == 7 && "info"@.len() == 4);
        }
        if str_eq(f.scanner.as_str(), name) {
            total = total + 1;
            if str_eq(f.severity.as_str(), "error") {
                high = high + 1;
            } else if str_eq(f.severity.as_str(), "warning") {
                medium = medium + 1;
            } else if str_eq(f.severity.as_str(), "info") {
                low = low + 1;
            }
        }
    }
    assert(findings@.take(n as int) =~= findings@);
    ScannerResult {
        name: owned(name),
        status: ScannerStatus::Success,
        findings: total,
        high,
        medium,
        low,
        info: total - (high + medium + low),
        duration_ms: 0,
        error_msg: None,
    }
}

/// The summary rows of the scanners that ran, in order.
pub fn scanner_results(names: &Vec<String>, findings: &Vec<RawFinding>) -> (v: Vec<ScannerResult>)
    ensures
        v@.len() == names@.len(),
        forall|i: int| 0 <= i < names@.len() ==> row_ok(#[trigger] v@[i], names@[i]@, findings@),
{
    let mut out: Vec<ScannerResult> = Vec::new();
    let n = names.len();
    for i in 0..n
        invariant
            n == names@.len(),
            out@.len() == i,
            forall|j: int| 0 <= j < i ==> row_ok(#[trigger] out@[j], names@[j]@, findings@),
    {
        let r = scanner_result(names[i].as_str(), findings);
        out.push(r);
    }
    out
}

/// Whether every scanner failed: at least one scanner was attempted and
/// none of them completed (`completed[i]` tells whether the `i`-th scanner
/// attempted ran and delivered its report). A scan whose scanners all
/// completed without a finding has not failed.
pub fn all_scanners_failed(completed: &Vec<bool>) -> (b: bool)
    ensures
        b == (completed@.len() > 0 && forall|i: int| 0 <= i < completed@.len() ==> !#[trigger] completed@[i]),
{
    let n = completed.len();
    for i in 0..n
        invariant
            n == completed@.len(),
            forall|j: int| 0 <= j < i ==> !#[trigger] completed@[j],
    {
        if completed[i] {
            return false;
        }
    }
    n > 0
}

/// The exit code of `scan`: 2 when every scanner failed, 0 when there are
/// no issues, 1 when there are.
pub fn scan_exit_code(all_failed: bool, issue_count: usize) -> (code: i32)
    ensures
        code == (if all_failed {
            2i32
        } else if issue_count == 0 {
            0i32
        } else {
            1i32
        }),
{
    if all_failed {
        2
    } else if issue_count == 0 {
        0
    } else {
        1
    }
}

/// The plain-text label of a scanner status.
pub fn status_label(status: ScannerStatus) -> (s: &'static str)
    ensures
        s@ == match status {
            ScannerStatus::Success => "ok"@,
            ScannerStatus::Failed => "FAIL"@,
            ScannerStatus::Skipped => "skip"@,
        },
{
    match status {
        ScannerStatus::Success => "ok",
        ScannerStatus::Failed => "FAIL",
        ScannerStatus::Skipped => "skip",
    }
}

/// The severity breakdown of a row: `<high>H <medium>M <low>L <info>I`.
pub open spec fn breakdown_text(high: nat, medium: nat, low: nat, info: nat) -> Seq<char> {
    decimal(high) + "H "@ + decimal(medium) + "M "@ + decimal(low) + "L "@ + decimal(info) + "I"@
}

/// Formats the severity breakdown of a row.
pub fn severity_breakdown(high: usize, medium: usize, low: usize, info: usize) -> (s: String)
    ensures
        s@ == breakdown_text(high as nat, medium as nat, low as nat, info as nat),
{
    let a = concat(decimal_string(high as u64).as_str(), "H ");
    let b = concat(a.as_str(), decimal_string(medium as u64).as_str());
    let c = concat(b.as_str(), "M ");
    let d = concat(c.as_str(), decimal_string(low as u64).as_str());
    let e = concat(d.as_str(), "L ");
    let f = concat(e.as_str(), decimal_string(info as u64).as_str());
    concat(f.as_str(), "I")
}

/// The totals row of the summary table: findings, high, medium, low and
/// info, each summed over the rows.
pub open spec fn totals_of(rows: Seq<ScannerResult>) -> (int, int, int, int, int)
    decreases rows.len(),
{
    if rows.len() == 0 {
        (0, 0, 0, 0, 0)
    } else {
        let t = totals_of(rows.drop_last());
        let r = rows.last();
        (t.0 + r.findings, t.1 + r.high, t.2 + r.medium, t.3 + r.low, t.4 + r.info)
    }
}

/// Sums the rows of the summary table.
pub fn scan_totals(rows: &Vec<ScannerResult>) -> (t: (usize, usize, usize, usize, usize))
    requires
        ({
            let s = totals_of(rows@);
            &&& s.0 <= usize::MAX
            &&& s.1 <= usize::MAX
            &&& s.2 <= usize::MAX
            &&& s.3 <= usize::MAX
            &&& s.4 <= usize::MAX
        }),
    ensures
        (t.0 as int, t.1 as int, t.2 as int, t.3 as int, t.4 as int) == totals_of(rows@),
{
    let n = rows.len();
    let mut t: (usize, usize, usize, usize, usize) = (0, 0, 0, 0, 0);
    for i in 0..n
        invariant
            n == rows@.len(),
            (t.0 as int, t.1 as int, t.2 as int, t.3 as int, t.4 as int) == totals_of(rows@.take(i as int)),
            ({
                let s = totals_of(rows@);
                &&& s.0 <= usize::MAX
                &&& s.1 <= usize::MAX
                &&& s.2 <= usize::MAX
                &&& s.3 <= usize::MAX
                &&& s.4 <= usize::MAX
            }),
    {
        proof {
            assert(rows@.take(i + 1).drop_last() =~= rows@.take(i as int));
            lemma_totals_monotone(rows@, i + 1);
        }
        let r = &rows[i];
        t = (t.0 + r.findings, t.1 + r.high, t.2 + r.medium, t.3 + r.low, t.4 + r.info);
    }
    assert(rows@.take(n as int) =~= rows@);
    t
}

proof fn lemma_totals_monotone(rows: Seq<ScannerResult>, k: int)
    requires
        0 <= k <= rows.len(),
    ensures
        ({
            let a = totals_of(rows.take(k));
            let b = totals_of(rows);
            a.0 <= b.0 && a.1 <= b.1 && a.2 <= b.2 && a.3 <= b.3 && a.4 <= b.4
        }),
    decreases rows.len() - k,
{
    if k < rows.len() {
        lemma_totals_monotone(rows, k + 1);
        assert(rows.take(k + 1).drop_last() =~= rows.take(k));
    } else {
        assert(rows.take(k) =~= rows);
    }
}

} // verus!
