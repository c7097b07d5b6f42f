//! SARIF to SonarQube Generic Issue Data conversion, and the derivation of
//! a SonarQube project key from a directory name.
use vstd::prelude::*;

use crate::json::{
    field, get_field, get_first, get_text, get_u64, items_of, json_get, json_item, json_len,
    json_of, json_view, parse_json, then_field, then_first, then_items, then_text, then_u64,
    JsonView,
};
use crate::cli::sonar::models::{PrimaryLocation, SonarGenericIssue, SonarGenericIssuesFile, TextRange};
use crate::paths::{path_strip, strip_path_prefix};
use crate::scanner::RawFinding;
use crate::strmap::StrMap;
use crate::text::{
    chars_of, concat, forward_slashes, is_alnum, is_digit, lower_ascii, opt_chars, owned,
    push_char, str_eq, to_ascii_lowercase, to_forward_slashes, to_lowercase, trim_start_matches,
    trim_start_str, unicode_lower,
};

verus! {

/// The SonarQube severity of a SARIF result level: `error` is critical,
/// `warning` major, anything else (`note`, `none`, absent) minor.
pub open spec fn severity_for(level: Option<Seq<char>>) -> Seq<char> {
    match level {
        Some(l) => if l == "error"@ {
            "CRITICAL"@
        } else if l == "warning"@ {
            "MAJOR"@
        } else {
            "MINOR"@
        },
        None => "MINOR"@,
    }
}

/// Maps a SARIF result level to a SonarQube severity.
pub fn map_severity(level: Option<&str>) -> (s: &'static str)
    ensures
        s@ == severity_for(match level {
            Some(l) => Some(l@),
            None => None,
        }),
{
    match level {
        Some(l) => if str_eq(l, "error") {
            "CRITICAL"
        } else if str_eq(l, "warning") {
            "MAJOR"
        } else {
            "MINOR"
        },
        None => "MINOR",
    }
}

/// Each SARIF level has its own SonarQube severity: `error` alone is
/// critical, `warning` alone major, and every other level (or none) minor.
pub proof fn lemma_severity_levels(level: Option<Seq<char>>)
    ensures
        severity_for(level) == "CRITICAL"@ <==> level == Some("error"@),
        severity_for(level) == "MAJOR"@ <==> level == Some("warning"@),
        severity_for(level) == "MINOR"@ <==> level != Some("error"@) && level != Some("warning"@),
{
    reveal_strlit("error");
    reveal_strlit("warning");
    reveal_strlit("CRITICAL");
    reveal_strlit("MAJOR");
    reveal_strlit("MINOR");
    assert("CRITICAL"@.len() == 8 && "MAJOR"@.len() == 5 && "MINOR"@.len() == 5);
    assert("MAJOR"@[1] == 'A' && "MINOR"@[1] == 'I');
    assert("error"@.len() == 5 && "warning"@.len() == 7);
}

/// The engines of secret, dependency and pattern scanners (semgrep, trivy,
/// gitleaks) report vulnerabilities, those of duplication and size tools
/// (jscpd, scc) code smells, and every other engine bugs.
pub proof fn lemma_engine_types(engine: Seq<char>)
    ensures
        type_for(engine) == "VULNERABILITY"@ <==> (engine == "semgrep"@ || engine == "trivy"@ || engine
            == "gitleaks"@),
        type_for(engine) == "CODE_SMELL"@ <==> (engine == "jscpd"@ || engine == "scc"@),
        type_for(engine) == "BUG"@ <==> !(engine == "semgrep"@ || engine == "trivy"@ || engine
            == "gitleaks"@ || engine == "jscpd"@ || engine == "scc"@),
{
    reveal_strlit("VULNERABILITY");
    reveal_strlit("CODE_SMELL");
    reveal_strlit("BUG");
    assert("VULNERABILITY"@.len() == 13 && "CODE_SMELL"@.len() == 10 && "BUG"@.len() == 3);
    reveal_strlit("semgrep");
    reveal_strlit("trivy");
    reveal_strlit("gitleaks");
    reveal_strlit("jscpd");
    reveal_strlit("scc");
    assert("semgrep"@.len() == 7 && "trivy"@.len() == 5 && "gitleaks"@.len() == 8);
    assert("jscpd"@.len() == 5 && "scc"@.len() == 3 && "trivy"@[0] == 't' && "jscpd"@[0] == 'j');
}

/// The SonarQube issue type of a scanner engine: semgrep, trivy and
/// gitleaks report vulnerabilities, jscpd and scc code smells, anything
/// else bugs.
pub open spec fn type_for(engine: Seq<char>) -> Seq<char> {
    if engine == "semgrep"@ || engine == "trivy"@ || engine == "gitleaks"@ {
        "VULNERABILITY"@
    } else if engine == "jscpd"@ || engine == "scc"@ {
        "CODE_SMELL"@
    } else {
        "BUG"@
    }
}

/// Maps a scanner engine id to a SonarQube issue type.
pub fn map_type(engine_id: &str) -> (s: &'static str)
    ensures
        s@ == type_for(engine_id@),
{
    if str_eq(engine_id, "semgrep") || str_eq(engine_id, "trivy") || str_eq(engine_id, "gitleaks") {
        "VULNERABILITY"
    } else if str_eq(engine_id, "jscpd") || str_eq(engine_id, "scc") {
        "CODE_SMELL"
    } else {
        "BUG"
    }
}

/// A SARIF URI without its `file://` scheme (an absolute path keeps its
/// leading `/`).
pub open spec fn uri_path(uri: Seq<char>) -> Seq<char> {
    trim_start_str(uri, "file://"@)
}

/// The path of a SARIF URI relative to the project root, with forward
/// slashes; the path itself when it does not lie under the root.
pub open spec fn relative_to_root(uri: Seq<char>, root: Seq<char>) -> Seq<char> {
    let raw = uri_path(uri);
    forward_slashes(
        match path_strip(raw, root) {
            Some(r) => r,
            None => raw,
        },
    )
}

/// Strips the project root from a file URI or path and returns the
/// relative path with forward slashes.
pub fn relative_path(uri: &str, project_root: &str) -> (s: String)
    ensures
        s@ == relative_to_root(uri@, project_root@),
{
    let raw = trim_start_matches(uri, "file://");
    let rel = match strip_path_prefix(raw.as_str(), project_root) {
        Some(r) => r,
        None => raw,
    };
    to_forward_slashes(rel.as_str())
}

/// A character of a project key: ASCII letters, digits, `-`, `_` and `.`
/// are kept (lowercased), anything else becomes `-`.
pub open spec fn key_char(c: char) -> char {
    if is_alnum(c) || c == '-' || c == '_' || c == '.' {
        lower_ascii(c)
    } else {
        '-'
    }
}

/// The SonarQube project key for a directory name: its characters
/// sanitised and lowercased, with `rg-` in front when it would start with
/// a digit.
pub open spec fn project_key_of(dir_name: Seq<char>) -> Seq<char> {
    let s = dir_name.map_values(|c: char| key_char(c));
    if s.len() > 0 && is_digit(s[0]) {
        "rg-"@ + s
    } else {
        s
    }
}

/// A character SonarQube accepts in a key as this derivation writes it:
/// a lowercase ASCII letter, a digit, `-`, `_` or `.`.
pub open spec fn is_key_char(c: char) -> bool {
    ('a' <= c && c <= 'z') || is_digit(c) || c == '-' || c == '_' || c == '.'
}

/// A derived project key holds only lowercase letters, digits, `-`, `_`
/// and `.`, and never starts with a digit.
pub proof fn lemma_project_key_valid(dir_name: Seq<char>)
    ensures
        forall|i: int| 0 <= i < project_key_of(dir_name).len() ==> is_key_char(
            #[trigger] project_key_of(dir_name)[i],
        ),
        project_key_of(dir_name).len() > 0 ==> !is_digit(project_key_of(dir_name)[0]),
{
    reveal_strlit("rg-");
    let s = dir_name.map_values(|c: char| key_char(c));
    assert forall|i: int| 0 <= i < s.len() implies is_key_char(#[trigger] s[i]) by {
        let c = dir_name[i];
        if 'A' <= c && c <= 'Z' {
            assert(('a' as u32) <= (c as u32) + 32 <= ('z' as u32));
        }
    }
    if s.len() > 0 && is_digit(s[0]) {
        let k = "rg-"@ + s;
        assert forall|i: int| 0 <= i < k.len() implies is_key_char(#[trigger] k[i]) by {
            if i >= 3 {
                assert(k[i] == s[i - 3]);
            }
        }
    }
}

/// A directory name that already is a valid key (only lowercase letters,
/// digits, `-`, `_` and `.`, not starting with a digit) is its own key,
/// so deriving a key from a derived key changes nothing.
pub proof fn lemma_valid_key_stays(dir_name: Seq<char>)
    ensures
        (forall|i: int| 0 <= i < dir_name.len() ==> is_key_char(#[trigger] dir_name[i]))
            && (dir_name.len() > 0 ==> !is_digit(dir_name[0])) ==> project_key_of(dir_name)
            == dir_name,
        project_key_of(project_key_of(dir_name)) == project_key_of(dir_name),
{
    let valid = |d: Seq<char>|
        (forall|i: int| 0 <= i < d.len() ==> is_key_char(#[trigger] d[i])) && (d.len() > 0
            ==> !is_digit(d[0]));
    assert forall|d: Seq<char>| #[trigger] valid(d) implies project_key_of(d) == d by {
        let s = d.map_values(|c: char| key_char(c));
        assert(s =~= d);
    }
    lemma_project_key_valid(dir_name);
    assert(valid(project_key_of(dir_name)));
}

/// Derives a SonarQube project key from a directory name.
pub fn derive_project_key(dir_name: &str) -> (key: String)
    ensures
        key@ == project_key_of(dir_name@),
{
    let cs = chars_of(dir_name);
    let n = cs.len();
    let mut out = String::new();
    let ghost target = dir_name@.map_values(|c: char| key_char(c));
    for i in 0..n
        invariant
            n == cs@.len(),
            cs@ == dir_name@,
            target == dir_name@.map_values(|c: char| key_char(c)),
            out@ == target.take(i as int),
    {
        let c = cs[i];
        let k = if (c >= 'a' && c <= 'z') || (c >= 'A' && c <= 'Z') || (c >= '0' && c <= '9')
            || c == '-' || c == '_' || c == '.' {
            to_ascii_lowercase(c)
        } else {
            '-'
        };
        proof {
            assert(target.take(i + 1) =~= target.take(i as int).push(k));
        }
        push_char(&mut out, k);
    }
    assert(target.take(n as int) =~= target);
    let oc = chars_of(out.as_str());
    if oc.len() > 0 && oc[0] >= '0' && oc[0] <= '9' {
        concat("rg-", out.as_str())
    } else {
        out
    }
}

/// The region of a SARIF location.
pub struct SarifRegion {
    pub start_line: Option<u64>,
    pub end_line: Option<u64>,
    pub start_column: Option<u64>,
    pub end_column: Option<u64>,
}

/// What the conversion reads of a SARIF result; a field is `None` when it
/// is absent or not of the expected kind.
pub struct SarifResult {
    /// `level`.
    pub level: Option<String>,
    /// `ruleId`.
    pub rule_id: Option<String>,
    /// `message.text`.
    pub message: Option<String>,
    /// The first location's `physicalLocation.artifactLocation.uri`.
    pub uri: Option<String>,
    /// The first location's `physicalLocation.region`.
    pub region: SarifRegion,
}

/// What the conversion reads of a SARIF run.
pub struct SarifRun {
    /// `tool.driver.name`.
    pub tool_name: Option<String>,
    /// `results`, when it is an array.
    pub results: Option<Vec<SarifResult>>,
}

/// What the conversion reads of a SARIF log.
pub struct SarifLog {
    /// `runs`, when it is an array.
    pub runs: Option<Vec<SarifRun>>,
}

/// A SARIF result as the specifications see it.
pub struct SarifResultView {
    pub level: Option<Seq<char>>,
    pub rule_id: Option<Seq<char>>,
    pub message: Option<Seq<char>>,
    pub uri: Option<Seq<char>>,
    pub region: SarifRegion,
}

/// A SARIF run as the specifications see it.
pub struct SarifRunView {
    pub tool_name: Option<Seq<char>>,
    pub results: Option<Seq<SarifResultView>>,
}

/// A SARIF log as the specifications see it.
pub struct SarifLogView {
    pub runs: Option<Seq<SarifRunView>>,
}

impl View for SarifResult {
    type V = SarifResultView;

    open spec fn view(&self) -> SarifResultView {
        SarifResultView {
            level: opt_chars(self.level),
            rule_id: opt_chars(self.rule_id),
            message: opt_chars(self.message),
            uri: opt_chars(self.uri),
            region: self.region,
        }
    }
}

/// The views of SARIF results.
pub open spec fn result_views(rs: Seq<SarifResult>) -> Seq<SarifResultView> {
    rs.map_values(|r: SarifResult| r@)
}

impl View for SarifRun {
    type V = SarifRunView;

    open spec fn view(&self) -> SarifRunView {
        SarifRunView {
            tool_name: opt_chars(self.tool_name),
            results: match self.results {
                Some(rs) => Some(result_views(rs@)),
                None => None,
            },
        }
    }
}

/// The views of SARIF runs.
pub open spec fn run_views(rs: Seq<SarifRun>) -> Seq<SarifRunView> {
    rs.map_values(|r: SarifRun| r@)
}

impl View for SarifLog {
    type V = SarifLogView;

    open spec fn view(&self) -> SarifLogView {
        SarifLogView {
            runs: match self.runs {
                Some(rs) => Some(run_views(rs@)),
                None => None,
            },
        }
    }
}

/// A generic issue, as plain values.
#[verifier::ext_equal]
pub struct GenericIssueView {
    pub engine_id: Seq<char>,
    pub rule_id: Seq<char>,
    pub severity: Seq<char>,
    pub issue_type: Seq<char>,
    pub message: Seq<char>,
    pub file_path: Seq<char>,
    pub text_range: TextRange,
}

impl View for SonarGenericIssue {
    type V = GenericIssueView;

    open spec fn view(&self) -> GenericIssueView {
        GenericIssueView {
            engine_id: self.engine_id@,
            rule_id: self.rule_id@,
            severity: self.severity@,
            issue_type: self.issue_type@,
            message: self.primary_location.message@,
            file_path: self.primary_location.file_path@,
            text_range: self.primary_location.text_range,
        }
    }
}

/// The views of generic issues.
pub open spec fn generic_views(v: Seq<SonarGenericIssue>) -> Seq<GenericIssueView> {
    v.map_values(|i: SonarGenericIssue| i@)
}

/// An optional string, or `default` when absent.
pub open spec fn or_text(o: Option<String>, default: Seq<char>) -> Seq<char> {
    or_chars(opt_chars(o), default)
}

/// Optional characters, or `default` when absent.
pub open spec fn or_chars(o: Option<Seq<char>>, default: Seq<char>) -> Seq<char> {
    match o {
        Some(s) => s,
        None => default,
    }
}

/// An optional number, or `default` when absent.
pub open spec fn or_num(o: Option<u64>, default: u64) -> u64 {
    match o {
        Some(n) => n,
        None => default,
    }
}

/// The engine id of a run: its tool's name lowercased, `unknown` when it
/// has none.
pub open spec fn engine_of(run: SarifRunView) -> Seq<char> {
    unicode_lower(or_chars(run.tool_name, "unknown"@))
}

/// The text range of a region: the start line defaults to 1, the end line
/// to the start line, columns to 0; each is cut to 32 bits.
pub open spec fn range_of(r: SarifRegion) -> TextRange {
    let start_line = or_num(r.start_line, 1) as u32;
    TextRange {
        start_line,
        end_line: or_num(r.end_line, start_line as u64) as u32,
        start_column: or_num(r.start_column, 0) as u32,
        end_column: or_num(r.end_column, 0) as u32,
    }
}

/// The generic issue a SARIF result becomes: missing rule ids are
/// `unknown-rule`, missing messages empty, missing or empty URIs the file
/// `unknown`, others made relative to the project root.
pub open spec fn issue_for(engine: Seq<char>, r: SarifResultView, root: Seq<char>) -> GenericIssueView {
    let uri = or_chars(r.uri, Seq::empty());
    GenericIssueView {
        engine_id: engine,
        rule_id: or_chars(r.rule_id, "unknown-rule"@),
        severity: severity_for(r.level),
        issue_type: type_for(engine),
        message: or_chars(r.message, Seq::empty()),
        file_path: if uri.len() == 0 {
            "unknown"@
        } else {
            relative_to_root(uri, root)
        },
        text_range: range_of(r.region),
    }
}

/// The issues of a run, in order; none when it has no results array.
pub open spec fn run_issues(run: SarifRunView, root: Seq<char>) -> Seq<GenericIssueView> {
    match run.results {
        Some(rs) => rs.map_values(|r: SarifResultView| issue_for(engine_of(run), r, root)),
        None => Seq::empty(),
    }
}

/// The issues of all runs, run after run.
pub open spec fn runs_issues(runs: Seq<SarifRunView>, root: Seq<char>) -> Seq<GenericIssueView>
    decreases runs.len(),
{
    if runs.len() == 0 {
        Seq::empty()
    } else {
        runs_issues(runs.drop_last(), root) + run_issues(runs.last(), root)
    }
}

/// The issues of a log; none without a runs array.
pub open spec fn sarif_issues(log: SarifLogView, root: Seq<char>) -> Seq<GenericIssueView> {
    match log.runs {
        Some(rs) => runs_issues(rs, root),
        None => Seq::empty(),
    }
}

fn text_or(o: &Option<String>, default: &str) -> (s: String)
    ensures
        s@ == or_text(*o, default@),
{
    match o {
        Some(s) => s.clone(),
        None => owned(default),
    }
}

fn num_or(o: Option<u64>, default: u64) -> (n: u64)
    ensures
        n == or_num(o, default),
{
    match o {
        Some(n) => n,
        None => default,
    }
}

fn convert_result(engine: &str, r: &SarifResult, project_root: &str) -> (i: SonarGenericIssue)
    ensures
        i@ == issue_for(engine@, r@, project_root@),
{
    let level = match &r.level {
        Some(l) => Some(l.as_str()),
        None => None,
    };
    let uri = text_or(&r.uri, "");
    proof {
        reveal_strlit("");
    }
    let file_path = if uri.as_str().unicode_len() == 0 {
        owned("unknown")
    } else {
        relative_path(uri.as_str(), project_root)
    };
    let start_line = #[verifier::truncate] (num_or(r.region.start_line, 1) as u32);
    let end_line = #[verifier::truncate] (num_or(r.region.end_line, start_line as u64) as u32);
    let start_column = #[verifier::truncate] (num_or(r.region.start_column, 0) as u32);
    let end_column = #[verifier::truncate] (num_or(r.region.end_column, 0) as u32);
    let sev = map_severity(level);
    SonarGenericIssue {
        engine_id: owned(engine),
        rule_id: text_or(&r.rule_id, "unknown-rule"),
        severity: owned(sev),
        issue_type: owned(map_type(engine)),
        primary_location: PrimaryLocation {
            message: text_or(&r.message, ""),
            file_path,
            text_range: TextRange { start_line, end_line, start_column, end_column },
        },
    }
}

/// Converts a SARIF log into SonarQube Generic Issue Data: one issue per
/// result, run after run; a log without a runs array, or runs without a
/// results array, contribute none.
pub fn convert_sarif_log(log: &SarifLog, project_root: &str) -> (f: SonarGenericIssuesFile)
    ensures
        generic_views(f.issues@) == sarif_issues(log@, project_root@),
{
    let mut issues: Vec<SonarGenericIssue> = Vec::new();
    let runs = match &log.runs {
        Some(rs) => rs,
        None => {
            assert(generic_views(issues@) =~= Seq::<GenericIssueView>::empty());
            return SonarGenericIssuesFile { issues };
        },
    };
    let n = runs.len();
    let ghost rv = run_views(runs@);
    assert(generic_views(issues@) =~= runs_issues(rv.take(0), project_root@));
    for i in 0..n
        invariant
            n == runs@.len(),
            rv == run_views(runs@),
            generic_views(issues@) == runs_issues(rv.take(i as int), project_root@),
    {
        let run = &runs[i];
        let ghost before = generic_views(issues@);
        proof {
            assert(rv.take(i + 1).drop_last() =~= rv.take(i as int));
            assert(rv.take(i + 1).last() == run@);
        }
        match &run.results {
            Some(results) => {
                let name = text_or(&run.tool_name, "unknown");
                let engine = to_lowercase(name.as_str());
                let m = results.len();
                for j in 0..m
                    invariant
                        m == results@.len(),
                        engine@ == engine_of(run@),
                        run.results == Some(*results),
                        generic_views(issues@) == before + result_views(results@).take(j as int).map_values(
                            |r: SarifResultView| issue_for(engine_of(run@), r, project_root@),
                        ),
                {
                    let issue = convert_result(engine.as_str(), &results[j], project_root);
                    proof {
                        assert(generic_views(issues@.push(issue)) =~= generic_views(issues@).push(
                            issue@,
                        ));
                        assert(result_views(results@)[j as int] == results@[j as int]@);
                        assert(result_views(results@).take(j + 1).map_values(
                            |r: SarifResultView| issue_for(engine_of(run@), r, project_root@),
                        ) =~= result_views(results@).take(j as int).map_values(
                            |r: SarifResultView| issue_for(engine_of(run@), r, project_root@),
                        ).push(issue@));
                    }
                    issues.push(issue);
                }
                assert(result_views(results@).take(m as int) =~= result_views(results@));
            },
            None => {
                assert(before + run_issues(run@, project_root@) =~= before);
            },
        }
    }
    assert(rv.take(n as int) =~= rv);
    SonarGenericIssuesFile { issues }
}

/// The line a SARIF region starts at, 0 when absent or beyond 32 bits.
pub open spec fn start_line_of(r: SarifRegion) -> u32 {
    match r.start_line {
        Some(l) => if l <= u32::MAX {
            l as u32
        } else {
            0
        },
        None => 0,
    }
}

/// The severity of a finding: the result's level (`warning` when absent),
/// through the scanner's severity map when the level is listed there.
pub open spec fn finding_severity(level: Option<Seq<char>>, map: Map<Seq<char>, String>) -> Seq<char> {
    let l = or_chars(level, "warning"@);
    if map.contains_key(l) {
        map[l]@
    } else {
        l
    }
}

/// `f` is the raw finding of scanner `scanner` for the SARIF result `r`:
/// rule, mapped severity, path relative to the root (`<project>` without
/// a location), start line and message, with no snippet or replacement.
pub open spec fn finding_ok(
    f: RawFinding,
    scanner: Seq<char>,
    r: SarifResultView,
    map: Map<Seq<char>, String>,
    root: Seq<char>,
) -> bool {
    &&& f.scanner@ == scanner
    &&& f.rule_id@ == or_chars(r.rule_id, "unknown-rule"@)
    &&& f.severity@ == finding_severity(r.level, map)
    &&& f.file_path@ == match r.uri {
        Some(u) => relative_to_root(u, root),
        None => "<project>"@,
    }
    &&& f.line == start_line_of(r.region)
    &&& f.message@ == or_chars(r.message, Seq::empty())
    &&& f.matched_code is None
    &&& f.suggested_replacement is None
}

/// The results of a run; none without a results array.
pub open spec fn run_results(run: SarifRunView) -> Seq<SarifResultView> {
    match run.results {
        Some(rs) => rs,
        None => Seq::empty(),
    }
}

/// The results of all runs, run after run.
pub open spec fn log_results(runs: Seq<SarifRunView>) -> Seq<SarifResultView>
    decreases runs.len(),
{
    if runs.len() == 0 {
        Seq::empty()
    } else {
        log_results(runs.drop_last()) + run_results(runs.last())
    }
}

/// The results of a log; none without a runs array.
pub open spec fn sarif_results(log: SarifLogView) -> Seq<SarifResultView> {
    match log.runs {
        Some(rs) => log_results(rs),
        None => Seq::empty(),
    }
}

fn finding_of(scanner: &str, r: &SarifResult, severity_map: &StrMap<String>, project_root: &str) -> (f: RawFinding)
    requires
        severity_map.wf(),
    ensures
        finding_ok(f, scanner@, r@, severity_map@, project_root@),
{
    let level = text_or(&r.level, "warning");
    let severity = match severity_map.get(level.as_str()) {
        Some(s) => s.clone(),
        None => level,
    };
    let file_path = match &r.uri {
        Some(u) => relative_path(u.as_str(), project_root),
        None => owned("<project>"),
    };
    let line: u32 = match r.region.start_line {
        Some(l) => if l <= 0xffff_ffffu64 {
            l as u32
        } else {
            0
        },
        None => 0,
    };
    let message = text_or(&r.message, "");
    proof {
        reveal_strlit("");
        assert(""@ =~= Seq::<char>::empty());
    }
    RawFinding {
        scanner: owned(scanner),
        rule_id: text_or(&r.rule_id, "unknown-rule"),
        severity,
        file_path,
        line,
        message,
        matched_code: None,
        suggested_replacement: None,
    }
}

/// The raw findings of a scanner's SARIF report: one per result, run after
/// run (see [`finding_ok`]).
pub fn sarif_findings(log: &SarifLog, scanner: &str, severity_map: &StrMap<String>, project_root: &str) -> (v: Vec<RawFinding>)
    requires
        severity_map.wf(),
    ensures
        v@.len() == sarif_results(log@).len(),
        forall|k: int| 0 <= k < v@.len() ==> finding_ok(#[trigger] v@[k], scanner@, sarif_results(log@)[k], severity_map@, project_root@),
{
    let mut out: Vec<RawFinding> = Vec::new();
    let runs = match &log.runs {
        Some(rs) => rs,
        None => {
            return out;
        },
    };
    let n = runs.len();
    let ghost rv = run_views(runs@);
    for i in 0..n
        invariant
            n == runs@.len(),
            log.runs == Some(*runs),
            rv == run_views(runs@),
            severity_map.wf(),
            out@.len() == log_results(rv.take(i as int)).len(),
            forall|k: int| 0 <= k < out@.len() ==> finding_ok(#[trigger] out@[k], scanner@, log_results(rv.take(i as int))[k], severity_map@, project_root@),
    {
        let run = &runs[i];
        let ghost done = log_results(rv.take(i as int));
        proof {
            assert(rv.take(i + 1).drop_last() =~= rv.take(i as int));
            assert(rv.take(i + 1).last() == run@);
        }
        match &run.results {
            Some(results) => {
                let m = results.len();
                for j in 0..m
                    invariant
                        m == results@.len(),
                        severity_map.wf(),
                        out@.len() == done.len() + j,
                        forall|k: int| 0 <= k < done.len() ==> finding_ok(#[trigger] out@[k], scanner@, done[k], severity_map@, project_root@),
                        forall|k: int| done.len() <= k < out@.len() ==> finding_ok(#[trigger] out@[k], scanner@, result_views(results@)[k - done.len()], severity_map@, project_root@),
                {
                    let f = finding_of(scanner, &results[j], severity_map, project_root);
                    assert(result_views(results@)[j as int] == results@[j as int]@);
                    out.push(f);
                }
                proof {
                    let all = done + result_views(results@);
                    assert(log_results(rv.take(i + 1)) == all);
                    assert forall|k: int| 0 <= k < out@.len() implies finding_ok(#[trigger] out@[k], scanner@, all[k], severity_map@, project_root@) by {
                        if k < done.len() {
                            assert(all[k] == done[k]);
                        } else {
                            assert(all[k] == result_views(results@)[k - done.len()]);
                        }
                    }
                }
            },
            None => {
                proof {
                    assert(log_results(rv.take(i + 1)) =~= done);
                }
            },
        }
    }
    proof {
        assert(rv.take(n as int) =~= rv);
    }
    out
}

/// The first location's `physicalLocation` of a SARIF result.
pub open spec fn location_of(r: JsonView) -> Option<JsonView> {
    then_field(then_first(field(r, "locations"@)), "physicalLocation"@)
}

/// The region a SARIF result's first location names.
pub open spec fn region_from(r: JsonView) -> SarifRegion {
    let reg = then_field(location_of(r), "region"@);
    SarifRegion {
        start_line: then_u64(then_field(reg, "startLine"@)),
        end_line: then_u64(then_field(reg, "endLine"@)),
        start_column: then_u64(then_field(reg, "startColumn"@)),
        end_column: then_u64(then_field(reg, "endColumn"@)),
    }
}

/// What the conversion reads of a SARIF result: `level`, `ruleId`,
/// `message.text`, and the first location's URI and region; a field that
/// is absent or of another kind reads as `None`.
pub open spec fn result_from(r: JsonView) -> SarifResultView {
    SarifResultView {
        level: then_text(field(r, "level"@)),
        rule_id: then_text(field(r, "ruleId"@)),
        message: then_text(then_field(field(r, "message"@), "text"@)),
        uri: then_text(then_field(then_field(location_of(r), "artifactLocation"@), "uri"@)),
        region: region_from(r),
    }
}

/// What the conversion reads of a SARIF run: `tool.driver.name` and the
/// `results` array.
pub open spec fn run_from(run: JsonView) -> SarifRunView {
    SarifRunView {
        tool_name: then_text(then_field(then_field(field(run, "tool"@), "driver"@), "name"@)),
        results: match then_items(field(run, "results"@)) {
            Some(rs) => Some(rs.map_values(|r: JsonView| result_from(r))),
            None => None,
        },
    }
}

/// What the conversion reads of a SARIF document: its `runs` array.
pub open spec fn sarif_from(doc: JsonView) -> SarifLogView {
    SarifLogView {
        runs: match then_items(field(doc, "runs"@)) {
            Some(rs) => Some(rs.map_values(|r: JsonView| run_from(r))),
            None => None,
        },
    }
}

/// The SARIF log a text holds: `None` when the text is not JSON.
pub open spec fn sarif_of(text: Seq<char>) -> Option<SarifLogView> {
    match json_of(text) {
        Some(doc) => Some(sarif_from(doc)),
        None => None,
    }
}

fn result_of_json(r: &serde_json::Value) -> (s: SarifResult)
    ensures
        s@ == result_from(json_view(*r)),
{
    let loc = get_field(get_first(json_get(r, "locations")), "physicalLocation");
    let reg = get_field(loc, "region");
    SarifResult {
        level: get_text(json_get(r, "level")),
        rule_id: get_text(json_get(r, "ruleId")),
        message: get_text(get_field(json_get(r, "message"), "text")),
        uri: get_text(get_field(get_field(loc, "artifactLocation"), "uri")),
        region: SarifRegion {
            start_line: get_u64(get_field(reg, "startLine")),
            end_line: get_u64(get_field(reg, "endLine")),
            start_column: get_u64(get_field(reg, "startColumn")),
            end_column: get_u64(get_field(reg, "endColumn")),
        },
    }
}

fn results_of_json(a: &serde_json::Value) -> (r: Option<Vec<SarifResult>>)
    ensures
        match items_of(json_view(*a)) {
            Some(s) => r matches Some(v) && result_views(v@) == s.map_values(|x: JsonView| result_from(x)),
            None => r is None,
        },
{
    let n = match json_len(a) {
        Some(n) => n,
        None => {
            return None;
        },
    };
    let ghost s = items_of(json_view(*a))->0;
    let mut out: Vec<SarifResult> = Vec::new();
    for i in 0..n
        invariant
            items_of(json_view(*a)) == Some(s),
            n == s.len(),
            result_views(out@) == s.take(i as int).map_values(|x: JsonView| result_from(x)),
    {
        match json_item(a, i) {
            Some(x) => {
                let r = result_of_json(x);
                proof {
                    assert(result_views(out@.push(r)) =~= result_views(out@).push(r@));
                    assert(s.take(i + 1).map_values(|x: JsonView| result_from(x)) =~= s.take(
                        i as int,
                    ).map_values(|x: JsonView| result_from(x)).push(result_from(s[i as int])));
                }
                out.push(r);
            },
            None => {
                assert(false);
            },
        }
    }
    assert(s.take(n as int) =~= s);
    Some(out)
}

fn run_of_json(run: &serde_json::Value) -> (r: SarifRun)
    ensures
        r@ == run_from(json_view(*run)),
{
    let tool_name = get_text(get_field(get_field(json_get(run, "tool"), "driver"), "name"));
    let results = match json_get(run, "results") {
        Some(a) => results_of_json(a),
        None => None,
    };
    SarifRun { tool_name, results }
}

/// Reads what the conversion needs of a parsed SARIF document (see
/// [`sarif_from`]).
pub fn sarif_log_of_json(doc: &serde_json::Value) -> (log: SarifLog)
    ensures
        log@ == sarif_from(json_view(*doc)),
{
    let runs_v = match json_get(doc, "runs") {
        Some(a) => a,
        None => {
            return SarifLog { runs: None };
        },
    };
    let n = match json_len(runs_v) {
        Some(n) => n,
        None => {
            return SarifLog { runs: None };
        },
    };
    let ghost s = items_of(json_view(*runs_v))->0;
    let mut out: Vec<SarifRun> = Vec::new();
    for i in 0..n
        invariant
            items_of(json_view(*runs_v)) == Some(s),
            n == s.len(),
            run_views(out@) == s.take(i as int).map_values(|x: JsonView| run_from(x)),
    {
        match json_item(runs_v, i) {
            Some(x) => {
                let r = run_of_json(x);
                proof {
                    assert(run_views(out@.push(r)) =~= run_views(out@).push(r@));
                    assert(s.take(i + 1).map_values(|x: JsonView| run_from(x)) =~= s.take(
                        i as int,
                    ).map_values(|x: JsonView| run_from(x)).push(run_from(s[i as int])));
                }
                out.push(r);
            },
            None => {
                assert(false);
            },
        }
    }
    assert(s.take(n as int) =~= s);
    SarifLog { runs: Some(out) }
}

/// A SARIF text that could not be read.
#[derive(Debug)]
pub enum SarifError {
    /// The text is not JSON.
    NotJson,
}

/// Converts the text of a SARIF file into SonarQube Generic Issue Data
/// (see [`convert_sarif_log`]); an error when the text is not JSON.
pub fn convert_sarif_text(text: &str, project_root: &str) -> (r: Result<SonarGenericIssuesFile, SarifError>)
    ensures
        r is Err <==> sarif_of(text@) is None,
        r matches Ok(f) ==> generic_views(f.issues@) == sarif_issues(sarif_of(text@)->0, project_root@),
{
    match parse_json(text) {
        Some(doc) => {
            let log = sarif_log_of_json(&doc);
            Ok(convert_sarif_log(&log, project_root))
        },
        None => Err(SarifError::NotJson),
    }
}

/// The raw findings of a scanner's SARIF report text (see
/// [`sarif_findings`]); `None` when the text is not JSON.
pub fn sarif_text_findings(text: &str, scanner: &str, severity_map: &StrMap<String>, project_root: &str) -> (r:
    Option<Vec<RawFinding>>)
    requires
        severity_map.wf(),
    ensures
        r is None <==> sarif_of(text@) is None,
        r matches Some(v) ==> {
            &&& v@.len() == sarif_results(sarif_of(text@)->0).len()
            &&& forall|k: int|
                0 <= k < v@.len() ==> finding_ok(
                    #[trigger] v@[k],
                    scanner@,
                    sarif_results(sarif_of(text@)->0)[k],
                    severity_map@,
                    project_root@,
                )
        },
{
    match parse_json(text) {
        Some(doc) => {
            let log = sarif_log_of_json(&doc);
            Some(sarif_findings(&log, scanner, severity_map, project_root))
        },
        None => None,
    }
}

} // verus!
