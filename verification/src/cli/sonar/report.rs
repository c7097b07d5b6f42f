//! The decisions of `report` and `enroll`: project key and host, API
//! paths, the `sonar-project.properties` content, the metrics map, token
//! resolution, and how failed requests are told apart.
use vstd::prelude::*;

use crate::cli::sonar::converter::{or_text, project_key_of};
use crate::cli::sonar::models::{Measure, SonarError};
use crate::strmap::StrMap;
use crate::text::{
    concat, contains_str, has_infix, join_strings, joined, owned, trim_end_char,
    trim_end_matches_char, views,
};

verus! {

/// Trailing slashes trimmed off the configured host.
pub fn sonar_host(host: &str) -> (s: String)
    ensures
        s@ == trim_end_char(host@, '/'),
{
    trim_end_matches_char(host, '/')
}

/// The directory name a project key is derived from: the project
/// directory's last component, `project` when it has none.
pub fn project_dir_name(file_name: Option<String>) -> (s: String)
    ensures
        s@ == or_text(file_name, "project"@),
{
    match file_name {
        Some(n) => n,
        None => owned("project"),
    }
}

/// The project key: the configured one, or the one derived from the
/// directory name.
pub fn project_key(configured: &Option<String>, dir_name: &str) -> (k: String)
    ensures
        k@ == match configured {
            Some(c) => c@,
            None => project_key_of(dir_name@),
        },
{
    match configured {
        Some(c) => c.clone(),
        None => crate::cli::sonar::converter::derive_project_key(dir_name),
    }
}

/// The project's dashboard URL.
pub fn dashboard_url(host: &str, project_key: &str) -> (s: String)
    ensures
        s@ == host@ + "/dashboard?id="@ + project_key@,
{
    let a = concat(host, "/dashboard?id=");
    concat(a.as_str(), project_key)
}

/// The API path of the project's quality gate status.
pub fn quality_gate_path(project_key: &str) -> (s: String)
    ensures
        s@ == "/api/qualitygates/project_status?projectKey="@ + project_key@,
{
    concat("/api/qualitygates/project_status?projectKey=", project_key)
}

/// The API path of the project's key metrics.
pub fn metrics_path(project_key: &str) -> (s: String)
    ensures
        s@ == "/api/measures/component?component="@ + project_key@
            + "&metricKeys=bugs,vulnerabilities,code_smells,duplicated_lines_density,coverage"@,
{
    let a = concat("/api/measures/component?component=", project_key);
    concat(
        a.as_str(),
        "&metricKeys=bugs,vulnerabilities,code_smells,duplicated_lines_density,coverage",
    )
}

/// The API path of the project's blocker and critical issues (first 50).
pub fn critical_issues_path(project_key: &str) -> (s: String)
    ensures
        s@ == "/api/issues/search?componentKeys="@ + project_key@
            + "&severities=BLOCKER,CRITICAL&ps=50"@,
{
    let a = concat("/api/issues/search?componentKeys=", project_key);
    concat(a.as_str(), "&severities=BLOCKER,CRITICAL&ps=50")
}

/// The API path that searches for the project.
pub fn projects_search_path(project_key: &str) -> (s: String)
    ensures
        s@ == "/api/projects/search?projects="@ + project_key@,
{
    concat("/api/projects/search?projects=", project_key)
}

/// The content of `sonar-project.properties`.
pub open spec fn properties_text(key: Seq<char>, name: Seq<char>, host: Seq<char>) -> Seq<char> {
    "sonar.projectKey="@ + key + "\nsonar.projectName="@ + name + "\nsonar.host.url="@ + host
        + "\nsonar.sources=.\nsonar.externalIssuesReportPaths=reports/"@ + name
        + "/sonar-issues.json\n"@
}

/// Builds the content of `sonar-project.properties`, which points
/// `sonar-scanner` at the converted issues file.
pub fn sonar_properties(project_key: &str, project_name: &str, host: &str) -> (s: String)
    ensures
        s@ == properties_text(project_key@, project_name@, host@),
{
    let a = concat("sonar.projectKey=", project_key);
    let b = concat(a.as_str(), "\nsonar.projectName=");
    let c = concat(b.as_str(), project_name);
    let d = concat(c.as_str(), "\nsonar.host.url=");
    let e = concat(d.as_str(), host);
    let f = concat(e.as_str(), "\nsonar.sources=.\nsonar.externalIssuesReportPaths=reports/");
    let g = concat(f.as_str(), project_name);
    concat(g.as_str(), "/sonar-issues.json\n")
}

/// How a failed quality gate request is answered.
#[derive(Debug, Clone, Copy, PartialEq, Eq, Structural)]
pub enum GateFailure {
    /// SonarQube is not running: say how to start it, exit 0.
    NotRunning,
    /// The project is not enrolled: suggest `enroll`, exit 0.
    ProjectMissing,
    Other,
}

/// Whether a request error says the server could not be reached.
pub open spec fn unreachable_text(msg: Seq<char>) -> bool {
    has_infix(msg, "connection refused"@) || has_infix(msg, "connect error"@) || has_infix(
        msg,
        "error sending request"@,
    )
}

/// The answer to a failed quality gate request, by its error message.
pub open spec fn gate_failure_of(msg: Seq<char>) -> GateFailure {
    if unreachable_text(msg) {
        GateFailure::NotRunning
    } else if has_infix(msg, "HTTP 404"@) || has_infix(msg, "not found"@) || has_infix(msg, "404"@) {
        GateFailure::ProjectMissing
    } else {
        GateFailure::Other
    }
}

/// Whether a request error says the server could not be reached.
pub fn is_unreachable(msg: &str) -> (b: bool)
    ensures
        b == unreachable_text(msg@),
{
    contains_str(msg, "connection refused") || contains_str(msg, "connect error") || contains_str(
        msg,
        "error sending request",
    )
}

/// Tells a failed quality gate request apart by its error message.
pub fn quality_gate_failure(msg: &str) -> (f: GateFailure)
    ensures
        f == gate_failure_of(msg@),
{
    if is_unreachable(msg) {
        GateFailure::NotRunning
    } else if contains_str(msg, "HTTP 404") || contains_str(msg, "not found") || contains_str(
        msg,
        "404",
    ) {
        GateFailure::ProjectMissing
    } else {
        GateFailure::Other
    }
}

/// Whether a failed metrics or issues request goes without a warning: it
/// does when the server could not be reached at all.
pub fn fetch_failure_is_quiet(msg: &str) -> (b: bool)
    ensures
        b == (has_infix(msg@, "connection refused"@) || has_infix(msg@, "error sending request"@)),
{
    contains_str(msg, "connection refused") || contains_str(msg, "error sending request")
}

/// Whether a failed project check during `enroll` means the server is not
/// running (the check also knows the capitalised "Connection refused").
pub fn enroll_check_unreachable(msg: &str) -> (b: bool)
    ensures
        b == (unreachable_text(msg@) || has_infix(msg@, "Connection refused"@)),
{
    is_unreachable(msg) || contains_str(msg, "Connection refused")
}

/// The metrics of a measures list: metric to value (empty when absent);
/// a metric listed twice keeps its last value.
pub open spec fn metrics_of(ms: Seq<Measure>) -> Map<Seq<char>, Seq<char>>
    decreases ms.len(),
{
    if ms.len() == 0 {
        Map::empty()
    } else {
        metrics_of(ms.drop_last()).insert(ms.last().metric@, or_text(ms.last().value, Seq::empty()))
    }
}

/// The values' characters of a map of strings.
pub open spec fn string_values(m: Map<Seq<char>, String>) -> Map<Seq<char>, Seq<char>> {
    m.map_values(|s: String| s@)
}

/// Collects the measures into a metrics map.
pub fn metrics_map(measures: Vec<Measure>) -> (m: StrMap<String>)
    ensures
        m.wf(),
        string_values(m@) == metrics_of(measures@),
{
    let mut out: StrMap<String> = StrMap::new();
    let n = measures.len();
    proof {
        reveal_strlit("");
    }
    assert(string_values(out@) =~= metrics_of(measures@.take(0)));
    for i in 0..n
        invariant
            n == measures@.len(),
            out.wf(),
            string_values(out@) == metrics_of(measures@.take(i as int)),
    {
        let ms = &measures[i];
        let value = match &ms.value {
            Some(v) => v.clone(),
            None => String::new(),
        };
        proof {
            assert(measures@.take(i + 1).drop_last() =~= measures@.take(i as int));
        }
        let key = ms.metric.clone();
        let ghost before = out@;
        out.insert(key, value);
        proof {
            assert(value@ == or_text(ms.value, Seq::empty()));
            assert(string_values(out@) =~= string_values(before).insert(key@, value@));
        }
    }
    assert(measures@.take(n as int) =~= measures@);
    out
}

/// The token used: the `SONARQUBE_TOKEN` environment variable when set and
/// not empty, else the configured token when not empty, else an error
/// saying how to provide one.
pub open spec fn token_choice(env: Option<Seq<char>>, configured: Option<Seq<char>>) -> Result<
    Seq<char>,
    Seq<char>,
> {
    if env matches Some(t) && t.len() > 0 {
        Ok(env->0)
    } else if configured matches Some(t) && t.len() > 0 {
        Ok(configured->0)
    } else {
        Err(
            "SonarQube token not found. Set the SONARQUBE_TOKEN environment variable or add `token: <your-token>` under `sonarqube:` in .rguard.yaml"@,
        )
    }
}

/// Resolves the SonarQube token from the environment's value and the
/// configured one.
pub fn resolve_token(env_token: Option<String>, configured: &Option<String>) -> (r: Result<
    String,
    String,
>)
    ensures
        match r {
            Ok(t) => token_choice(crate::text::opt_chars(env_token), crate::text::opt_chars(*configured)) == Ok::<Seq<char>, Seq<char>>(t@),
            Err(m) => token_choice(crate::text::opt_chars(env_token), crate::text::opt_chars(*configured)) == Err::<Seq<char>, Seq<char>>(m@),
        },
{
    if let Some(t) = env_token {
        if t.as_str().unicode_len() > 0 {
            return Ok(t);
        }
    }
    if let Some(t) = configured {
        if t.as_str().unicode_len() > 0 {
            return Ok(t.clone());
        }
    }
    Err(
        owned(
            "SonarQube token not found. Set the SONARQUBE_TOKEN environment variable or add `token: <your-token>` under `sonarqube:` in .rguard.yaml",
        ),
    )
}

/// The messages of response errors.
pub open spec fn error_msgs(errors: Seq<SonarError>) -> Seq<Seq<char>> {
    errors.map_values(|e: SonarError| e.msg@)
}

/// The error a SonarQube response body reports even with HTTP 200: its
/// messages joined by `; `, when its errors array is present and not
/// empty.
pub fn response_error(errors: &Option<Vec<SonarError>>) -> (r: Option<String>)
    ensures
        match errors {
            Some(es) if es@.len() > 0 => r matches Some(m) && m@ == "SonarQube error: "@ + joined(
                error_msgs(es@),
                "; "@,
            ),
            _ => r is None,
        },
{
    match errors {
        Some(es) => {
            if es.len() == 0 {
                return None;
            }
            let mut msgs: Vec<String> = Vec::new();
            let n = es.len();
            for i in 0..n
                invariant
                    n == es@.len(),
                    views(msgs@) == error_msgs(es@).take(i as int),
            {
                let m = es[i].msg.clone();
                proof {
                    assert(views(msgs@.push(m)) =~= views(msgs@).push(m@));
                    assert(error_msgs(es@).take(i + 1) =~= error_msgs(es@).take(i as int).push(m@));
                }
                msgs.push(m);
            }
            assert(error_msgs(es@).take(n as int) =~= error_msgs(es@));
            let j = join_strings(msgs.as_slice(), "; ");
            Some(concat("SonarQube error: ", j.as_str()))
        },
        None => None,
    }
}

} // verus!
