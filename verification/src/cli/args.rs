//! The argument sets of the subcommands, paths held as strings.
use vstd::prelude::*;

verus! {

/// `init`: detect languages, probe tools, generate `.riceguard.yaml`.
#[derive(Debug, Clone)]
pub struct InitArgs {
    /// Path to the project to initialise (default `.`).
    pub path: String,
    /// Non-interactive mode: take every default without prompts.
    pub yes: bool,
    /// Preview the files that would be generated without writing them.
    pub dry_run: bool,
}

/// `scan`: run the enabled scanners and write the reports.
#[derive(Debug, Clone)]
pub struct ScanArgs {
    /// Path to the project to scan (default `.`).
    pub path: String,
    /// Quick scan: jscpd, scc, Semgrep and Trivy only.
    pub quick: bool,
    /// Security scan: Semgrep, Trivy and Gitleaks only.
    pub security: bool,
    /// Report findings in changed files only.
    pub diff_only: bool,
}

/// `fix`: run the deterministic fixers.
#[derive(Debug, Clone)]
pub struct FixArgs {
    /// Path to the project to fix (default `.`).
    pub path: String,
    /// Run formatters only.
    pub formatters: bool,
    /// Run linter auto-fix only.
    pub linters: bool,
    /// Run Semgrep autofix rules only.
    pub security: bool,
    /// Run ast-grep fix rules only.
    pub ast: bool,
    /// Run dependency updates only.
    pub deps: bool,
    /// Preview fixes without applying them.
    pub dry_run: bool,
    /// Include unsafe fixes.
    pub unsafe_fixes: bool,
    /// Fix one issue by its id.
    pub issue: Option<String>,
    /// Fix the issues listed in a JSON file.
    pub issues: Option<String>,
    /// Run import cleanup fixers.
    pub imports: bool,
    /// Include file diffs in the fix report.
    pub diff: bool,
    /// Re-run the checks after all stages.
    pub rescan: bool,
    /// Global pipeline timeout in seconds (default 600).
    pub timeout: u64,
    /// Skip the `--unsafe` confirmation prompt.
    pub yes: bool,
    /// Files to fix instead of the whole project.
    pub files: Vec<String>,
}

/// `status`: issue counts and trends.
#[derive(Debug, Clone)]
pub struct StatusArgs {
    /// Path to the project (default `.`).
    pub path: String,
}

/// `serve`: the REST API server.
#[derive(Debug, Clone)]
pub struct ServeArgs {
    /// Port to listen on (default 8080).
    pub port: u16,
}

/// `enroll`: add the project to SonarQube.
#[derive(Debug, Clone)]
pub struct EnrollArgs {
    /// Path to the project to enroll (default `.`).
    pub path: String,
}

/// `report`: pull the SonarQube report for the project.
#[derive(Debug, Clone)]
pub struct ReportArgs {
    /// Path to the project (default `.`).
    pub path: String,
}

} // verus!
