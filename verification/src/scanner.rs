//! Raw scanner findings, as produced by the scanner output parsers.
use vstd::prelude::*;

verus! {

/// One finding reported by a scanner, before enrichment into an issue.
#[derive(Debug, Clone)]
pub struct RawFinding {
    /// Scanner that reported the finding (e.g. `"semgrep"`).
    pub scanner: String,
    /// Rule identifier.
    pub rule_id: String,
    /// Normalised severity (`"error"`, `"warning"`, `"info"`, ...).
    pub severity: String,
    /// Path of the file, relative to the project root.
    pub file_path: String,
    /// 1-based line number (0 when unknown).
    pub line: u32,
    /// Human-readable message.
    pub message: String,
    /// Code snippet reported by the scanner, if any.
    pub matched_code: Option<String>,
    /// Replacement suggested by the scanner, if any.
    pub suggested_replacement: Option<String>,
}

/// Which subset of the scanners a scan runs.
#[derive(Debug, Clone, Copy, PartialEq, Eq, Structural)]
pub enum ScanMode {
    /// jscpd, scc, Semgrep and Trivy.
    Quick,
    /// Semgrep, Trivy and Gitleaks.
    Security,
    /// Every enabled scanner.
    Full,
}

} // verus!
