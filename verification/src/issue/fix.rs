//! Fix classification by category and tool, as routed to fixers.
use vstd::prelude::*;

use crate::issue::fix_meta::{is_clippy_rule, opt_view, semgrep_autofix_command};
use crate::text::{concat, owned, starts_with, str_eq};

verus! {

/// Classification of the available fix for a finding.
#[derive(Debug, Clone, Copy, PartialEq, Eq, Structural)]
pub enum FixCategory {
    /// No automated fix is known; manual review required.
    Manual,
    /// The scanner emitted a one-shot replacement snippet.
    ScannerAutofix,
    /// A formatter/linter can fix this with a single command.
    FormatterApplicable,
    /// A package-manager auto-apply works.
    PackageManagerFix,
}

/// The tool or command that can apply the fix.
#[derive(Debug, Clone, Copy, PartialEq, Eq, Structural)]
pub enum AutoFixTool {
    Semgrep,
    RustFmt,
    Clippy,
    Eslint,
    Prettier,
    CargoFix,
    NpmAuditFix,
    NoTool,
}

/// Fix information attached to a finding.
#[derive(Debug, Clone)]
pub struct FixMetadata {
    /// High-level categorisation of the available fix.
    pub category: FixCategory,
    /// Tool that can apply the fix automatically.
    pub tool: AutoFixTool,
    /// Ready-to-apply replacement snippet, when available.
    pub snippet: Option<String>,
    /// Shell command that applies the fix, when applicable.
    pub command: Option<String>,
}

impl FixMetadata {
    /// A replacement makes it a Semgrep autofix; a clippy rule is
    /// formatter-applicable via clippy; anything else is manual.
    pub fn from_finding(scanner: &str, rule_id: &str, suggested_replacement: Option<&str>) -> (m:
        Self)
        ensures
            match suggested_replacement {
                Some(snippet) => {
                    &&& m.category == FixCategory::ScannerAutofix
                    &&& m.tool == AutoFixTool::Semgrep
                    &&& opt_view(m.snippet) == Some(snippet@)
                    &&& opt_view(m.command) == Some(semgrep_autofix_command(rule_id@))
                },
                None => if is_clippy_rule(scanner@, rule_id@) {
                    &&& m.category == FixCategory::FormatterApplicable
                    &&& m.tool == AutoFixTool::Clippy
                    &&& m.snippet is None
                    &&& opt_view(m.command) == Some("cargo clippy --fix --allow-dirty"@)
                } else {
                    &&& m.category == FixCategory::Manual
                    &&& m.tool == AutoFixTool::NoTool
                    &&& m.snippet is None
                    &&& m.command is None
                },
            },
    {
        if let Some(snippet) = suggested_replacement {
            let head = concat("semgrep --autofix --config=", rule_id);
            return FixMetadata {
                category: FixCategory::ScannerAutofix,
                tool: AutoFixTool::Semgrep,
                snippet: Some(owned(snippet)),
                command: Some(concat(head.as_str(), " <file>")),
            };
        }
        if str_eq(scanner, "clippy") || starts_with(rule_id, "clippy::") {
            return FixMetadata {
                category: FixCategory::FormatterApplicable,
                tool: AutoFixTool::Clippy,
                snippet: None,
                command: Some(owned("cargo clippy --fix --allow-dirty")),
            };
        }
        FixMetadata { category: FixCategory::Manual, tool: AutoFixTool::NoTool, snippet: None, command: None }
    }
}

} // verus!
