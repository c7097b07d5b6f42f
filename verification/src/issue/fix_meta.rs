//! Fix metadata attached to each issue: whether a deterministic fixer
//! applies, with which tool and category, and how much effort a fix takes.
use vstd::prelude::*;

use crate::text::{concat, owned, starts_with, str_eq};

verus! {

/// Effort complexity of applying a fix.
#[derive(Debug, Clone, Copy, PartialEq, Eq, Structural)]
pub enum FixComplexity {
    /// Simple, mechanical fix.
    Trivial,
    /// Moderate effort.
    Moderate,
    /// Complex change.
    Complex,
}

/// Fix information attached to a finding.
#[derive(Debug, Clone)]
pub struct FixMetadata {
    /// Whether a deterministic fixer can apply this fix automatically.
    pub auto_fixable: bool,
    /// Tool/command that applies the fix.
    pub auto_fix_tool: Option<String>,
    /// Category of the fix tool (`"formatter"`, `"linter"`, `"security"`, ...).
    pub auto_fix_category: Option<String>,
    /// Ready-to-apply replacement snippet, when available.
    pub suggested_replacement: Option<String>,
    /// Estimated effort.
    pub complexity: FixComplexity,
}

/// The content of fix metadata.
pub struct FixView {
    pub auto_fixable: bool,
    pub auto_fix_tool: Option<Seq<char>>,
    pub auto_fix_category: Option<Seq<char>>,
    pub suggested_replacement: Option<Seq<char>>,
    pub complexity: FixComplexity,
}

impl View for FixMetadata {
    type V = FixView;

    open spec fn view(&self) -> FixView {
        FixView {
            auto_fixable: self.auto_fixable,
            auto_fix_tool: opt_view(self.auto_fix_tool),
            auto_fix_category: opt_view(self.auto_fix_category),
            suggested_replacement: opt_view(self.suggested_replacement),
            complexity: self.complexity,
        }
    }
}

/// The characters of an optional string.
pub open spec fn opt_view(o: Option<String>) -> Option<Seq<char>> {
    match o {
        Some(s) => Some(s@),
        None => None,
    }
}

/// The characters of an optional string slice.
pub open spec fn opt_str_view(o: Option<&str>) -> Option<Seq<char>> {
    match o {
        Some(s) => Some(s@),
        None => None,
    }
}

/// The command that applies a scanner autofix for `rule_id`.
pub open spec fn semgrep_autofix_command(rule_id: Seq<char>) -> Seq<char> {
    "semgrep --autofix --config="@ + rule_id + " <file>"@
}

/// The rule belongs to clippy: reported by clippy or named `clippy::...`.
pub open spec fn is_clippy_rule(scanner: Seq<char>, rule_id: Seq<char>) -> bool {
    scanner == "clippy"@ || crate::text::has_prefix(rule_id, "clippy::"@)
}

/// `m` is the fix metadata for a finding of `scanner` and `rule_id` with
/// an optional replacement: a replacement makes it a Semgrep security
/// autofix; otherwise a clippy rule is fixed by `cargo clippy --fix`;
/// otherwise the fix is manual with moderate complexity.
pub open spec fn is_fix_for(
    m: FixMetadata,
    scanner: Seq<char>,
    rule_id: Seq<char>,
    replacement: Option<Seq<char>>,
) -> bool {
    match replacement {
        Some(snippet) => {
            &&& m.auto_fixable
            &&& opt_view(m.auto_fix_tool) == Some(semgrep_autofix_command(rule_id))
            &&& opt_view(m.auto_fix_category) == Some("security"@)
            &&& opt_view(m.suggested_replacement) == Some(snippet)
            &&& m.complexity == FixComplexity::Trivial
        },
        None => if is_clippy_rule(scanner, rule_id) {
            &&& m.auto_fixable
            &&& opt_view(m.auto_fix_tool) == Some("cargo clippy --fix --allow-dirty"@)
            &&& opt_view(m.auto_fix_category) == Some("linter"@)
            &&& m.suggested_replacement is None
            &&& m.complexity == FixComplexity::Trivial
        } else {
            &&& !m.auto_fixable
            &&& m.auto_fix_tool is None
            &&& m.auto_fix_category is None
            &&& m.suggested_replacement is None
            &&& m.complexity == FixComplexity::Moderate
        },
    }
}

impl FixMetadata {
    /// A copy with the same content.
    pub fn copy(&self) -> (r: Self)
        ensures
            r@ == self@,
    {
        FixMetadata {
            auto_fixable: self.auto_fixable,
            auto_fix_tool: crate::text::copy_opt(&self.auto_fix_tool),
            auto_fix_category: crate::text::copy_opt(&self.auto_fix_category),
            suggested_replacement: crate::text::copy_opt(&self.suggested_replacement),
            complexity: self.complexity,
        }
    }

    /// Fix metadata for a finding with no known automated fix.
    pub fn manual(complexity: FixComplexity) -> (m: Self)
        ensures
            !m.auto_fixable,
            m.auto_fix_tool is None,
            m.auto_fix_category is None,
            m.suggested_replacement is None,
            m.complexity == complexity,
    {
        FixMetadata {
            auto_fixable: false,
            auto_fix_tool: None,
            auto_fix_category: None,
            suggested_replacement: None,
            complexity,
        }
    }

    /// Fix metadata for a finding with a scanner-provided replacement.
    pub fn scanner_autofix(suggested_replacement: String, tool: String, category: String) -> (m:
        Self)
        ensures
            m.auto_fixable,
            opt_view(m.auto_fix_tool) == Some(tool@),
            opt_view(m.auto_fix_category) == Some(category@),
            opt_view(m.suggested_replacement) == Some(suggested_replacement@),
            m.complexity == FixComplexity::Trivial,
    {
        FixMetadata {
            auto_fixable: true,
            auto_fix_tool: Some(tool),
            auto_fix_category: Some(category),
            suggested_replacement: Some(suggested_replacement),
            complexity: FixComplexity::Trivial,
        }
    }

    /// Fix metadata from the scanner, the rule and an optional replacement:
    /// a replacement makes it a Semgrep security autofix; otherwise a clippy
    /// rule is fixed by `cargo clippy --fix`; otherwise the fix is manual.
    pub fn from_finding(scanner: &str, rule_id: &str, suggested_replacement: Option<&str>) -> (m:
        Self)
        ensures
            is_fix_for(m, scanner@, rule_id@, opt_str_view(suggested_replacement)),
    {
        if let Some(snippet) = suggested_replacement {
            let head = concat("semgrep --autofix --config=", rule_id);
            let tool = concat(head.as_str(), " <file>");
            return Self::scanner_autofix(owned(snippet), tool, owned("security"));
        }
        if str_eq(scanner, "clippy") || starts_with(rule_id, "clippy::") {
            return FixMetadata {
                auto_fixable: true,
                auto_fix_tool: Some(owned("cargo clippy --fix --allow-dirty")),
                auto_fix_category: Some(owned("linter")),
                suggested_replacement: None,
                complexity: FixComplexity::Trivial,
            };
        }
        Self::manual(FixComplexity::Moderate)
    }
}

} // verus!
