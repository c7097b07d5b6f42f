//! Issue domain model: a scanner finding enriched with evidence, fix
//! metadata, verification instructions and a priority score.
pub mod builder;
pub mod evidence;
pub mod extract;
pub mod fix;
pub mod fix_meta;
pub mod priority;
pub mod syntax;
pub mod verification;

use vstd::prelude::*;

use crate::issue::evidence::EvidenceBlock;
use crate::issue::fix_meta::FixMetadata;
use crate::issue::verification::VerificationInfo;

verus! {

/// A fully-enriched finding ready for reporting.
#[derive(Debug, Clone)]
pub struct Issue {
    /// Stable identifier.
    pub id: String,
    /// Rule identifier from the scanner.
    pub rule_id: String,
    /// Normalised severity.
    pub severity: String,
    /// Relative file path.
    pub file_path: String,
    /// 1-based line number (0 = unknown).
    pub line: u32,
    /// Human-readable description.
    pub message: String,
    /// Scanner that produced the finding.
    pub scanner: String,
    /// Pre-embedded code evidence.
    pub evidence: EvidenceBlock,
    /// Fix metadata.
    pub fix: FixMetadata,
    /// Verification instructions.
    pub verification: VerificationInfo,
    /// WSJF priority score (higher = more urgent).
    pub priority_score: i32,
    /// Priority tier derived from the score.
    pub priority_tier: String,
    /// Whether the issue spans multiple files.
    pub cross_file: bool,
}

/// The content of an issue, every string taken as its characters.
pub struct IssueView {
    pub id: Seq<char>,
    pub rule_id: Seq<char>,
    pub severity: Seq<char>,
    pub file_path: Seq<char>,
    pub line: u32,
    pub message: Seq<char>,
    pub scanner: Seq<char>,
    pub evidence: crate::issue::evidence::EvidenceView,
    pub fix: crate::issue::fix_meta::FixView,
    pub rerun_command: Seq<char>,
    pub success_condition: Seq<char>,
    pub priority_score: i32,
    pub priority_tier: Seq<char>,
    pub cross_file: bool,
}

impl View for Issue {
    type V = IssueView;

    open spec fn view(&self) -> IssueView {
        IssueView {
            id: self.id@,
            rule_id: self.rule_id@,
            severity: self.severity@,
            file_path: self.file_path@,
            line: self.line,
            message: self.message@,
            scanner: self.scanner@,
            evidence: self.evidence@,
            fix: self.fix@,
            rerun_command: self.verification.rerun_command@,
            success_condition: self.verification.success_condition@,
            priority_score: self.priority_score,
            priority_tier: self.priority_tier@,
            cross_file: self.cross_file,
        }
    }
}

impl Issue {
    /// A copy with the same content.
    pub fn copy(&self) -> (r: Self)
        ensures
            r@ == self@,
    {
        Issue {
            id: self.id.clone(),
            rule_id: self.rule_id.clone(),
            severity: self.severity.clone(),
            file_path: self.file_path.clone(),
            line: self.line,
            message: self.message.clone(),
            scanner: self.scanner.clone(),
            evidence: self.evidence.copy(),
            fix: self.fix.copy(),
            verification: VerificationInfo {
                rerun_command: self.verification.rerun_command.clone(),
                success_condition: self.verification.success_condition.clone(),
            },
            priority_score: self.priority_score,
            priority_tier: self.priority_tier.clone(),
            cross_file: self.cross_file,
        }
    }
}

/// The contents of a sequence of issues.
pub open spec fn issue_views(s: Seq<Issue>) -> Seq<IssueView> {
    s.map_values(|i: Issue| i@)
}

} // verus!
