//! `IssueBuilder`: joins a raw finding with its evidence, fix metadata,
//! verification info and priority into an `Issue`.
use vstd::prelude::*;

use crate::issue::evidence::{
    extract_evidence_block, is_evidence_for, EvidenceBlock,
};
use crate::issue::fix_meta::{is_fix_for, opt_str_view, opt_view, FixMetadata};
use crate::issue::priority::{level_name, level_of, level_str, priority_level, wsjf, wsjf_score};
use crate::issue::verification::{rerun_command_for, VerificationInfo};
use crate::issue::Issue;
use crate::scanner::RawFinding;
use crate::text::{concat, decimal, decimal_string, owned};

verus! {

/// Builds fully-enriched issues from raw findings.
pub struct IssueBuilder;

/// The identifier of a finding: `<scanner>/<rule_id>@<file>:<line>`.
pub open spec fn id_of(f: RawFinding) -> Seq<char> {
    f.scanner@ + "/"@ + f.rule_id@ + "@"@ + f.file_path@ + ":"@ + decimal(f.line as nat)
}

/// The optional replacement of a finding, as characters.
pub open spec fn replacement_of(f: RawFinding) -> Option<Seq<char>> {
    opt_view(f.suggested_replacement)
}

/// The deterministic identifier `<scanner>/<rule_id>@<file>:<line>`, stable
/// across runs so that the same finding can be correlated between scans.
pub fn make_id(f: &RawFinding) -> (id: String)
    ensures
        id@ == id_of(*f),
{
    let a = concat(f.scanner.as_str(), "/");
    let b = concat(a.as_str(), f.rule_id.as_str());
    let c = concat(b.as_str(), "@");
    let d = concat(c.as_str(), f.file_path.as_str());
    let e = concat(d.as_str(), ":");
    let n = decimal_string(f.line as u64);
    concat(e.as_str(), n.as_str())
}

/// `issue` carries the finding's own fields, the given evidence, the
/// finding's fix metadata and verification info, and the WSJF score (with
/// its tier) for the given per-file count, not cross-file.
pub open spec fn issue_of(f: RawFinding, evidence: EvidenceBlock, file_freq: int, issue: Issue) -> bool {
    &&& issue.id@ == id_of(f)
    &&& issue.scanner == f.scanner
    &&& issue.rule_id == f.rule_id
    &&& issue.severity == f.severity
    &&& issue.file_path == f.file_path
    &&& issue.line == f.line
    &&& issue.message == f.message
    &&& issue.evidence == evidence
    &&& is_fix_for(issue.fix, f.scanner@, f.rule_id@, replacement_of(f))
    &&& issue.verification.rerun_command@ == rerun_command_for(f.scanner@, f.rule_id@)
    &&& issue.verification.success_condition@ == "no "@ + f.rule_id@ + " findings reported"@
    &&& !issue.cross_file
    &&& issue.priority_score == wsjf(
        f.severity@,
        issue.fix.auto_fixable,
        opt_view(issue.fix.auto_fix_category),
        file_freq,
        false,
    )
    &&& issue.priority_tier@ == level_name(level_of(issue.priority_score as int))
}

impl IssueBuilder {
    /// Builds an issue from a finding and evidence already extracted for it,
    /// scored with the number of findings in the same file.
    pub fn build_with_evidence(finding: &RawFinding, evidence: EvidenceBlock, file_freq: u32) -> (issue:
        Issue)
        ensures
            issue_of(*finding, evidence, file_freq as int, issue),
    {
        let replacement: Option<&str> = match &finding.suggested_replacement {
            Some(r) => Some(r.as_str()),
            None => None,
        };
        let fix = FixMetadata::from_finding(
            finding.scanner.as_str(),
            finding.rule_id.as_str(),
            replacement,
        );
        let category: Option<&str> = match &fix.auto_fix_category {
            Some(c) => Some(c.as_str()),
            None => None,
        };
        let score = wsjf_score(finding.severity.as_str(), fix.auto_fixable, category, file_freq, false);
        let tier = owned(level_str(priority_level(score)));
        let verification = VerificationInfo::from_scanner(
            finding.scanner.as_str(),
            finding.rule_id.as_str(),
        );
        Issue {
            id: make_id(finding),
            rule_id: finding.rule_id.clone(),
            severity: finding.severity.clone(),
            file_path: finding.file_path.clone(),
            line: finding.line,
            message: finding.message.clone(),
            scanner: finding.scanner.clone(),
            evidence,
            fix,
            verification,
            priority_score: score,
            priority_tier: tier,
            cross_file: false,
        }
    }

    /// Builds an issue from a finding and the source text of its file
    /// (`None` when it could not be read), with line-window evidence and a
    /// per-file count of one.
    pub fn build(finding: &RawFinding, source: Option<&str>) -> (issue: Issue)
        ensures
            issue_of(*finding, issue.evidence, 1, issue),
            is_evidence_for(
                issue.evidence,
                opt_view(finding.matched_code),
                finding.file_path@,
                finding.line,
                opt_str_view(source),
            ),
    {
        let code: Option<&str> = match &finding.matched_code {
            Some(c) => Some(c.as_str()),
            None => None,
        };
        let evidence = extract_evidence_block(code, finding.file_path.as_str(), finding.line, source);
        Self::build_with_evidence(finding, evidence, 1)
    }
}

} // verus!
