//! The fix report: per-stage tool results and summary counters, built
//! incrementally as the pipeline runs.
use vstd::prelude::*;

use crate::output::summary::now_rfc3339;
use crate::strmap::{keys_sorted, StrMap};
use crate::text::owned;

verus! {

/// Per-tool outcome in a fix stage.
#[derive(Debug, Clone, Copy, PartialEq, Eq, Structural)]
pub enum FixToolStatus {
    /// Fixer ran and at least one file was modified.
    Fixed,
    /// Fixer ran, but the verify step shows the issue persists.
    Attempted,
    /// Tool was skipped.
    Skipped,
    /// Fixer process failed.
    Failed,
    /// Nothing to fix.
    NoIssues,
    /// Dry run: the fixer would have applied changes.
    DryRunWouldFix,
}

/// Result for a single fixer tool within a stage.
#[derive(Debug, Clone)]
pub struct FixToolResult {
    /// Tool name.
    pub name: String,
    /// Target language.
    pub language: String,
    /// Outcome.
    pub status: FixToolStatus,
    /// Files that were modified.
    pub modified_files: Vec<String>,
    /// Duration of the tool invocation in milliseconds.
    pub duration_ms: u64,
    /// Error message, if any.
    pub error_msg: Option<String>,
}

/// Aggregated result for a single stage.
#[derive(Debug, Clone)]
pub struct FixStageResult {
    /// Stage status: `running`, `completed`, `skipped` or `failed`.
    pub status: String,
    /// Results of the tools run in this stage.
    pub tools: Vec<FixToolResult>,
}

/// Summary counts across all stages.
#[derive(Debug, Clone, Copy, PartialEq, Eq, Structural)]
pub struct FixReportSummary {
    pub total_fixed: u32,
    pub total_attempted: u32,
    pub total_skipped: u32,
    pub total_failed: u32,
    pub total_no_issues: u32,
}

impl Default for FixReportSummary {
    fn default() -> (s: Self)
        ensures
            s == (FixReportSummary {
                total_fixed: 0,
                total_attempted: 0,
                total_skipped: 0,
                total_failed: 0,
                total_no_issues: 0,
            }),
    {
        FixReportSummary {
            total_fixed: 0,
            total_attempted: 0,
            total_skipped: 0,
            total_failed: 0,
            total_no_issues: 0,
        }
    }
}

/// The top-level fix report document.
pub struct FixReport {
    /// Report schema version, always `"1.0"`.
    pub schema_version: String,
    /// Project root path.
    pub project: String,
    /// ISO-8601 timestamp when the fix run started.
    pub fixed_at: String,
    /// Whether this was a dry run.
    pub dry_run: bool,
    /// Total duration in milliseconds.
    pub duration_ms: u64,
    /// Summary counts across all stages.
    pub summary: FixReportSummary,
    /// Per-stage results keyed by stage name.
    pub stages: StrMap<FixStageResult>,
}

/// The counter that a tool outcome counts towards (dry-run outcomes count
/// as "no issues").
pub open spec fn counter_of(s: FixReportSummary, st: FixToolStatus) -> u32 {
    match st {
        FixToolStatus::Fixed => s.total_fixed,
        FixToolStatus::Attempted => s.total_attempted,
        FixToolStatus::Skipped => s.total_skipped,
        FixToolStatus::Failed => s.total_failed,
        FixToolStatus::NoIssues | FixToolStatus::DryRunWouldFix => s.total_no_issues,
    }
}

/// The summary with the counter for `st` raised by one.
pub open spec fn bumped(s: FixReportSummary, st: FixToolStatus) -> FixReportSummary {
    match st {
        FixToolStatus::Fixed => FixReportSummary { total_fixed: (s.total_fixed + 1) as u32, ..s },
        FixToolStatus::Attempted => FixReportSummary {
            total_attempted: (s.total_attempted + 1) as u32,
            ..s
        },
        FixToolStatus::Skipped => FixReportSummary { total_skipped: (s.total_skipped + 1) as u32, ..s },
        FixToolStatus::Failed => FixReportSummary { total_failed: (s.total_failed + 1) as u32, ..s },
        FixToolStatus::NoIssues | FixToolStatus::DryRunWouldFix => FixReportSummary {
            total_no_issues: (s.total_no_issues + 1) as u32,
            ..s
        },
    }
}

/// The sum of all five counters.
pub open spec fn summary_total(s: FixReportSummary) -> int {
    s.total_fixed + s.total_attempted + s.total_skipped + s.total_failed + s.total_no_issues
}

/// Recording a tool result raises the counters' total by exactly one,
/// leaving every counter but its own unchanged.
pub proof fn lemma_record_counts_once(s: FixReportSummary, st: FixToolStatus)
    requires
        counter_of(s, st) < u32::MAX,
    ensures
        summary_total(bumped(s, st)) == summary_total(s) + 1,
        counter_of(bumped(s, st), st) == counter_of(s, st) + 1,
{
}

/// Recording a tool outcome raises exactly the counter named after it:
/// `Fixed` the fixed count, `Attempted` the attempted count, `Skipped` the
/// skipped count, `Failed` the failed count, `NoIssues` and
/// `DryRunWouldFix` the no-issues count; every other count stays.
pub proof fn lemma_record_raises_named_counter(s: FixReportSummary, st: FixToolStatus)
    requires
        match st {
            FixToolStatus::Fixed => s.total_fixed < u32::MAX,
            FixToolStatus::Attempted => s.total_attempted < u32::MAX,
            FixToolStatus::Skipped => s.total_skipped < u32::MAX,
            FixToolStatus::Failed => s.total_failed < u32::MAX,
            FixToolStatus::NoIssues | FixToolStatus::DryRunWouldFix => s.total_no_issues < u32::MAX,
        },
    ensures
        bumped(s, st).total_fixed == s.total_fixed + (if st is Fixed {
            1int
        } else {
            0int
        }),
        bumped(s, st).total_attempted == s.total_attempted + (if st is Attempted {
            1int
        } else {
            0int
        }),
        bumped(s, st).total_skipped == s.total_skipped + (if st is Skipped {
            1int
        } else {
            0int
        }),
        bumped(s, st).total_failed == s.total_failed + (if st is Failed {
            1int
        } else {
            0int
        }),
        bumped(s, st).total_no_issues == s.total_no_issues + (if st is NoIssues || st is DryRunWouldFix {
            1int
        } else {
            0int
        }),
{
}

/// The report fields other than stages and summary are unchanged.
pub open spec fn same_header(a: FixReport, b: FixReport) -> bool {
    &&& a.schema_version == b.schema_version
    &&& a.project == b.project
    &&& a.fixed_at == b.fixed_at
    &&& a.dry_run == b.dry_run
    &&& a.duration_ms == b.duration_ms
}

impl FixReport {
    /// A new empty report for `project`, stamped with the current time.
    pub fn new(project: String, dry_run: bool) -> (r: Self)
        ensures
            r.schema_version@ == "1.0"@,
            r.project == project,
            r.dry_run == dry_run,
            r.duration_ms == 0,
            r.summary == (FixReportSummary {
                total_fixed: 0,
                total_attempted: 0,
                total_skipped: 0,
                total_failed: 0,
                total_no_issues: 0,
            }),
            r.stages.wf(),
            r.stages@ == Map::<Seq<char>, FixStageResult>::empty(),
    {
        FixReport {
            schema_version: owned("1.0"),
            project,
            fixed_at: now_rfc3339(),
            dry_run,
            duration_ms: 0,
            summary: FixReportSummary::default(),
            stages: StrMap::new(),
        }
    }

    /// Records a tool result under `stage` (creating the stage as `running`
    /// when absent) and counts it in the summary.
    pub fn record_tool(&mut self, stage: &str, tool_result: FixToolResult)
        requires
            old(self).stages.wf(),
            counter_of(old(self).summary, tool_result.status) < u32::MAX,
        ensures
            final(self).stages.wf(),
            same_header(*final(self), *old(self)),
            final(self).summary == bumped(old(self).summary, tool_result.status),
            final(self).stages@.contains_key(stage@),
            final(self).stages@[stage@].tools@ == (if old(self).stages@.contains_key(stage@) {
                old(self).stages@[stage@].tools@
            } else {
                Seq::empty()
            }).push(tool_result),
            final(self).stages@[stage@].status@ == (if old(self).stages@.contains_key(stage@) {
                old(self).stages@[stage@].status@
            } else {
                "running"@
            }),
            final(self).stages@.remove(stage@) == old(self).stages@.remove(stage@),
            keys_sorted(final(self).stages.entry_seq()),
    {
        let ghost old_stages = self.stages@;
        let status = tool_result.status;
        let mut entry = match self.stages.remove(stage) {
            Some(e) => e,
            None => FixStageResult { status: owned("running"), tools: Vec::new() },
        };
        match status {
            FixToolStatus::Fixed => self.summary.total_fixed = self.summary.total_fixed + 1,
            FixToolStatus::Attempted => self.summary.total_attempted = self.summary.total_attempted + 1,
            FixToolStatus::Skipped => self.summary.total_skipped = self.summary.total_skipped + 1,
            FixToolStatus::Failed => self.summary.total_failed = self.summary.total_failed + 1,
            FixToolStatus::NoIssues | FixToolStatus::DryRunWouldFix => {
                self.summary.total_no_issues = self.summary.total_no_issues + 1
            },
        }
        entry.tools.push(tool_result);
        self.stages.insert(owned(stage), entry);
        assert(self.stages@.remove(stage@) =~= old_stages.remove(stage@));
        proof {
            self.stages.lemma_entries();
        }
    }

    /// Records `stage` as skipped, with no tools.
    pub fn record_skipped(&mut self, stage: &str)
        requires
            old(self).stages.wf(),
        ensures
            final(self).stages.wf(),
            same_header(*final(self), *old(self)),
            final(self).summary == old(self).summary,
            final(self).stages@.contains_key(stage@),
            final(self).stages@[stage@].status@ == "skipped"@,
            final(self).stages@[stage@].tools@.len() == 0,
            final(self).stages@.remove(stage@) == old(self).stages@.remove(stage@),
    {
        let ghost old_stages = self.stages@;
        self.stages.insert(owned(stage), FixStageResult { status: owned("skipped"), tools: Vec::new() });
        assert(self.stages@.remove(stage@) =~= old_stages.remove(stage@));
    }

    /// Records `stage` as failed, with no tools.
    pub fn record_failed(&mut self, stage: &str)
        requires
            old(self).stages.wf(),
        ensures
            final(self).stages.wf(),
            same_header(*final(self), *old(self)),
            final(self).summary == old(self).summary,
            final(self).stages@.contains_key(stage@),
            final(self).stages@[stage@].status@ == "failed"@,
            final(self).stages@[stage@].tools@.len() == 0,
            final(self).stages@.remove(stage@) == old(self).stages@.remove(stage@),
    {
        let ghost old_stages = self.stages@;
        self.stages.insert(owned(stage), FixStageResult { status: owned("failed"), tools: Vec::new() });
        assert(self.stages@.remove(stage@) =~= old_stages.remove(stage@));
    }

    /// Marks `stage` as completed when it has been recorded; otherwise
    /// nothing changes.
    pub fn finish_stage(&mut self, stage: &str)
        requires
            old(self).stages.wf(),
        ensures
            final(self).stages.wf(),
            same_header(*final(self), *old(self)),
            final(self).summary == old(self).summary,
            final(self).stages@.dom() == old(self).stages@.dom(),
            old(self).stages@.contains_key(stage@) ==> final(self).stages@[stage@].status@
                == "completed"@ && final(self).stages@[stage@].tools@ == old(
                self,
            ).stages@[stage@].tools@,
            final(self).stages@.remove(stage@) == old(self).stages@.remove(stage@),
    {
        let ghost old_stages = self.stages@;
        match self.stages.remove(stage) {
            Some(mut entry) => {
                entry.status = owned("completed");
                self.stages.insert(owned(stage), entry);
                assert(self.stages@.dom() =~= old_stages.dom());
            },
            None => {
                assert(self.stages@ =~= old_stages);
            },
        }
        assert(self.stages@.remove(stage@) =~= old_stages.remove(stage@));
    }
}

/// The stages of a report are listed in key order, one entry per stage,
/// as the sorted map of a serialised report lists them.
pub proof fn lemma_stages_in_key_order(r: FixReport)
    requires
        r.stages.wf(),
    ensures
        keys_sorted(r.stages.entry_seq()),
        r.stages.entry_seq().len() == r.stages@.dom().len(),
        forall|i: int|
            0 <= i < r.stages.entry_seq().len() ==> r.stages@.contains_key(
                #[trigger] r.stages.entry_seq()[i].0@,
            ),
{
    r.stages.lemma_entries();
}

} // verus!
