//! Report preparation: priority ordering, path normalisation, the
//! fixable/remaining split and the scan summary.
pub mod files;
pub mod summary;

use vstd::prelude::*;

use crate::issue::fix_meta::opt_view;
use crate::issue::priority::{sort_by_priority_desc, stable_priority_order};
use crate::issue::Issue;
use crate::output::summary::{
    complexity_str, counts_match, fixable, lemma_tally_push, queue_key, queue_stage, tallies,
    complexity_key, severity_key, ScanSummary,
};
use crate::strmap::StrMap;
use crate::text::{owned, str_eq};

verus! {

/// Writes the output files of a completed scan into a directory.
pub struct OutputWriter {
    dir: String,
}

fn stage_key_of(category: &Option<String>) -> (r: Option<&'static str>)
    ensures
        match r {
            Some(s) => queue_stage(opt_view(*category)) == Some(s@),
            None => queue_stage(opt_view(*category)) is None,
        },
{
    match category {
        Some(c) => if str_eq(c.as_str(), "formatter") {
            Some("formatters")
        } else if str_eq(c.as_str(), "linter") {
            Some("linters")
        } else if str_eq(c.as_str(), "security") {
            Some("security")
        } else if str_eq(c.as_str(), "ast") {
            Some("ast")
        } else if str_eq(c.as_str(), "deps") {
            Some("deps")
        } else {
            None
        },
        None => None,
    }
}

impl OutputWriter {
    /// A writer for the (existing) directory `dir`.
    pub fn new(dir: &str) -> (w: Self)
        ensures
            w.dir_spec() == dir@,
    {
        OutputWriter { dir: owned(dir) }
    }

    /// The output directory.
    pub closed spec fn dir_spec(&self) -> Seq<char> {
        self.dir@
    }

    /// The output directory.
    pub fn dir(&self) -> (d: &String)
        ensures
            d@ == self.dir_spec(),
    {
        &self.dir
    }

    /// Builds the summary of `issues`: totals, fixable/remaining counts, and
    /// counts per severity, per fix complexity and per fix-queue stage.
    pub fn build_summary(
        issues: &[Issue],
        project_path: &str,
        scanned_at: &str,
        scanners_run: Vec<String>,
        scan_duration_ms: u64,
    ) -> (summary: ScanSummary)
        ensures
            counts_match(summary, issues@),
            summary.schema_version@ == "1.0"@,
            summary.scanned_at@ == scanned_at@,
            summary.project_path@ == project_path@,
            summary.scanners_run == scanners_run,
            summary.scan_duration_ms == scan_duration_ms,
    {
        let n = issues.len();
        let mut fixable_count: usize = 0;
        let mut by_severity: StrMap<usize> = StrMap::new();
        let mut by_complexity: StrMap<usize> = StrMap::new();
        let mut fix_queue: StrMap<usize> = StrMap::new();
        proof {
            assert(issues@.take(0) =~= Seq::<Issue>::empty());
            assert(by_severity@ =~= Map::<Seq<char>, usize>::empty());
        }
        for i in 0..n
            invariant
                n == issues@.len(),
                fixable_count == fixable(issues@.take(i as int)).len(),
                fixable_count <= i,
                by_severity.wf(),
                by_complexity.wf(),
                fix_queue.wf(),
                tallies(by_severity@, issues@.take(i as int), severity_key()),
                tallies(by_complexity@, issues@.take(i as int), complexity_key()),
                tallies(fix_queue@, issues@.take(i as int), queue_key()),
        {
            let issue = &issues[i];
            let ghost prefix = issues@.take(i as int);
            proof {
                assert(issues@.take(i + 1) =~= prefix.push(*issue));
                lemma_tally_push(by_severity@, prefix, *issue, severity_key());
                lemma_tally_push(by_complexity@, prefix, *issue, complexity_key());
                lemma_tally_push(fix_queue@, prefix, *issue, queue_key());
                prefix.lemma_filter_push(*issue, |x: Issue| x.fix.auto_fixable);
            }
            by_severity.increment(issue.severity.as_str());
            by_complexity.increment(complexity_str(issue.fix.complexity));
            if issue.fix.auto_fixable {
                fixable_count = fixable_count + 1;
                match stage_key_of(&issue.fix.auto_fix_category) {
                    Some(k) => {
                        fix_queue.increment(k);
                    },
                    None => {},
                }
            }
        }
        assert(issues@.take(n as int) =~= issues@);
        ScanSummary {
            schema_version: owned("1.0"),
            scanned_at: owned(scanned_at),
            project_path: owned(project_path),
            total_issues: n,
            fixable_count,
            remaining_count: n - fixable_count,
            by_severity,
            by_complexity,
            scanners_run,
            scan_duration_ms,
            fix_queue_by_category: fix_queue,
        }
    }

    /// Sorts issues by priority score, highest first (stable).
    pub fn sort_by_priority(issues: &mut [Issue])
        ensures
            stable_priority_order(old(issues)@, final(issues)@),
    {
        sort_by_priority_desc(issues);
    }
}

/// Sorts issues by priority score, highest first (stable).
pub fn sort_issues(issues: &mut [Issue])
    ensures
        stable_priority_order(old(issues)@, final(issues)@),
{
    sort_by_priority_desc(issues);
}

} // verus!
