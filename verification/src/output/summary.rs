//! `ScanSummary`: aggregated statistics over the issues of a scan.
use vstd::prelude::*;

use crate::issue::fix_meta::FixComplexity;
use crate::issue::Issue;
use crate::strmap::{count_at, StrMap};

verus! {

/// Aggregated statistics over all findings from a scan.
pub struct ScanSummary {
    /// Schema version of the summary document.
    pub schema_version: String,
    /// ISO-8601 timestamp when the scan started.
    pub scanned_at: String,
    /// Path of the scanned project root.
    pub project_path: String,
    /// Total number of issues.
    pub total_issues: usize,
    /// Number of auto-fixable issues.
    pub fixable_count: usize,
    /// Number of issues that need a manual fix.
    pub remaining_count: usize,
    /// Issue counts per severity.
    pub by_severity: StrMap<usize>,
    /// Issue counts per fix complexity (`trivial`, `moderate`, `complex`).
    pub by_complexity: StrMap<usize>,
    /// Names of the scanners that ran.
    pub scanners_run: Vec<String>,
    /// Wall-clock duration of the scan in milliseconds.
    pub scan_duration_ms: u64,
    /// Auto-fixable issues per fix stage (`formatters`, `linters`,
    /// `security`, `ast`, `deps`).
    pub fix_queue_by_category: StrMap<usize>,
}

/// `m` counts the issues of `s` per key: its keys are exactly the keys
/// that some issue has, each mapped to the number of issues with that key.
pub open spec fn tallies(
    m: Map<Seq<char>, usize>,
    s: Seq<Issue>,
    key: spec_fn(Issue) -> Option<Seq<char>>,
) -> bool {
    &&& forall|k: Seq<char>|
        #[trigger] m.contains_key(k) <==> exists|i: int| 0 <= i < s.len() && key(s[i]) == Some(k)
    &&& forall|k: Seq<char>|
        #[trigger] m.contains_key(k) ==> m[k] == with_key(s, key, k).len()
}

/// The issues of `s` whose key is `k`.
pub open spec fn with_key(s: Seq<Issue>, key: spec_fn(Issue) -> Option<Seq<char>>, k: Seq<char>) -> Seq<Issue> {
    s.filter(|x: Issue| key(x) == Some(k))
}

/// One more issue: its key's count goes up by one (a new key starts at 1).
pub proof fn lemma_tally_push(
    m: Map<Seq<char>, usize>,
    s: Seq<Issue>,
    x: Issue,
    key: spec_fn(Issue) -> Option<Seq<char>>,
)
    requires
        tallies(m, s, key),
    ensures
        key(x) matches Some(k) ==> count_at(m, k, 0usize) <= s.len(),
        key(x) matches Some(k) ==> (count_at(m, k, 0usize) + 1 <= usize::MAX ==> tallies(
            m.insert(k, (count_at(m, k, 0usize) + 1) as usize),
            s.push(x),
            key,
        )),
        key(x) is None ==> tallies(m, s.push(x), key),
{
    let t = s.push(x);
    assert forall|k: Seq<char>| true implies #[trigger] with_key(s, key, k).len() <= s.len() by {
        s.lemma_filter_len(|y: Issue| key(y) == Some(k));
    }
    assert forall|k: Seq<char>| true implies #[trigger] with_key(t, key, k) == (if key(x) == Some(k) {
            with_key(s, key, k).push(x)
        } else {
            with_key(s, key, k)
        }) by {
        s.lemma_filter_push(x, |y: Issue| key(y) == Some(k));
    }
    if let Some(k0) = key(x) {
        if !m.contains_key(k0) {
            let pred = |y: Issue| key(y) == Some(k0);
            assert forall|j: int| 0 <= j < s.len() implies !pred(s[j]) by {}
            s.lemma_all_neg_filter_empty(pred);
            assert(with_key(s, key, k0).len() == 0);
        }
        assert(with_key(s, key, k0).len() <= s.len());
        let m2 = m.insert(k0, (count_at(m, k0, 0usize) + 1) as usize);
        if count_at(m, k0, 0usize) + 1 <= usize::MAX {
            assert forall|k: Seq<char>| #[trigger] m2.contains_key(k) <==> exists|i: int|
                0 <= i < t.len() && key(t[i]) == Some(k) by {
                if k == k0 {
                    assert(t[s.len() as int] == x);
                }
                if exists|i: int| 0 <= i < t.len() && key(t[i]) == Some(k) {
                    let i = choose|i: int| 0 <= i < t.len() && key(t[i]) == Some(k);
                    if i < s.len() {
                        assert(t[i] == s[i]);
                    }
                }
                if k != k0 && m.contains_key(k) {
                    let i = choose|i: int| 0 <= i < s.len() && key(s[i]) == Some(k);
                    assert(t[i] == s[i]);
                }
            }
        }
    } else {
        assert forall|k: Seq<char>| #[trigger] m.contains_key(k) <==> exists|i: int|
            0 <= i < t.len() && key(t[i]) == Some(k) by {
            if exists|i: int| 0 <= i < t.len() && key(t[i]) == Some(k) {
                let i = choose|i: int| 0 <= i < t.len() && key(t[i]) == Some(k);
                if i < s.len() {
                    assert(t[i] == s[i]);
                }
            }
            if m.contains_key(k) {
                let i = choose|i: int| 0 <= i < s.len() && key(s[i]) == Some(k);
                assert(t[i] == s[i]);
            }
        }
    }
}

/// The lower-case name of a fix complexity.
pub open spec fn complexity_name(c: FixComplexity) -> Seq<char> {
    match c {
        FixComplexity::Trivial => "trivial"@,
        FixComplexity::Moderate => "moderate"@,
        FixComplexity::Complex => "complex"@,
    }
}

/// The lower-case name of a fix complexity.
pub fn complexity_str(c: FixComplexity) -> (s: &'static str)
    ensures
        s@ == complexity_name(c),
{
    match c {
        FixComplexity::Trivial => "trivial",
        FixComplexity::Moderate => "moderate",
        FixComplexity::Complex => "complex",
    }
}

/// The fix-queue stage of an auto-fix category: `formatter` goes to
/// `formatters`, `linter` to `linters`, `security`, `ast` and `deps` to
/// themselves; other categories are not queued.
pub open spec fn queue_stage(category: Option<Seq<char>>) -> Option<Seq<char>> {
    match category {
        Some(c) => if c == "formatter"@ {
            Some("formatters"@)
        } else if c == "linter"@ {
            Some("linters"@)
        } else if c == "security"@ {
            Some("security"@)
        } else if c == "ast"@ {
            Some("ast"@)
        } else if c == "deps"@ {
            Some("deps"@)
        } else {
            None
        },
        None => None,
    }
}

/// The severity key of an issue.
pub open spec fn severity_key() -> spec_fn(Issue) -> Option<Seq<char>> {
    |x: Issue| Some(x.severity@)
}

/// The complexity key of an issue.
pub open spec fn complexity_key() -> spec_fn(Issue) -> Option<Seq<char>> {
    |x: Issue| Some(complexity_name(x.fix.complexity))
}

/// The fix-queue key of an issue: its stage when it is auto-fixable.
pub open spec fn queue_key() -> spec_fn(Issue) -> Option<Seq<char>> {
    |x: Issue|
        if x.fix.auto_fixable {
            queue_stage(crate::issue::fix_meta::opt_view(x.fix.auto_fix_category))
        } else {
            None
        }
}

/// The auto-fixable issues of `s`.
pub open spec fn fixable(s: Seq<Issue>) -> Seq<Issue> {
    s.filter(|x: Issue| x.fix.auto_fixable)
}

/// The counts of a summary agree with the issues it summarises.
pub open spec fn counts_match(summary: ScanSummary, s: Seq<Issue>) -> bool {
    &&& summary.total_issues == s.len()
    &&& summary.fixable_count == fixable(s).len()
    &&& summary.remaining_count == s.len() - fixable(s).len()
    &&& summary.by_severity.wf()
    &&& summary.by_complexity.wf()
    &&& summary.fix_queue_by_category.wf()
    &&& tallies(summary.by_severity@, s, severity_key())
    &&& tallies(summary.by_complexity@, s, complexity_key())
    &&& tallies(summary.fix_queue_by_category@, s, queue_key())
}

/// Every issue is either fixable or remaining: the two counts of a
/// summary add up to its total.
pub proof fn lemma_fixable_plus_remaining(summary: ScanSummary, s: Seq<Issue>)
    requires
        counts_match(summary, s),
    ensures
        summary.fixable_count + summary.remaining_count == summary.total_issues,
{
    s.lemma_filter_len(|x: Issue| x.fix.auto_fixable);
}

/// The fix queue of a summary: every auto-fixable issue whose category is
/// `formatter`, `linter`, `security`, `ast` or `deps` puts its stage
/// (`formatters`, `linters`, `security`, `ast`, `deps`) in the queue, and
/// the queue holds no other stage.
pub proof fn lemma_fix_queue_stages(summary: ScanSummary, s: Seq<Issue>)
    requires
        counts_match(summary, s),
    ensures
        forall|i: int|
            0 <= i < s.len() && s[i].fix.auto_fixable ==> {
                let q = summary.fix_queue_by_category@;
                let c = crate::issue::fix_meta::opt_view(#[trigger] s[i].fix.auto_fix_category);
                &&& c == Some("formatter"@) ==> q.contains_key("formatters"@)
                &&& c == Some("linter"@) ==> q.contains_key("linters"@)
                &&& c == Some("security"@) ==> q.contains_key("security"@)
                &&& c == Some("ast"@) ==> q.contains_key("ast"@)
                &&& c == Some("deps"@) ==> q.contains_key("deps"@)
            },
        forall|k: Seq<char>|
            #[trigger] summary.fix_queue_by_category@.contains_key(k) ==> k == "formatters"@ || k
                == "linters"@ || k == "security"@ || k == "ast"@ || k == "deps"@,
{
    reveal_strlit("formatter");
    reveal_strlit("linter");
    reveal_strlit("security");
    reveal_strlit("ast");
    reveal_strlit("deps");
    let q = summary.fix_queue_by_category@;
    assert forall|i: int| 0 <= i < s.len() && s[i].fix.auto_fixable implies {
        let c = crate::issue::fix_meta::opt_view(#[trigger] s[i].fix.auto_fix_category);
        &&& c == Some("formatter"@) ==> q.contains_key("formatters"@)
        &&& c == Some("linter"@) ==> q.contains_key("linters"@)
        &&& c == Some("security"@) ==> q.contains_key("security"@)
        &&& c == Some("ast"@) ==> q.contains_key("ast"@)
        &&& c == Some("deps"@) ==> q.contains_key("deps"@)
    } by {
        let c = crate::issue::fix_meta::opt_view(s[i].fix.auto_fix_category);
        if let Some(cv) = c {
            if cv == "linter"@ || cv == "security"@ || cv == "ast"@ || cv == "deps"@ {
                assert(cv != "formatter"@) by {
                    assert("formatter"@.len() == 9);
                }
            }
            if cv == "security"@ || cv == "ast"@ || cv == "deps"@ {
                assert(cv != "linter"@) by {
                    assert("linter"@.len() == 6);
                    assert("linter"@[0] == 'l');
                }
            }
            if cv == "ast"@ || cv == "deps"@ {
                assert(cv != "security"@) by {
                    assert("security"@.len() == 8);
                }
            }
            if cv == "deps"@ {
                assert(cv != "ast"@) by {
                    assert("ast"@.len() == 3);
                }
            }
        }
        let k = queue_key()(s[i]);
        if let Some(kk) = k {
            assert(exists|j: int| 0 <= j < s.len() && queue_key()(s[j]) == Some(kk));
            assert(q.contains_key(kk));
        }
    }
    assert forall|k: Seq<char>| #[trigger] q.contains_key(k) implies k == "formatters"@ || k
        == "linters"@ || k == "security"@ || k == "ast"@ || k == "deps"@ by {
        let j = choose|j: int| 0 <= j < s.len() && queue_key()(s[j]) == Some(k);
    }
}

impl ScanSummary {
    /// Builds a summary of `issues`, stamped with the current time.
    pub fn from_issues(
        issues: &[Issue],
        scanners_run: Vec<String>,
        project_path: &str,
        duration_ms: u64,
    ) -> (summary: Self)
        ensures
            counts_match(summary, issues@),
            summary.schema_version@ == "1.0"@,
            summary.project_path@ == project_path@,
            summary.scanners_run == scanners_run,
            summary.scan_duration_ms == duration_ms,
    {
        let scanned_at = now_rfc3339();
        crate::output::OutputWriter::build_summary(
            issues,
            project_path,
            scanned_at.as_str(),
            scanners_run,
            duration_ms,
        )
    }
}

/// The current UTC time in RFC 3339 form (`chrono::Utc::now().to_rfc3339()`).
/// It depends on the clock, so nothing is stated of it.
#[verifier::external_body]
pub(crate) fn now_rfc3339() -> String {
    chrono::Utc::now().to_rfc3339()
}

} // verus!
