//! WSJF-based priority scoring, priority tiers, per-file finding counts and
//! the stable priority order of issues.
//!
//! `priority_score = severity(40) + auto_fixable(20) + category(20)
//!                 + file_freq(10) - cross_file(10)`
use vstd::prelude::*;

use crate::issue::Issue;
use crate::scanner::RawFinding;
use crate::strmap::{count_at, StrMap};
use crate::text::str_eq;

verus! {

/// Priority level derived from WSJF scoring.
#[derive(Debug, Clone, Copy, PartialEq, Eq, Structural, PartialOrd, Ord)]
pub enum PriorityLevel {
    Low,
    Medium,
    High,
    Critical,
}

/// Severity component: `error`/`high`/`critical` 40, `warning`/`medium` 20,
/// `info`/`note` 5, anything else 0.
pub open spec fn severity_points(severity: Seq<char>) -> int {
    if severity == "error"@ || severity == "high"@ || severity == "critical"@ {
        40
    } else if severity == "warning"@ || severity == "medium"@ {
        20
    } else if severity == "info"@ || severity == "note"@ {
        5
    } else {
        0
    }
}

/// Category component: `formatter`/`import` 20, `linter`/`security` 15,
/// any other category 10, no category 0.
pub open spec fn category_points(category: Option<Seq<char>>) -> int {
    match category {
        Some(c) => if c == "formatter"@ || c == "import"@ {
            20
        } else if c == "linter"@ || c == "security"@ {
            15
        } else {
            10
        },
        None => 0,
    }
}

/// The WSJF score.
pub open spec fn wsjf(
    severity: Seq<char>,
    auto_fixable: bool,
    category: Option<Seq<char>>,
    file_freq: int,
    cross_file: bool,
) -> int {
    severity_points(severity) + (if auto_fixable {
        20int
    } else {
        0int
    }) + category_points(category) + (if file_freq < 10 {
        file_freq
    } else {
        10int
    }) - (if cross_file {
        10int
    } else {
        0int
    })
}

/// The characters of an optional category.
pub open spec fn category_view(c: Option<&str>) -> Option<Seq<char>> {
    match c {
        Some(s) => Some(s@),
        None => None,
    }
}

/// Computes the WSJF priority score of a finding.
pub fn wsjf_score(
    severity: &str,
    auto_fixable: bool,
    auto_fix_category: Option<&str>,
    file_freq: u32,
    cross_file: bool,
) -> (score: i32)
    ensures
        score == wsjf(severity@, auto_fixable, category_view(auto_fix_category), file_freq as int, cross_file),
{
    let severity_score: i32 = if str_eq(severity, "error") || str_eq(severity, "high") || str_eq(
        severity,
        "critical",
    ) {
        40
    } else if str_eq(severity, "warning") || str_eq(severity, "medium") {
        20
    } else if str_eq(severity, "info") || str_eq(severity, "note") {
        5
    } else {
        0
    };
    let auto_fix_score: i32 = if auto_fixable {
        20
    } else {
        0
    };
    let category_score: i32 = match auto_fix_category {
        Some(c) => if str_eq(c, "formatter") || str_eq(c, "import") {
            20
        } else if str_eq(c, "linter") || str_eq(c, "security") {
            15
        } else {
            10
        },
        None => 0,
    };
    let freq_score: i32 = if file_freq < 10 {
        file_freq as i32
    } else {
        10
    };
    let cross_file_penalty: i32 = if cross_file {
        10
    } else {
        0
    };
    severity_score + auto_fix_score + category_score + freq_score - cross_file_penalty
}

/// Scores lie between -10 and 90, whatever the inputs.
pub proof fn lemma_wsjf_bounds(
    severity: Seq<char>,
    auto_fixable: bool,
    category: Option<Seq<char>>,
    file_freq: int,
    cross_file: bool,
)
    requires
        file_freq >= 0,
    ensures
        -10 <= wsjf(severity, auto_fixable, category, file_freq, cross_file) <= 90,
{
}

/// The file-frequency component is capped: any count of at least 10 scores
/// the same as 10.
pub proof fn lemma_wsjf_freq_capped(
    severity: Seq<char>,
    auto_fixable: bool,
    category: Option<Seq<char>>,
    file_freq: int,
    cross_file: bool,
)
    requires
        file_freq >= 10,
    ensures
        wsjf(severity, auto_fixable, category, file_freq, cross_file) == wsjf(
            severity,
            auto_fixable,
            category,
            10,
            cross_file,
        ),
{
}

/// A cross-file issue scores exactly 10 less than the same issue confined
/// to one file, and an auto-fixable one exactly 20 more than a manual one.
pub proof fn lemma_wsjf_penalty_and_bonus(
    severity: Seq<char>,
    auto_fixable: bool,
    category: Option<Seq<char>>,
    file_freq: int,
    cross_file: bool,
)
    ensures
        wsjf(severity, auto_fixable, category, file_freq, true) == wsjf(
            severity,
            auto_fixable,
            category,
            file_freq,
            false,
        ) - 10,
        wsjf(severity, true, category, file_freq, cross_file) == wsjf(
            severity,
            false,
            category,
            file_freq,
            cross_file,
        ) + 20,
{
}

/// The severity tiers of the score: on an issue that is otherwise worth
/// nothing (manual, no category, in no other file's count, in one file),
/// `error`, `high` and `critical` score 40, `warning` and `medium` 20,
/// `info` and `note` 5.
pub proof fn lemma_wsjf_severity_tiers(severity: Seq<char>)
    ensures
        severity == "error"@ || severity == "high"@ || severity == "critical"@ ==> wsjf(
            severity,
            false,
            None,
            0,
            false,
        ) == 40,
        severity == "warning"@ || severity == "medium"@ ==> wsjf(severity, false, None, 0, false) == 20,
        severity == "info"@ || severity == "note"@ ==> wsjf(severity, false, None, 0, false) == 5,
{
    reveal_strlit("error");
    reveal_strlit("high");
    reveal_strlit("critical");
    reveal_strlit("warning");
    reveal_strlit("medium");
    reveal_strlit("info");
    reveal_strlit("note");
    if severity == "warning"@ || severity == "medium"@ {
        assert(severity.len() == 7 || severity.len() == 6);
        assert(severity != "error"@ && severity != "high"@ && severity != "critical"@);
    }
    if severity == "info"@ || severity == "note"@ {
        assert(severity.len() == 4);
        assert(severity[0] == 'i' || severity[0] == 'n');
        assert("high"@[0] == 'h');
        assert(severity != "error"@ && severity != "high"@ && severity != "critical"@);
        assert(severity != "warning"@ && severity != "medium"@);
    }
}

/// The severity adds its own points, independent of the other inputs: two
/// issues that differ only in severity differ in score by what the two
/// severities score on their own.
pub proof fn lemma_wsjf_severity_separates(
    s: Seq<char>,
    t: Seq<char>,
    auto_fixable: bool,
    category: Option<Seq<char>>,
    file_freq: int,
    cross_file: bool,
)
    ensures
        wsjf(s, auto_fixable, category, file_freq, cross_file) - wsjf(t, auto_fixable, category, file_freq, cross_file)
            == wsjf(s, false, None, 0, false) - wsjf(t, false, None, 0, false),
{
}

/// The category tiers of the score: on an otherwise identical issue, a
/// `formatter` or `import` fix adds 20, `linter` or `security` 15, any
/// other category 10, and no category nothing.
pub proof fn lemma_wsjf_category_tiers(
    severity: Seq<char>,
    auto_fixable: bool,
    c: Seq<char>,
    file_freq: int,
    cross_file: bool,
)
    ensures
        ({
            let base = wsjf(severity, auto_fixable, None, file_freq, cross_file);
            let with = wsjf(severity, auto_fixable, Some(c), file_freq, cross_file);
            &&& c == "formatter"@ || c == "import"@ ==> with == base + 20
            &&& c == "linter"@ || c == "security"@ ==> with == base + 15
            &&& c != "formatter"@ && c != "import"@ && c != "linter"@ && c != "security"@ ==> with
                == base + 10
        }),
{
    reveal_strlit("formatter");
    reveal_strlit("import");
    reveal_strlit("linter");
    reveal_strlit("security");
    if c == "linter"@ || c == "security"@ {
        assert(c.len() == 6 || c.len() == 8);
        assert(c[0] == 'l' || c[0] == 's');
        assert("formatter"@.len() == 9 && "import"@[0] == 'i');
        assert(c != "formatter"@ && c != "import"@);
    }
}

/// The tier of a score: at least 70 Critical, 40 High, 20 Medium, else Low.
pub open spec fn level_of(score: int) -> PriorityLevel {
    if score >= 70 {
        PriorityLevel::Critical
    } else if score >= 40 {
        PriorityLevel::High
    } else if score >= 20 {
        PriorityLevel::Medium
    } else {
        PriorityLevel::Low
    }
}

/// The rank of a level, Low lowest.
pub open spec fn level_rank(l: PriorityLevel) -> int {
    match l {
        PriorityLevel::Low => 0,
        PriorityLevel::Medium => 1,
        PriorityLevel::High => 2,
        PriorityLevel::Critical => 3,
    }
}

/// Maps a WSJF score to its priority level.
pub fn priority_level(score: i32) -> (l: PriorityLevel)
    ensures
        l == level_of(score as int),
{
    if score >= 70 {
        PriorityLevel::Critical
    } else if score >= 40 {
        PriorityLevel::High
    } else if score >= 20 {
        PriorityLevel::Medium
    } else {
        PriorityLevel::Low
    }
}

/// A higher score never gets a lower tier.
pub proof fn lemma_level_monotone(a: int, b: int)
    requires
        a <= b,
    ensures
        level_rank(level_of(a)) <= level_rank(level_of(b)),
{
}

/// The tier thresholds: a score is Critical from 70, High from 40 up to
/// 69, Medium from 20 up to 39, and Low below 20.
pub proof fn lemma_level_thresholds(score: int)
    ensures
        level_of(score) == PriorityLevel::Critical <==> score >= 70,
        level_of(score) == PriorityLevel::High <==> 40 <= score < 70,
        level_of(score) == PriorityLevel::Medium <==> 20 <= score < 40,
        level_of(score) == PriorityLevel::Low <==> score < 20,
{
}

/// The lower-case name of a priority level.
pub open spec fn level_name(l: PriorityLevel) -> Seq<char> {
    match l {
        PriorityLevel::Low => "low"@,
        PriorityLevel::Medium => "medium"@,
        PriorityLevel::High => "high"@,
        PriorityLevel::Critical => "critical"@,
    }
}

/// The lower-case name of a priority level (its serialised form).
pub fn level_str(l: PriorityLevel) -> (s: &'static str)
    ensures
        s@ == level_name(l),
{
    match l {
        PriorityLevel::Low => "low",
        PriorityLevel::Medium => "medium",
        PriorityLevel::High => "high",
        PriorityLevel::Critical => "critical",
    }
}

/// The findings in `s` that are in file `path`.
pub open spec fn findings_in(s: Seq<RawFinding>, path: Seq<char>) -> Seq<RawFinding> {
    s.filter(|f: RawFinding| f.file_path@ == path)
}

/// Counts the findings per file path.
pub fn file_freq_map(findings: &[RawFinding]) -> (m: StrMap<u32>)
    requires
        findings@.len() < u32::MAX,
    ensures
        m.wf(),
        forall|p: Seq<char>|
            #[trigger] m@.contains_key(p) <==> exists|i: int|
                0 <= i < findings@.len() && findings@[i].file_path@ == p,
        forall|p: Seq<char>|
            #[trigger] m@.contains_key(p) ==> m@[p] == findings_in(findings@, p).len(),
{
    let mut m: StrMap<u32> = StrMap::new();
    let n = findings.len();
    for i in 0..n
        invariant
            n == findings@.len(),
            n < u32::MAX,
            m.wf(),
            forall|p: Seq<char>|
                #[trigger] m@.contains_key(p) <==> exists|j: int|
                    0 <= j < i && findings@[j].file_path@ == p,
            forall|p: Seq<char>|
                #[trigger] m@.contains_key(p) ==> m@[p] == findings_in(findings@.take(i as int), p).len(),
    {
        let ghost prefix = findings@.take(i as int);
        let ghost key = findings@[i as int].file_path@;
        proof {
            assert(findings@.take(i + 1) =~= prefix.push(findings@[i as int]));
            assert forall|p: Seq<char>| true implies findings_in(prefix, p).len() <= i by {
                prefix.lemma_filter_len(|f: RawFinding| f.file_path@ == p);
            }
            if m@.contains_key(key) {
                assert(findings_in(prefix, key).len() <= i);
            }
        }
        let ghost old_m = m@;
        proof {
            if !old_m.contains_key(key) {
                let pred = |f: RawFinding| f.file_path@ == key;
                assert forall|j: int| 0 <= j < prefix.len() implies !pred(prefix[j]) by {
                    assert(prefix[j] == findings@[j]);
                }
                prefix.lemma_all_neg_filter_empty(pred);
            }
        }
        m.increment_u32(findings[i].file_path.as_str());
        proof {
            assert forall|p: Seq<char>| #[trigger] m@.contains_key(p) implies m@[p]
                == findings_in(findings@.take(i + 1), p).len() by {
                let pred = |f: RawFinding| f.file_path@ == p;
                prefix.lemma_filter_push(findings@[i as int], pred);
                assert(findings_in(findings@.take(i + 1), p) == prefix.push(findings@[i as int]).filter(pred));
                assert(findings_in(prefix, p) == prefix.filter(pred));
                if p == key {
                    if !old_m.contains_key(key) {
                        assert forall|j: int| 0 <= j < prefix.len() implies !pred(prefix[j]) by {
                            assert(prefix[j] == findings@[j]);
                        }
                        prefix.lemma_all_neg_filter_empty(pred);
                    }
                    assert(findings_in(findings@.take(i + 1), p).len() == findings_in(prefix, p).len() + 1);
                } else {
                    assert(old_m.contains_key(p));
                    assert(findings_in(findings@.take(i + 1), p).len() == findings_in(prefix, p).len());
                }
            }
            assert forall|p: Seq<char>|
                #[trigger] m@.contains_key(p) <==> exists|j: int|
                    0 <= j < i + 1 && findings@[j].file_path@ == p by {
                if p == key {
                    assert(findings@[i as int].file_path@ == p);
                }
            }
        }
    }
    assert(findings@.take(n as int) =~= findings@);
    m
}

/// Scores never increase along the sequence.
pub open spec fn sorted_by_priority(s: Seq<Issue>) -> bool {
    forall|i: int, j: int|
        0 <= i < j < s.len() ==> #[trigger] s[i].priority_score >= #[trigger] s[j].priority_score
}

/// The issues with score `k`, in their order.
pub open spec fn with_score(s: Seq<Issue>, k: i32) -> Seq<Issue> {
    s.filter(|x: Issue| x.priority_score == k)
}

/// `t` is `s` stably sorted by descending score: sorted, the same issues,
/// and the issues of each score in their original order.
pub open spec fn stable_priority_order(s: Seq<Issue>, t: Seq<Issue>) -> bool {
    &&& sorted_by_priority(t)
    &&& t.to_multiset() == s.to_multiset()
    &&& forall|k: i32| #[trigger] with_score(t, k) == with_score(s, k)
}

/// No issue of score `k`: none are kept for it.
proof fn lemma_absent_score(t: Seq<Issue>, k: i32)
    requires
        forall|i: int| 0 <= i < t.len() ==> #[trigger] t[i].priority_score != k,
    ensures
        with_score(t, k).len() == 0,
    decreases t.len(),
{
    reveal(Seq::filter);
    if t.len() > 0 {
        lemma_absent_score(t.drop_last(), k);
    }
}

/// Two sorted sequences with the same issues of every score are equal.
proof fn lemma_sorted_classes_determine(t1: Seq<Issue>, t2: Seq<Issue>)
    requires
        sorted_by_priority(t1),
        sorted_by_priority(t2),
        forall|k: i32| #[trigger] with_score(t1, k) == with_score(t2, k),
    ensures
        t1 == t2,
    decreases t1.len(),
{
    if t1.len() == 0 || t2.len() == 0 {
        if t1.len() > 0 {
            let k = t1[0].priority_score;
            assert(t1 =~= seq![t1[0]] + t1.drop_first());
            t1.drop_first().lemma_filter_prepend(t1[0], |x: Issue| x.priority_score == k);
            lemma_absent_score(t2, k);
            assert(with_score(t1, k).len() > 0);
            assert(with_score(t1, k) == with_score(t2, k));
        } else if t2.len() > 0 {
            let k = t2[0].priority_score;
            assert(t2 =~= seq![t2[0]] + t2.drop_first());
            t2.drop_first().lemma_filter_prepend(t2[0], |x: Issue| x.priority_score == k);
            lemma_absent_score(t1, k);
            assert(with_score(t2, k).len() > 0);
            assert(with_score(t1, k) == with_score(t2, k));
        }
        assert(t1 =~= t2);
    } else {
        let a = t1[0];
        let b = t2[0];
        let r1 = t1.drop_first();
        let r2 = t2.drop_first();
        assert(t1 =~= seq![a] + r1);
        assert(t2 =~= seq![b] + r2);
        let ka = a.priority_score;
        let kb = b.priority_score;
        r1.lemma_filter_prepend(a, |x: Issue| x.priority_score == ka);
        r2.lemma_filter_prepend(b, |x: Issue| x.priority_score == kb);
        if ka > kb {
            assert forall|i: int| 0 <= i < t2.len() implies #[trigger] t2[i].priority_score != ka by {
                if i > 0 {
                    assert(t2[0].priority_score >= t2[i].priority_score);
                }
            }
            lemma_absent_score(t2, ka);
            assert(with_score(t1, ka) == with_score(t2, ka));
            assert(false);
        }
        if kb > ka {
            assert forall|i: int| 0 <= i < t1.len() implies #[trigger] t1[i].priority_score != kb by {
                if i > 0 {
                    assert(t1[0].priority_score >= t1[i].priority_score);
                }
            }
            lemma_absent_score(t1, kb);
            assert(with_score(t1, kb) == with_score(t2, kb));
            assert(false);
        }
        assert(ka == kb);
        assert(with_score(t1, ka) == with_score(t2, ka));
        assert(with_score(t1, ka)[0] == a);
        assert(with_score(t2, ka)[0] == b);
        assert(a == b);
        assert forall|k: i32| #[trigger] with_score(r1, k) == with_score(r2, k) by {
            r1.lemma_filter_prepend(a, |x: Issue| x.priority_score == k);
            r2.lemma_filter_prepend(b, |x: Issue| x.priority_score == k);
            assert(with_score(t1, k) == with_score(t2, k));
            if k == ka {
                assert(with_score(r1, k) =~= with_score(t1, k).drop_first());
                assert(with_score(r2, k) =~= with_score(t2, k).drop_first());
            } else {
                assert(with_score(r1, k) =~= with_score(t1, k));
                assert(with_score(r2, k) =~= with_score(t2, k));
            }
        }
        assert(sorted_by_priority(r1));
        assert(sorted_by_priority(r2));
        lemma_sorted_classes_determine(r1, r2);
        assert(t1 =~= t2);
    }
}

/// The stable priority order is unique: two orderings that both stably
/// sort the same issues by descending score are the same sequence.
pub proof fn lemma_stable_order_unique(s: Seq<Issue>, t1: Seq<Issue>, t2: Seq<Issue>)
    requires
        stable_priority_order(s, t1),
        stable_priority_order(s, t2),
    ensures
        t1 == t2,
{
    assert forall|k: i32| #[trigger] with_score(t1, k) == with_score(t2, k) by {
        assert(with_score(t1, k) == with_score(s, k));
        assert(with_score(t2, k) == with_score(s, k));
    }
    lemma_sorted_classes_determine(t1, t2);
}

/// Sorting issues that are already in priority order leaves them as they
/// are, so sorting twice gives what sorting once gives.
pub proof fn lemma_sorted_stays(s: Seq<Issue>, t: Seq<Issue>)
    requires
        sorted_by_priority(s),
        stable_priority_order(s, t),
    ensures
        t == s,
{
    assert(stable_priority_order(s, s));
    lemma_stable_order_unique(s, t, s);
}

/// `[T]::swap`, which exchanges two elements.
#[verifier::external_body]
fn slice_swap<T>(s: &mut [T], i: usize, j: usize)
    requires
        i < old(s)@.len(),
        j < old(s)@.len(),
    ensures
        final(s)@ == old(s)@.update(i as int, old(s)@[j as int]).update(j as int, old(s)@[i as int]),
{
    s.swap(i, j)
}

proof fn lemma_swap_keeps_classes(s: Seq<Issue>, j: int)
    requires
        1 <= j < s.len(),
        s[j - 1].priority_score != s[j].priority_score,
    ensures
        ({
            let t = s.update(j - 1, s[j]).update(j, s[j - 1]);
            &&& t.to_multiset() == s.to_multiset()
            &&& forall|k: i32| #[trigger] with_score(t, k) == with_score(s, k)
        }),
{
    let t = s.update(j - 1, s[j]).update(j, s[j - 1]);
    let a = s.take(j - 1);
    let c = s.skip(j + 1);
    let mid_s = seq![s[j - 1], s[j]];
    let mid_t = seq![s[j], s[j - 1]];
    assert(s =~= a + mid_s + c);
    assert(t =~= a + mid_t + c);
    vstd::seq_lib::to_multiset_update(s, j - 1, s[j]);
    vstd::seq_lib::to_multiset_update(s.update(j - 1, s[j]), j, s[j - 1]);
    assert(t.to_multiset() =~= s.to_multiset()) by {
        broadcast use vstd::multiset::group_multiset_axioms;
        vstd::seq_lib::to_multiset_contains(s, s[j - 1]);
        assert(s.contains(s[j - 1]));
        assert(s.to_multiset().count(s[j - 1]) > 0);
        assert(s.update(j - 1, s[j])[j] == s[j]);
    }
    assert forall|k: i32| #[trigger] with_score(t, k) == with_score(s, k) by {
        let p = |x: Issue| x.priority_score == k;
        Seq::filter_distributes_over_add(a + mid_s, c, p);
        Seq::filter_distributes_over_add(a, mid_s, p);
        Seq::filter_distributes_over_add(a + mid_t, c, p);
        Seq::filter_distributes_over_add(a, mid_t, p);
        let e = Seq::<Issue>::empty();
        assert(mid_s =~= e.push(s[j - 1]).push(s[j]));
        assert(mid_t =~= e.push(s[j]).push(s[j - 1]));
        e.lemma_filter_push(s[j - 1], p);
        e.lemma_filter_push(s[j], p);
        e.push(s[j - 1]).lemma_filter_push(s[j], p);
        e.push(s[j]).lemma_filter_push(s[j - 1], p);
        assert(e.filter(p) =~= e) by {
            reveal(Seq::filter);
        }
        assert(mid_s.filter(p) =~= mid_t.filter(p));
    }
}

/// Sorts issues by descending priority score; equal scores keep their
/// relative order (stable insertion sort by adjacent swaps).
pub fn sort_by_priority_desc(issues: &mut [Issue])
    ensures
        stable_priority_order(old(issues)@, final(issues)@),
{
    let n = issues.len();
    if n == 0 {
        assert(sorted_by_priority(issues@));
        return;
    }
    let ghost orig = issues@;
    let mut i: usize = 1;
    while i < n
        invariant
            1 <= i <= n,
            n == issues@.len(),
            forall|a: int, b: int|
                0 <= a < b < i ==> #[trigger] issues@[a].priority_score
                    >= #[trigger] issues@[b].priority_score,
            issues@.to_multiset() == orig.to_multiset(),
            forall|k: i32| #[trigger] with_score(issues@, k) == with_score(orig, k),
        decreases n - i,
    {
        let mut j: usize = i;
        while j > 0 && issues[j - 1].priority_score < issues[j].priority_score
            invariant
                0 <= j <= i < n,
                n == issues@.len(),
                forall|a: int, b: int|
                    0 <= a < b < j ==> #[trigger] issues@[a].priority_score
                        >= #[trigger] issues@[b].priority_score,
                forall|a: int, b: int|
                    j < a < b <= i ==> #[trigger] issues@[a].priority_score
                        >= #[trigger] issues@[b].priority_score,
                forall|b: int|
                    j < b <= i ==> issues@[j as int].priority_score > #[trigger] issues@[b].priority_score,
                forall|a: int, b: int|
                    0 <= a < j && j < b <= i ==> #[trigger] issues@[a].priority_score
                        >= #[trigger] issues@[b].priority_score,
                issues@.to_multiset() == orig.to_multiset(),
                forall|k: i32| #[trigger] with_score(issues@, k) == with_score(orig, k),
            decreases j,
        {
            proof {
                lemma_swap_keeps_classes(issues@, j as int);
            }
            slice_swap(issues, j - 1, j);
            j = j - 1;
        }
        i = i + 1;
    }
}

/// Sorts issues by descending priority score (stable).
pub fn sort_issues(issues: &mut Vec<Issue>)
    ensures
        stable_priority_order(old(issues)@, final(issues)@),
{
    sort_by_priority_desc(issues.as_mut_slice());
}

} // verus!
