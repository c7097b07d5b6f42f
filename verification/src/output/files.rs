//! Output file contents: forward-slash paths, the fixable/remaining split
//! and ASCII-safe truncation for the text table.
use vstd::prelude::*;

use crate::issue::priority::{sort_by_priority_desc, stable_priority_order};
use crate::issue::{issue_views, Issue, IssueView};
use crate::text::{
    chars_of, concat, decimal, decimal_string, forward_slashes, push_char, string_of,
    to_forward_slashes,
};

verus! {

/// Normalises a file path to forward slashes.
pub fn normalize_path(path: &str) -> (r: String)
    ensures
        r@ == forward_slashes(path@),
{
    to_forward_slashes(path)
}

/// An issue's content with its file path normalised to forward slashes.
pub open spec fn normalized(v: IssueView) -> IssueView {
    IssueView { file_path: forward_slashes(v.file_path), ..v }
}

/// Every issue's content with its file path normalised.
pub open spec fn normalized_all(s: Seq<IssueView>) -> Seq<IssueView> {
    s.map_values(|v: IssueView| normalized(v))
}

/// Copies of the issues with every file path normalised to forward slashes.
pub fn normalize_issues(issues: &[Issue]) -> (r: Vec<Issue>)
    ensures
        issue_views(r@) == normalized_all(issue_views(issues@)),
{
    let mut r: Vec<Issue> = Vec::new();
    let n = issues.len();
    for i in 0..n
        invariant
            n == issues@.len(),
            issue_views(r@) == issue_views(issues@.take(i as int)).map_values(
                |v: IssueView| normalized(v),
            ),
    {
        let mut x = issues[i].copy();
        x.file_path = normalize_path(issues[i].file_path.as_str());
        proof {
            assert(issue_views(r@.push(x)) =~= issue_views(r@).push(x@));
            assert(issue_views(issues@.take(i + 1)) =~= issue_views(issues@.take(i as int)).push(
                issues@[i as int]@,
            ));
            assert(x@ == normalized(issues@[i as int]@));
            assert(issue_views(issues@.take(i + 1)).map_values(|v: IssueView| normalized(v))
                =~= issue_views(r@.push(x)));
        }
        r.push(x);
    }
    assert(issues@.take(n as int) =~= issues@);
    r
}

/// Splitting by a predicate loses and duplicates nothing: the two parts
/// together are as long as the whole.
pub proof fn lemma_split_sizes(vs: Seq<IssueView>)
    ensures
        vs.filter(|v: IssueView| v.fix.auto_fixable).len() + vs.filter(
            |v: IssueView| !v.fix.auto_fixable,
        ).len() == vs.len(),
    decreases vs.len(),
{
    if vs.len() > 0 {
        let pre = vs.drop_last();
        lemma_split_sizes(pre);
        assert(pre.push(vs.last()) =~= vs);
        pre.lemma_filter_push(vs.last(), |v: IssueView| v.fix.auto_fixable);
        pre.lemma_filter_push(vs.last(), |v: IssueView| !v.fix.auto_fixable);
    }
}

/// Copies of the auto-fixable issues and of the others, each in order.
pub fn split_fixable(issues: &[Issue]) -> (r: (Vec<Issue>, Vec<Issue>))
    ensures
        issue_views(r.0@) == issue_views(issues@).filter(|v: IssueView| v.fix.auto_fixable),
        issue_views(r.1@) == issue_views(issues@).filter(|v: IssueView| !v.fix.auto_fixable),
{
    let mut fixable: Vec<Issue> = Vec::new();
    let mut remaining: Vec<Issue> = Vec::new();
    let n = issues.len();
    for i in 0..n
        invariant
            n == issues@.len(),
            issue_views(fixable@) == issue_views(issues@.take(i as int)).filter(
                |v: IssueView| v.fix.auto_fixable,
            ),
            issue_views(remaining@) == issue_views(issues@.take(i as int)).filter(
                |v: IssueView| !v.fix.auto_fixable,
            ),
    {
        let x = issues[i].copy();
        proof {
            let pre = issue_views(issues@.take(i as int));
            assert(issue_views(issues@.take(i + 1)) =~= pre.push(issues@[i as int]@));
            pre.lemma_filter_push(x@, |v: IssueView| v.fix.auto_fixable);
            pre.lemma_filter_push(x@, |v: IssueView| !v.fix.auto_fixable);
            assert(issue_views(fixable@.push(x)) =~= issue_views(fixable@).push(x@));
            assert(issue_views(remaining@.push(x)) =~= issue_views(remaining@).push(x@));
        }
        if x.fix.auto_fixable {
            fixable.push(x);
        } else {
            remaining.push(x);
        }
    }
    assert(issues@.take(n as int) =~= issues@);
    (fixable, remaining)
}

/// The contents of the three issue files of a report.
pub struct OutputFiles {
    /// All issues, priority-sorted, with forward-slash paths.
    pub all: Vec<Issue>,
    /// The auto-fixable subset of `all`.
    pub fixable: Vec<Issue>,
    /// The subset of `all` that needs a manual fix.
    pub remaining: Vec<Issue>,
}

/// The issue files for `issues`: sorted by priority (stable), paths
/// normalised, then split into fixable and remaining.
pub fn prepare_output(issues: Vec<Issue>) -> (r: OutputFiles)
    ensures
        exists|sorted: Seq<Issue>|
            {
                &&& #[trigger] stable_priority_order(issues@, sorted)
                &&& issue_views(r.all@) == normalized_all(issue_views(sorted))
            },
        issue_views(r.fixable@) == issue_views(r.all@).filter(|v: IssueView| v.fix.auto_fixable),
        issue_views(r.remaining@) == issue_views(r.all@).filter(|v: IssueView| !v.fix.auto_fixable),
{
    let mut sorted = issues;
    sort_by_priority_desc(sorted.as_mut_slice());
    let all = normalize_issues(sorted.as_slice());
    let (fixable, remaining) = split_fixable(all.as_slice());
    assert(stable_priority_order(issues@, sorted@));
    OutputFiles { all, fixable, remaining }
}

/// Whether a character is ASCII.
pub open spec fn is_ascii_char(c: char) -> bool {
    c <= '\u{7f}'
}

/// Non-ASCII characters replaced by `?`.
pub open spec fn ascii_clean(s: Seq<char>) -> Seq<char> {
    s.map_values(|c: char| if is_ascii_char(c) { c } else { '?' })
}

/// At most `max` characters of `s`, with non-ASCII characters replaced by
/// `?` so that the result is pure ASCII.
pub fn truncate(s: &str, max: usize) -> (r: String)
    ensures
        r@ == ascii_clean(s@).take(if s@.len() <= max { s@.len() as int } else { max as int }),
{
    let sc = chars_of(s);
    let mut cleaned: Vec<char> = Vec::new();
    let n = sc.len();
    for i in 0..n
        invariant
            n == sc@.len(),
            sc@ == s@,
            cleaned@ == ascii_clean(sc@.take(i as int)),
    {
        let c = sc[i];
        cleaned.push(if c <= '\u{7f}' { c } else { '?' });
        assert(sc@.take(i + 1) == sc@.take(i as int).push(c));
        assert(ascii_clean(sc@.take(i + 1)) =~= ascii_clean(sc@.take(i as int)).push(
            if is_ascii_char(c) { c } else { '?' },
        ));
    }
    assert(sc@.take(n as int) =~= sc@);
    if n <= max {
        assert(ascii_clean(s@).take(n as int) =~= ascii_clean(s@));
        string_of(cleaned.as_slice())
    } else {
        string_of(&cleaned.as_slice()[0..max])
    }
}

/// The characters of a number in decimal, with a `-` when negative.
pub open spec fn signed_decimal(x: int) -> Seq<char> {
    if x < 0 {
        "-"@ + decimal((-x) as nat)
    } else {
        decimal(x as nat)
    }
}

fn signed_decimal_string(x: i32) -> (r: String)
    ensures
        r@ == signed_decimal(x as int),
{
    proof {
        reveal_strlit("-");
    }
    if x < 0 {
        let m: u64 = (0i64 - (x as i64)) as u64;
        let d = decimal_string(m);
        concat("-", d.as_str())
    } else {
        decimal_string(x as u64)
    }
}

/// `s` padded with spaces on the right to `width` characters (`{:<width}`).
pub open spec fn pad_right(s: Seq<char>, width: nat) -> Seq<char> {
    if s.len() >= width {
        s
    } else {
        s + Seq::new((width - s.len()) as nat, |i: int| ' ')
    }
}

fn pad(s: &str, width: usize) -> (r: String)
    ensures
        r@ == pad_right(s@, width as nat),
{
    let mut out = String::new();
    let cs = chars_of(s);
    let n = cs.len();
    for i in 0..n
        invariant
            n == cs@.len(),
            cs@ == s@,
            out@ == s@.take(i as int),
    {
        assert(s@.take(i + 1) =~= s@.take(i as int).push(cs@[i as int]));
        push_char(&mut out, cs[i]);
    }
    assert(s@.take(n as int) =~= s@);
    let mut k = n;
    while k < width
        invariant
            n == s@.len(),
            n <= k,
            k <= width || n >= width,
            n >= width ==> k == n,
            out@ == s@ + Seq::new((k - n) as nat, |i: int| ' '),
        decreases width - k,
    {
        assert(s@ + Seq::new((k + 1 - n) as nat, |i: int| ' ') =~= (s@ + Seq::new(
            (k - n) as nat,
            |i: int| ' ',
        )).push(' '));
        push_char(&mut out, ' ');
        k = k + 1;
    }
    if n >= width {
        assert(k == n);
        assert(out@ =~= s@);
    } else {
        assert(out@ =~= pad_right(s@, width as nat));
    }
    out
}

/// At most the first `n` characters.
pub open spec fn head(s: Seq<char>, n: nat) -> Seq<char> {
    if s.len() >= n {
        s.take(n as int)
    } else {
        s
    }
}

/// At most the last `n` characters.
pub open spec fn tail(s: Seq<char>, n: nat) -> Seq<char> {
    if s.len() > n {
        s.skip(s.len() - n)
    } else {
        s
    }
}

/// A separator line of the summary table.
pub open spec fn table_sep() -> Seq<char> {
    "+----------+----------+-------+--------------------------------+----------------------------------------------------+-----+\n"@
}

/// The header line of the summary table.
pub open spec fn table_header() -> Seq<char> {
    "| ID       | Severity | Score | File                           | Message                                            | Fix |\n"@
}

/// The row of one issue: its id (first 8 characters), severity (8),
/// score, file path (last 30 characters, forward slashes), message (50)
/// and whether it is auto-fixable, each padded to its column; id,
/// severity, file path and message are cut and made ASCII as by
/// `truncate`.
pub open spec fn table_row(i: IssueView) -> Seq<char> {
    "| "@ + pad_right(ascii_clean(head(i.id, 8)), 8) + " | "@ + pad_right(
        ascii_clean(head(i.severity, 8)),
        8,
    ) + " | "@ + pad_right(signed_decimal(i.priority_score as int), 5) + " | "@ + pad_right(
        ascii_clean(tail(forward_slashes(i.file_path), 30)),
        30,
    ) + " | "@ + pad_right(ascii_clean(head(i.message, 50)), 50) + " | "@ + pad_right(
        if i.fix.auto_fixable {
            "Y"@
        } else {
            "N"@
        },
        3,
    ) + " |\n"@
}

/// The rows of the issues, in order.
pub open spec fn table_rows(is: Seq<IssueView>) -> Seq<char>
    decreases is.len(),
{
    if is.len() == 0 {
        Seq::empty()
    } else {
        table_rows(is.drop_last()) + table_row(is.last())
    }
}

/// Whether every character is ASCII.
pub open spec fn all_ascii(s: Seq<char>) -> bool {
    forall|k: int| 0 <= k < s.len() ==> is_ascii_char(#[trigger] s[k])
}

proof fn lemma_clean_head(s: Seq<char>, n: nat)
    ensures
        ascii_clean(head(s, n)) == ascii_clean(s).take(if s.len() <= n { s.len() as int } else { n as int }),
{
    assert(ascii_clean(head(s, n)) =~= ascii_clean(s).take(
        if s.len() <= n { s.len() as int } else { n as int },
    ));
}

fn table_row_text(issue: &Issue) -> (r: String)
    ensures
        r@ == table_row(issue@),
{
    let id8 = truncate(issue.id.as_str(), 8);
    let sev = truncate(issue.severity.as_str(), 8);
    let score = signed_decimal_string(issue.priority_score);
    let fp = to_forward_slashes(issue.file_path.as_str());
    let fc = chars_of(fp.as_str());
    let file30 = if fc.len() > 30 {
        string_of(&fc.as_slice()[fc.len() - 30..fc.len()])
    } else {
        fp.clone()
    };
    let file = truncate(file30.as_str(), 30);
    let msg = truncate(issue.message.as_str(), 50);
    let fix = if issue.fix.auto_fixable {
        "Y"
    } else {
        "N"
    };
    proof {
        lemma_clean_head(issue.id@, 8);
        lemma_clean_head(file30@, 30);
        lemma_clean_head(issue.severity@, 8);
        lemma_clean_head(issue.message@, 50);
        assert(fc@.subrange(fc@.len() - 30, fc@.len() as int) =~= fc@.skip(fc@.len() - 30));
    }
    let a = concat("| ", pad(id8.as_str(), 8).as_str());
    let b = concat(a.as_str(), " | ");
    let c = concat(b.as_str(), pad(sev.as_str(), 8).as_str());
    let d = concat(c.as_str(), " | ");
    let e = concat(d.as_str(), pad(score.as_str(), 5).as_str());
    let f = concat(e.as_str(), " | ");
    let g = concat(f.as_str(), pad(file.as_str(), 30).as_str());
    let h = concat(g.as_str(), " | ");
    let i = concat(h.as_str(), pad(msg.as_str(), 50).as_str());
    let j = concat(i.as_str(), " | ");
    let k = concat(j.as_str(), pad(fix, 3).as_str());
    concat(k.as_str(), " |\n")
}

/// The ASCII table of `summary.txt`: a header between separators, one row
/// per issue, and a closing separator.
pub fn summary_table(issues: &[Issue]) -> (r: String)
    ensures
        r@ == table_sep() + table_header() + table_sep() + table_rows(issue_views(issues@))
            + table_sep(),
{
    let sep = "+----------+----------+-------+--------------------------------+----------------------------------------------------+-----+\n";
    let header = "| ID       | Severity | Score | File                           | Message                                            | Fix |\n";
    let a = concat(sep, header);
    let mut out = concat(a.as_str(), sep);
    let n = issues.len();
    let ghost start = out@;
    assert(table_rows(issue_views(issues@).take(0)) =~= Seq::<char>::empty());
    for q in 0..n
        invariant
            n == issues@.len(),
            out@ == start + table_rows(issue_views(issues@).take(q as int)),
    {
        let row = table_row_text(&issues[q]);
        proof {
            assert(issue_views(issues@).take(q + 1).drop_last() =~= issue_views(issues@).take(q as int));
            assert(issue_views(issues@)[q as int] == issues@[q as int]@);
        }
        out = concat(out.as_str(), row.as_str());
    }
    assert(issue_views(issues@).take(n as int) =~= issue_views(issues@));
    concat(out.as_str(), sep)
}

proof fn lemma_ascii_concat(a: Seq<char>, b: Seq<char>)
    requires
        all_ascii(a),
        all_ascii(b),
    ensures
        all_ascii(a + b),
{
    assert forall|k: int| 0 <= k < (a + b).len() implies is_ascii_char(#[trigger] (a + b)[k]) by {
        if k < a.len() {
            assert((a + b)[k] == a[k]);
        } else {
            assert((a + b)[k] == b[k - a.len()]);
        }
    }
}

proof fn lemma_decimal_ascii(n: nat)
    ensures
        all_ascii(decimal(n)),
    decreases n,
{
    if n >= 10 {
        lemma_decimal_ascii(n / 10);
        lemma_ascii_concat(decimal(n / 10), seq![crate::text::digit_char(n % 10)]);
    }
}

proof fn lemma_pad_ascii(s: Seq<char>, w: nat)
    requires
        all_ascii(s),
    ensures
        all_ascii(pad_right(s, w)),
{
    if s.len() < w {
        lemma_ascii_concat(s, Seq::new((w - s.len()) as nat, |i: int| ' '));
    }
}

proof fn lemma_clean_ascii(s: Seq<char>)
    ensures
        all_ascii(ascii_clean(s)),
{
}

proof fn lemma_row_ascii(i: IssueView)
    ensures
        all_ascii(table_row(i)),
{
    reveal_strlit("| ");
    reveal_strlit(" | ");
    reveal_strlit(" |\n");
    reveal_strlit("Y");
    reveal_strlit("N");
    reveal_strlit("-");
    let id = pad_right(ascii_clean(head(i.id, 8)), 8);
    lemma_clean_ascii(head(i.id, 8));
    lemma_pad_ascii(ascii_clean(head(i.id, 8)), 8);
    lemma_clean_ascii(head(i.severity, 8));
    lemma_clean_ascii(head(i.message, 50));
    let sev = pad_right(ascii_clean(head(i.severity, 8)), 8);
    lemma_pad_ascii(ascii_clean(head(i.severity, 8)), 8);
    let x = i.priority_score as int;
    if x < 0 {
        lemma_decimal_ascii((-x) as nat);
        lemma_ascii_concat("-"@, decimal((-x) as nat));
    } else {
        lemma_decimal_ascii(x as nat);
    }
    lemma_pad_ascii(signed_decimal(x), 5);
    let f = ascii_clean(tail(forward_slashes(i.file_path), 30));
    lemma_clean_ascii(tail(forward_slashes(i.file_path), 30));
    lemma_pad_ascii(f, 30);
    lemma_pad_ascii(ascii_clean(head(i.message, 50)), 50);
    let fx: Seq<char> = if i.fix.auto_fixable { "Y"@ } else { "N"@ };
    lemma_pad_ascii(fx, 3);
    let p1 = "| "@ + id;
    lemma_ascii_concat("| "@, id);
    lemma_ascii_concat(p1, " | "@);
    let p2 = p1 + " | "@ + sev;
    lemma_ascii_concat(p1 + " | "@, sev);
    lemma_ascii_concat(p2, " | "@);
    let p3 = p2 + " | "@ + pad_right(signed_decimal(x), 5);
    lemma_ascii_concat(p2 + " | "@, pad_right(signed_decimal(x), 5));
    lemma_ascii_concat(p3, " | "@);
    let p4 = p3 + " | "@ + pad_right(f, 30);
    lemma_ascii_concat(p3 + " | "@, pad_right(f, 30));
    lemma_ascii_concat(p4, " | "@);
    let p5 = p4 + " | "@ + pad_right(ascii_clean(head(i.message, 50)), 50);
    lemma_ascii_concat(p4 + " | "@, pad_right(ascii_clean(head(i.message, 50)), 50));
    lemma_ascii_concat(p5, " | "@);
    let p6 = p5 + " | "@ + pad_right(fx, 3);
    lemma_ascii_concat(p5 + " | "@, pad_right(fx, 3));
    lemma_ascii_concat(p6, " |\n"@);
}

/// The summary table is pure ASCII for any issues: ids, severities, file
/// paths and messages are cleaned, and every other character is one of
/// the table's own.
pub proof fn lemma_summary_table_ascii(is: Seq<IssueView>)
    ensures
        all_ascii(table_sep() + table_header() + table_sep() + table_rows(is) + table_sep()),
{
    reveal_strlit("+----------+----------+-------+--------------------------------+----------------------------------------------------+-----+\n");
    reveal_strlit("| ID       | Severity | Score | File                           | Message                                            | Fix |\n");
    assert(all_ascii(table_sep()));
    assert(all_ascii(table_header()));
    lemma_rows_ascii(is);
    lemma_ascii_concat(table_sep(), table_header());
    lemma_ascii_concat(table_sep() + table_header(), table_sep());
    lemma_ascii_concat(table_sep() + table_header() + table_sep(), table_rows(is));
    lemma_ascii_concat(table_sep() + table_header() + table_sep() + table_rows(is), table_sep());
}

proof fn lemma_rows_ascii(is: Seq<IssueView>)
    ensures
        all_ascii(table_rows(is)),
    decreases is.len(),
{
    if is.len() > 0 {
        lemma_rows_ascii(is.drop_last());
        lemma_row_ascii(is.last());
        lemma_ascii_concat(table_rows(is.drop_last()), table_row(is.last()));
    }
}

} // verus!
