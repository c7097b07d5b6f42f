//! The decisions of `fix`: which issues are targeted, how `--unsafe` is
//! confirmed, and the exit code.
use vstd::prelude::*;

use crate::fixer::report::FixReportSummary;
use crate::json::{
    field, get_text, items_of, json_get, json_item, json_len, json_of, json_view, parse_json,
    then_items, then_text, JsonView,
};
use crate::paths::{join_path, path_join};
use crate::text::{concat, str_eq, views};

verus! {

/// The issue ids to target: the `--issue` id first, then those read from
/// the `--issues` file; `None` when there are none.
pub fn target_issue_ids(single: Option<String>, from_file: Vec<String>) -> (r: Option<Vec<String>>)
    ensures
        ({
            let all = match single {
                Some(s) => seq![s@],
                None => Seq::empty(),
            } + views(from_file@);
            match r {
                Some(v) => all.len() > 0 && views(v@) == all,
                None => all.len() == 0,
            }
        }),
{
    let mut ids: Vec<String> = Vec::new();
    let ghost head: Seq<Seq<char>> = match &single {
        Some(s) => seq![s@],
        None => Seq::empty(),
    };
    match single {
        Some(s) => {
            ids.push(s);
        },
        None => {},
    }
    assert(views(ids@) =~= head);
    let mut rest = from_file;
    let n = rest.len();
    let ghost orig = rest@;
    let mut i: usize = 0;
    while i < n
        invariant
            n == orig.len(),
            i <= n,
            rest@ == orig.skip(i as int),
            views(ids@) == head + views(orig.take(i as int)),
        decreases n - i,
    {
        let x = rest.remove(0);
        proof {
            assert(rest@ =~= orig.skip(i + 1));
            assert(views(ids@.push(x)) =~= views(ids@).push(x@));
            assert(views(orig.take(i + 1)) =~= views(orig.take(i as int)).push(x@));
        }
        ids.push(x);
        i = i + 1;
    }
    assert(orig.take(n as int) =~= orig);
    if ids.len() == 0 {
        None
    } else {
        Some(ids)
    }
}

/// What `--unsafe` asks of the run.
#[derive(Debug, Clone, Copy, PartialEq, Eq, Structural)]
pub enum UnsafeGate {
    /// Go on without asking.
    Proceed,
    /// Ask for confirmation on the terminal.
    Confirm,
    /// Refuse: `--unsafe` without `--yes` outside a terminal (exit 2).
    Refuse,
}

/// How `--unsafe` is confirmed: not needed without it or with `--yes`;
/// asked on a terminal; refused elsewhere.
pub fn unsafe_gate(unsafe_fixes: bool, yes: bool, tty: bool) -> (g: UnsafeGate)
    ensures
        g == (if !unsafe_fixes || yes {
            UnsafeGate::Proceed
        } else if tty {
            UnsafeGate::Confirm
        } else {
            UnsafeGate::Refuse
        }),
{
    if !unsafe_fixes || yes {
        UnsafeGate::Proceed
    } else if tty {
        UnsafeGate::Confirm
    } else {
        UnsafeGate::Refuse
    }
}

/// The prefix of the fix run's output directory.
pub fn fix_output_prefix(project_name: &str) -> (s: String)
    ensures
        s@ == "fix-"@ + project_name@,
{
    concat("fix-", project_name)
}

/// The exit code of `fix`: 0 for a dry run; 2 when every tool that ran
/// failed; 1 when some issues remain (a fixer ran but the issue persists);
/// 0 otherwise.
pub open spec fn fix_exit(dry_run: bool, s: FixReportSummary) -> i32 {
    let ran = s.total_fixed + s.total_attempted + s.total_failed + s.total_no_issues;
    if dry_run {
        0
    } else if s.total_failed > 0 && s.total_failed == ran {
        2
    } else if s.total_attempted > 0 {
        1
    } else {
        0
    }
}

/// Recording a failed tool on a run where no tool has yet fixed, tried or
/// found nothing to do makes `fix` exit 2 (every tool failed); recording a
/// skipped tool never changes the exit code.
pub proof fn lemma_failures_exit_two(s: FixReportSummary, dry_run: bool)
    requires
        s.total_failed < u32::MAX,
        s.total_skipped < u32::MAX,
    ensures
        s.total_fixed == 0 && s.total_attempted == 0 && s.total_no_issues == 0 ==> fix_exit(
            false,
            crate::fixer::report::bumped(s, crate::fixer::report::FixToolStatus::Failed),
        ) == 2,
        fix_exit(dry_run, crate::fixer::report::bumped(s, crate::fixer::report::FixToolStatus::Skipped))
            == fix_exit(dry_run, s),
{
}

/// Computes the exit code of `fix` from the report summary.
pub fn fix_exit_code(dry_run: bool, summary: &FixReportSummary) -> (code: i32)
    ensures
        code == fix_exit(dry_run, *summary),
{
    if dry_run {
        return 0;
    }
    let ran: u64 = summary.total_fixed as u64 + summary.total_attempted as u64
        + summary.total_failed as u64 + summary.total_no_issues as u64;
    if summary.total_failed > 0 && summary.total_failed as u64 == ran {
        2
    } else if summary.total_attempted > 0 {
        1
    } else {
        0
    }
}

/// The issues a document lists: its elements when it is an array, else
/// its `issues` array (none without one).
pub open spec fn issue_items(doc: JsonView) -> Seq<JsonView> {
    match doc {
        JsonView::Array(s) => s,
        _ => match then_items(field(doc, "issues"@)) {
            Some(s) => s,
            None => Seq::empty(),
        },
    }
}

/// The `id` text of each item that has one, in order.
pub open spec fn item_ids(items: Seq<JsonView>) -> Seq<Seq<char>>
    decreases items.len(),
{
    if items.len() == 0 {
        Seq::empty()
    } else {
        item_ids(items.drop_last()) + match then_text(field(items.last(), "id"@)) {
            Some(t) => seq![t],
            None => Seq::empty(),
        }
    }
}

fn ids_of_array(a: &serde_json::Value) -> (r: Vec<String>)
    requires
        items_of(json_view(*a)) is Some,
    ensures
        views(r@) == item_ids(items_of(json_view(*a))->0),
{
    let ghost s = items_of(json_view(*a))->0;
    let n = match json_len(a) {
        Some(n) => n,
        None => 0,
    };
    let mut out: Vec<String> = Vec::new();
    assert(views(out@) =~= item_ids(s.take(0)));
    for i in 0..n
        invariant
            items_of(json_view(*a)) == Some(s),
            n == s.len(),
            views(out@) == item_ids(s.take(i as int)),
    {
        proof {
            assert(s.take(i + 1).drop_last() =~= s.take(i as int));
            assert(s.take(i + 1).last() == s[i as int]);
        }
        match json_item(a, i) {
            Some(x) => match get_text(json_get(x, "id")) {
                Some(id) => {
                    assert(views(out@.push(id)) =~= views(out@) + seq![id@]);
                    out.push(id);
                },
                None => {
                    assert(views(out@) + Seq::<Seq<char>>::empty() =~= views(out@));
                },
            },
            None => {
                assert(false);
            },
        }
    }
    assert(s.take(n as int) =~= s);
    out
}

/// The issue ids an issues file lists (see [`issue_items`] and
/// [`item_ids`]); `None` when the text is not JSON.
pub fn issue_ids_of_text(text: &str) -> (r: Option<Vec<String>>)
    ensures
        match json_of(text@) {
            Some(doc) => r matches Some(v) && views(v@) == item_ids(issue_items(doc)),
            None => r is None,
        },
{
    let doc = match parse_json(text) {
        Some(d) => d,
        None => {
            return None;
        },
    };
    match json_len(&doc) {
        Some(_) => Some(ids_of_array(&doc)),
        None => match json_get(&doc, "issues") {
            Some(a) => match json_len(a) {
                Some(_) => Some(ids_of_array(a)),
                None => {
                    assert(item_ids(Seq::<JsonView>::empty()) =~= Seq::<Seq<char>>::empty());
                    Some(Vec::new())
                },
            },
            None => {
                assert(item_ids(Seq::<JsonView>::empty()) =~= Seq::<Seq<char>>::empty());
                Some(Vec::new())
            },
        },
    }
}

/// The files, under the project root, of the listed issues whose id is
/// targeted, each once, in order of first appearance; an issue without an
/// `id` text or a `file_path` text counts for nothing.
pub open spec fn issue_files(items: Seq<JsonView>, root: Seq<char>, ids: Seq<Seq<char>>) -> Seq<Seq<char>>
    decreases items.len(),
{
    if items.len() == 0 {
        Seq::empty()
    } else {
        let prev = issue_files(items.drop_last(), root, ids);
        let it = items.last();
        match (then_text(field(it, "id"@)), then_text(field(it, "file_path"@))) {
            (Some(id), Some(p)) => if ids.contains(id) && !prev.contains(path_join(root, p)) {
                prev.push(path_join(root, p))
            } else {
                prev
            },
            _ => prev,
        }
    }
}

fn holds_string(v: &[String], s: &str) -> (b: bool)
    ensures
        b == views(v@).contains(s@),
{
    let n = v.len();
    for i in 0..n
        invariant
            n == v@.len(),
            forall|j: int| 0 <= j < i ==> v@[j]@ != s@,
    {
        if str_eq(v[i].as_str(), s) {
            assert(views(v@)[i as int] == s@);
            return true;
        }
    }
    assert forall|j: int| 0 <= j < views(v@).len() implies views(v@)[j] != s@ by {
        assert(views(v@)[j] == v@[j]@);
    }
    false
}

/// The files of the targeted issues in a scan's issues document: its
/// `issues` array read as [`issue_files`] says; none when the text is not
/// JSON or has no such array.
pub fn issue_files_of_text(text: &str, project_root: &str, ids: &[String]) -> (r: Vec<String>)
    ensures
        views(r@) == match json_of(text@) {
            Some(doc) => match then_items(field(doc, "issues"@)) {
                Some(s) => issue_files(s, project_root@, views(ids@)),
                None => Seq::empty(),
            },
            None => Seq::empty(),
        },
{
    let mut out: Vec<String> = Vec::new();
    let doc = match parse_json(text) {
        Some(d) => d,
        None => {
            return out;
        },
    };
    let a = match json_get(&doc, "issues") {
        Some(a) => a,
        None => {
            return out;
        },
    };
    let n = match json_len(a) {
        Some(n) => n,
        None => {
            return out;
        },
    };
    let ghost s = items_of(json_view(*a))->0;
    assert(views(out@) =~= issue_files(s.take(0), project_root@, views(ids@)));
    for i in 0..n
        invariant
            items_of(json_view(*a)) == Some(s),
            n == s.len(),
            views(out@) == issue_files(s.take(i as int), project_root@, views(ids@)),
    {
        proof {
            assert(s.take(i + 1).drop_last() =~= s.take(i as int));
            assert(s.take(i + 1).last() == s[i as int]);
        }
        match json_item(a, i) {
            Some(x) => {
                let id = get_text(json_get(x, "id"));
                let path = get_text(json_get(x, "file_path"));
                match (id, path) {
                    (Some(id), Some(p)) => {
                        let abs = join_path(project_root, p.as_str());
                        if holds_string(ids, id.as_str()) && !holds_string(out.as_slice(), abs.as_str()) {
                            assert(views(out@.push(abs)) =~= views(out@).push(abs@));
                            out.push(abs);
                        }
                    },
                    _ => {},
                }
            },
            None => {
                assert(false);
            },
        }
    }
    assert(s.take(n as int) =~= s);
    out
}

} // verus!
