//! Questions answered from a parsed syntax tree: the enclosing function or
//! class of a line, and a file's imports.
//!
//! The tree is held as plain values: its nodes in pre-order (the root
//! first), each with its kind, its rows, its parent's position and its
//! source text.
use vstd::prelude::*;

use crate::issue::evidence::{
    extract_context, function_window, function_window_fits, kind_views, line_at, line_index,
    line_to_index, lines_after, lines_before, small_function_context, EvidenceBlock,
    EvidenceView, LanguageNodeKinds, CONTEXT_LINES,
};
use crate::issue::fix_meta::opt_view;
use crate::scanner::RawFinding;
use crate::text::{lines_of, split_lines, str_eq, string_of, chars_of, trim, trim_ws, views};

verus! {

/// One node of a syntax tree.
#[derive(Debug, Clone)]
pub struct SyntaxNode {
    /// The grammar's kind of the node.
    pub kind: String,
    /// First row (0-based).
    pub start_row: usize,
    /// Last row (0-based, inclusive).
    pub end_row: usize,
    /// Position of the parent node; `None` for the root.
    pub parent: Option<usize>,
    /// The node's source text; `None` when it is not valid UTF-8.
    pub text: Option<String>,
}

/// A syntax node as the specifications see it.
pub struct SyntaxNodeView {
    /// The grammar's kind of the node.
    pub kind: Seq<char>,
    /// First row (0-based).
    pub start_row: usize,
    /// Last row (0-based, inclusive).
    pub end_row: usize,
    /// Position of the parent node; `None` for the root.
    pub parent: Option<usize>,
    /// The node's source text; `None` when it is not valid UTF-8.
    pub text: Option<Seq<char>>,
}

impl View for SyntaxNode {
    type V = SyntaxNodeView;

    open spec fn view(&self) -> SyntaxNodeView {
        SyntaxNodeView {
            kind: self.kind@,
            start_row: self.start_row,
            end_row: self.end_row,
            parent: self.parent,
            text: opt_view(self.text),
        }
    }
}

/// The view of each node.
pub open spec fn node_views(nodes: Seq<SyntaxNode>) -> Seq<SyntaxNodeView> {
    nodes.map_values(|n: SyntaxNode| n@)
}

/// The view of each node of a tree, if there is one.
pub open spec fn opt_node_views(tree: Option<&Vec<SyntaxNode>>) -> Option<Seq<SyntaxNodeView>> {
    match tree {
        Some(ns) => Some(node_views(ns@)),
        None => None,
    }
}

/// The characters of each kind of a language's kinds, if there are any.
pub open spec fn opt_kind_views(kinds: Option<&LanguageNodeKinds>) -> Option<
    (Seq<Seq<char>>, Seq<Seq<char>>, Seq<Seq<char>>),
> {
    match kinds {
        Some(k) => Some((kind_views(k.function_kinds), kind_views(k.class_kinds), kind_views(k.import_kinds))),
        None => None,
    }
}

/// Nodes in pre-order: every parent comes before its children.
pub open spec fn tree_wf(nodes: Seq<SyntaxNodeView>) -> bool {
    forall|i: int| 0 <= i < nodes.len() ==> parent_before(#[trigger] nodes[i], i)
}

/// The node's parent, if any, comes before position `i`.
pub open spec fn parent_before(n: SyntaxNodeView, i: int) -> bool {
    match n.parent {
        Some(p) => p < i,
        None => true,
    }
}

/// The first of `from` and its ancestors, nearest first, whose kind is
/// one of `kinds`.
pub open spec fn enclosing(nodes: Seq<SyntaxNodeView>, from: int, kinds: Seq<Seq<char>>) -> Option<int>
    decreases from + 1,
{
    if from < 0 || from >= nodes.len() {
        None
    } else if kinds.contains(nodes[from].kind) {
        Some(from)
    } else {
        match nodes[from].parent {
            Some(p) => if p < from {
                enclosing(nodes, p as int, kinds)
            } else {
                None
            },
            None => None,
        }
    }
}

fn kind_in(kind: &str, kinds: &[&str]) -> (b: bool)
    ensures
        b == kind_views(kinds).contains(kind@),
{
    let n = kinds.len();
    for i in 0..n
        invariant
            n == kinds@.len(),
            forall|j: int| 0 <= j < i ==> kinds@[j]@ != kind@,
    {
        if str_eq(kinds[i], kind) {
            assert(kind_views(kinds)[i as int] == kind@);
            assert(kind_views(kinds).contains(kind@));
            return true;
        }
    }
    assert forall|j: int| 0 <= j < kind_views(kinds).len() implies kind_views(kinds)[j] != kind@ by {
        assert(kind_views(kinds)[j] == kinds@[j]@);
    }
    false
}

/// The node a line's scope search ends at: none without kinds or without
/// a leaf, else the nearest enclosing node of one of the kinds.
pub open spec fn enclosing_from(nodes: Seq<SyntaxNodeView>, leaf: Option<usize>, kinds: Seq<Seq<char>>) -> Option<int> {
    if kinds.len() == 0 {
        None
    } else {
        match leaf {
            Some(l) => enclosing(nodes, l as int, kinds),
            None => None,
        }
    }
}

/// Finds the nearest node, starting at `leaf` (the smallest node at the
/// line) and walking up through its ancestors, whose kind is one of
/// `kinds`; none without kinds or without a leaf.
pub fn find_enclosing_node(nodes: &Vec<SyntaxNode>, leaf: Option<usize>, kinds: &[&str]) -> (r: Option<
    usize,
>)
    requires
        tree_wf(node_views(nodes@)),
    ensures
        match r {
            Some(i) => enclosing_from(node_views(nodes@), leaf, kind_views(kinds)) == Some(i as int),
            None => enclosing_from(node_views(nodes@), leaf, kind_views(kinds)) is None,
        },
{
    if kinds.len() == 0 {
        return None;
    }
    let mut cur = match leaf {
        Some(l) => l,
        None => {
            return None;
        },
    };
    let ghost vs = node_views(nodes@);
    let ghost target = enclosing(vs, cur as int, kind_views(kinds));
    loop
        invariant
            vs == node_views(nodes@),
            tree_wf(vs),
            kinds@.len() > 0,
            leaf is Some,
            target == enclosing_from(vs, leaf, kind_views(kinds)),
            enclosing(vs, cur as int, kind_views(kinds)) == target,
        decreases cur,
    {
        if cur >= nodes.len() {
            return None;
        }
        let node = &nodes[cur];
        assert(parent_before(vs[cur as int], cur as int));
        assert(vs[cur as int] == nodes@[cur as int]@);
        if kind_in(node.kind.as_str(), kinds) {
            return Some(cur);
        }
        match node.parent {
            Some(p) => {
                if p >= cur {
                    return None;
                }
                cur = p;
            },
            None => {
                return None;
            },
        }
    }
}

/// Whether a node kind names an identifier.
pub open spec fn is_name_kind(k: Seq<char>) -> bool {
    k == "identifier"@ || k == "name"@ || k == "simple_identifier"@
}

/// Whether node `j` is a direct child of node `i` that carries a name.
pub open spec fn names_node(nodes: Seq<SyntaxNodeView>, i: int, j: int) -> bool {
    &&& nodes[j].parent == Some(i as usize)
    &&& is_name_kind(nodes[j].kind)
    &&& nodes[j].text matches Some(t) && t.len() > 0
}

/// The first line of at most the first 80 characters of a text, trimmed.
pub open spec fn heading_of(text: Seq<char>) -> Seq<char> {
    let ls = lines_of(text.take(if text.len() < 80 { text.len() as int } else { 80 }));
    trim_ws(if ls.len() > 0 { ls[0] } else { Seq::empty() })
}

/// The name of node `i`: the text of its first child (in order) that is an
/// identifier with text; else the first line of its text when not empty.
pub open spec fn name_of(nodes: Seq<SyntaxNodeView>, i: int) -> Option<Seq<char>> {
    if exists|j: int| 0 <= j < nodes.len() && names_node(nodes, i, j) {
        let j = choose|j: int|
            0 <= j < nodes.len() && names_node(nodes, i, j) && forall|k: int|
                0 <= k < j ==> !names_node(nodes, i, k);
        Some(nodes[j].text->0)
    } else {
        match nodes[i].text {
            Some(t) => if heading_of(t).len() > 0 {
                Some(heading_of(t))
            } else {
                None
            },
            None => None,
        }
    }
}

fn heading(text: &str) -> (s: String)
    ensures
        s@ == heading_of(text@),
{
    let cs = chars_of(text);
    let k: usize = if cs.len() < 80 {
        cs.len()
    } else {
        80
    };
    let head = string_of(&cs.as_slice()[0..k]);
    assert(cs@.subrange(0, k as int) =~= text@.take(k as int));
    let ls = split_lines(head.as_str());
    proof {
        reveal_strlit("");
    }
    if ls.len() > 0 {
        trim(ls[0].as_str())
    } else {
        trim("")
    }
}

/// The name of node `i`: the first identifier child's text, else the
/// first line of the node's own text.
pub fn node_name(nodes: &Vec<SyntaxNode>, i: usize) -> (r: Option<String>)
    requires
        i < nodes@.len(),
    ensures
        crate::text::opt_chars(r) == name_of(node_views(nodes@), i as int),
{
    let n = nodes.len();
    let mut j: usize = 0;
    proof {
        reveal_strlit("identifier");
        reveal_strlit("name");
        reveal_strlit("simple_identifier");
    }
    while j < n
        invariant
            n == nodes@.len(),
            i < n,
            j <= n,
            forall|k: int| 0 <= k < j ==> !names_node(node_views(nodes@), i as int, k),
        decreases n - j,
    {
        let c = &nodes[j];
        let is_child = match c.parent {
            Some(p) => p == i,
            None => false,
        };
        if is_child && (str_eq(c.kind.as_str(), "identifier") || str_eq(c.kind.as_str(), "name")
            || str_eq(c.kind.as_str(), "simple_identifier")) {
            match &c.text {
                Some(t) => {
                    if t.as_str().unicode_len() > 0 {
                        proof {
                            assert(names_node(node_views(nodes@), i as int, j as int));
                            let w = choose|w: int|
                                0 <= w < nodes@.len() && names_node(node_views(nodes@), i as int, w) && forall|
                                    k: int,
                                | 0 <= k < w ==> !names_node(node_views(nodes@), i as int, k);
                            if w < j {
                            } else if w > j {
                            }
                            assert(w == j);
                        }
                        return Some(t.clone());
                    }
                },
                None => {},
            }
        }
        assert(!names_node(node_views(nodes@), i as int, j as int));
        j = j + 1;
    }
    assert(!exists|k: int| 0 <= k < nodes@.len() && names_node(node_views(nodes@), i as int, k));
    match &nodes[i].text {
        Some(t) => {
            let h = heading(t.as_str());
            if h.as_str().unicode_len() > 0 {
                Some(h)
            } else {
                None
            }
        },
        None => None,
    }
}

/// The name of the nearest node enclosing the line (from `leaf` up) whose
/// kind is one of `kinds`.
pub fn enclosing_name(nodes: &Vec<SyntaxNode>, leaf: Option<usize>, kinds: &[&str]) -> (r: Option<
    String,
>)
    requires
        tree_wf(node_views(nodes@)),
    ensures
        crate::text::opt_chars(r) == match enclosing_from(node_views(nodes@), leaf, kind_views(kinds)) {
            Some(i) => name_of(node_views(nodes@), i),
            None => None,
        },
{
    match find_enclosing_node(nodes, leaf, kinds) {
        Some(i) => {
            proof {
                lemma_enclosing_in_range(node_views(nodes@), leaf->0 as int, kind_views(kinds));
            }
            node_name(nodes, i)
        },
        None => None,
    }
}

/// The scope search ends, if anywhere, at a node of the tree.
pub proof fn lemma_enclosing_in_range(nodes: Seq<SyntaxNodeView>, from: int, kinds: Seq<Seq<char>>)
    ensures
        enclosing(nodes, from, kinds) matches Some(i) ==> 0 <= i < nodes.len(),
    decreases from + 1,
{
    if 0 <= from < nodes.len() && !kinds.contains(nodes[from].kind) {
        if let Some(p) = nodes[from].parent {
            if p < from {
                lemma_enclosing_in_range(nodes, p as int, kinds);
            }
        }
    }
}

/// Whether a node is an import: a direct child of the root, of an import
/// kind, with text that is not blank.
pub open spec fn is_import(n: SyntaxNodeView, kinds: Seq<Seq<char>>) -> bool {
    &&& n.parent == Some(0usize)
    &&& kinds.contains(n.kind)
    &&& n.text is Some
    &&& trim_ws(n.text->0).len() > 0
}

/// The imports of a file: the trimmed, non-empty texts of the root's
/// direct children whose kind is one of `kinds`, in order.
pub open spec fn imports_of(nodes: Seq<SyntaxNodeView>, kinds: Seq<Seq<char>>) -> Seq<Seq<char>>
    decreases nodes.len(),
{
    if nodes.len() == 0 {
        Seq::empty()
    } else {
        let n = nodes.last();
        imports_of(nodes.drop_last(), kinds) + (if is_import(n, kinds) {
            seq![trim_ws(n.text->0)]
        } else {
            Seq::empty()
        })
    }
}

/// Collects the imports: the root's direct children of an import kind.
pub fn extract_imports(nodes: &Vec<SyntaxNode>, kinds: &[&str]) -> (v: Vec<String>)
    ensures
        crate::text::views(v@) == (if kinds@.len() == 0 {
            Seq::empty()
        } else {
            imports_of(node_views(nodes@), kind_views(kinds))
        }),
{
    let mut out: Vec<String> = Vec::new();
    if kinds.len() == 0 {
        assert(crate::text::views(out@) =~= Seq::<Seq<char>>::empty());
        return out;
    }
    let n = nodes.len();
    assert(crate::text::views(out@) =~= imports_of(node_views(nodes@).take(0), kind_views(kinds)));
    for i in 0..n
        invariant
            n == nodes@.len(),
            crate::text::views(out@) == imports_of(node_views(nodes@).take(i as int), kind_views(kinds)),
    {
        let c = &nodes[i];
        proof {
            assert(node_views(nodes@).take(i + 1).drop_last() =~= node_views(nodes@).take(i as int));
        }
        let direct = match c.parent {
            Some(p) => p == 0,
            None => false,
        };
        let mut pushed = false;
        if direct && kind_in(c.kind.as_str(), kinds) {
            match &c.text {
                Some(t) => {
                    let s = trim(t.as_str());
                    if s.as_str().unicode_len() > 0 {
                        assert(crate::text::views(out@.push(s)) =~= crate::text::views(out@).push(s@));
                        out.push(s);
                        pushed = true;
                    }
                },
                None => {},
            }
        }
        if !pushed {
            assert(crate::text::views(out@) + Seq::<Seq<char>>::empty() =~= crate::text::views(out@));
        }
    }
    assert(node_views(nodes@).take(n as int) =~= node_views(nodes@));
    out
}

/// The name of the nearest node enclosing the line whose kind is one of
/// `kinds`, if there is one.
pub open spec fn scope_name(nodes: Seq<SyntaxNodeView>, leaf: Option<usize>, kinds: Seq<Seq<char>>) -> Option<Seq<char>> {
    match enclosing_from(nodes, leaf, kinds) {
        Some(i) => name_of(nodes, i),
        None => None,
    }
}

/// A file's imports; none without import kinds.
pub open spec fn imports_for(nodes: Seq<SyntaxNodeView>, kinds: Seq<Seq<char>>) -> Seq<Seq<char>> {
    if kinds.len() == 0 {
        Seq::empty()
    } else {
        imports_of(nodes, kinds)
    }
}

/// The body of the small function enclosing row `row`, split at the row,
/// when there is an enclosing function and it is small.
pub open spec fn body_window(
    ls: Seq<Seq<char>>,
    nodes: Seq<SyntaxNodeView>,
    leaf: Option<usize>,
    function_kinds: Seq<Seq<char>>,
    row: int,
) -> Option<(Seq<Seq<char>>, Seq<Seq<char>>)> {
    match enclosing_from(nodes, leaf, function_kinds) {
        Some(i) => function_window(ls, row, nodes[i].start_row as int, nodes[i].end_row as int),
        None => None,
    }
}

/// The enclosing function's rows, if any, fit the lines of the file.
pub open spec fn scope_fits(
    source: Seq<char>,
    line: u32,
    tree: Option<Seq<SyntaxNodeView>>,
    leaf: Option<usize>,
    kinds: Option<(Seq<Seq<char>>, Seq<Seq<char>>, Seq<Seq<char>>)>,
) -> bool {
    match (tree, kinds) {
        (Some(ns), Some(k)) => match enclosing_from(ns, leaf, k.0) {
            Some(i) => function_window_fits(
                lines_of(source),
                line_index(line),
                ns[i].start_row as int,
                ns[i].end_row as int,
            ),
            None => true,
        },
        _ => true,
    }
}

/// The evidence for a finding in a file with text `source`: the scanner's
/// snippet (else the source line) and the line window around the line;
/// when the file was parsed (`tree`, with `leaf` the smallest node at the
/// line) and its language has scope kinds, the body of a small enclosing
/// function replaces the window, and the enclosing function's and class's
/// names and the file's imports are filled in.
pub open spec fn scoped_evidence(
    snippet: Option<Seq<char>>,
    source: Seq<char>,
    line: u32,
    tree: Option<Seq<SyntaxNodeView>>,
    leaf: Option<usize>,
    kinds: Option<(Seq<Seq<char>>, Seq<Seq<char>>, Seq<Seq<char>>)>,
) -> EvidenceView {
    let ls = lines_of(source);
    let row = line_index(line);
    let matched = match snippet {
        Some(m) => m,
        None => line_at(ls, row),
    };
    let before = lines_before(ls, row, CONTEXT_LINES as int);
    let after = lines_after(ls, row, CONTEXT_LINES as int);
    match (tree, kinds) {
        (Some(ns), Some(k)) => {
            let w = body_window(ls, ns, leaf, k.0, row);
            EvidenceView {
                matched_code: matched,
                context_before: match w {
                    Some(p) => p.0,
                    None => before,
                },
                context_after: match w {
                    Some(p) => p.1,
                    None => after,
                },
                enclosing_function: scope_name(ns, leaf, k.0),
                enclosing_class: scope_name(ns, leaf, k.1),
                imports: imports_for(ns, k.2),
            }
        },
        _ => EvidenceView {
            matched_code: matched,
            context_before: before,
            context_after: after,
            enclosing_function: None,
            enclosing_class: None,
            imports: Seq::empty(),
        },
    }
}

/// Builds the evidence block of one finding from its file's text and, when
/// the file was parsed, its syntax tree (see [`scoped_evidence`]).
pub fn finding_evidence(
    finding: &RawFinding,
    source: &str,
    tree: Option<&Vec<SyntaxNode>>,
    leaf: Option<usize>,
    kinds: Option<&LanguageNodeKinds>,
) -> (b: EvidenceBlock)
    requires
        tree matches Some(ns) ==> tree_wf(node_views(ns@)),
        scope_fits(source@, finding.line, opt_node_views(tree), leaf, opt_kind_views(kinds)),
    ensures
        b@ == scoped_evidence(
            opt_view(finding.matched_code),
            source@,
            finding.line,
            opt_node_views(tree),
            leaf,
            opt_kind_views(kinds),
        ),
{
    let ghost e = scoped_evidence(
        opt_view(finding.matched_code),
        source@,
        finding.line,
        opt_node_views(tree),
        leaf,
        opt_kind_views(kinds),
    );
    let (source_line, line_before, line_after) = extract_context(source, finding.line, CONTEXT_LINES);
    let matched = match &finding.matched_code {
        Some(m) => m.clone(),
        None => source_line,
    };
    match (tree, kinds) {
        (Some(ns), Some(k)) => {
            let row = line_to_index(finding.line);
            let mut before = line_before;
            let mut after = line_after;
            match find_enclosing_node(ns, leaf, k.function_kinds) {
                Some(i) => {
                    proof {
                        lemma_enclosing_in_range(node_views(ns@), leaf->0 as int, kind_views(k.function_kinds));
                        assert(node_views(ns@)[i as int] == ns@[i as int]@);
                    }
                    let lines = split_lines(source);
                    match small_function_context(&lines, row, ns[i].start_row, ns[i].end_row) {
                        Some((b, a)) => {
                            before = b;
                            after = a;
                        },
                        None => {},
                    }
                },
                None => {},
            }
            let b = EvidenceBlock {
                matched_code: matched,
                context_before: before,
                context_after: after,
                enclosing_function: enclosing_name(ns, leaf, k.function_kinds),
                enclosing_class: enclosing_name(ns, leaf, k.class_kinds),
                imports: extract_imports(ns, k.import_kinds),
            };
            proof {
                assert(views(b.context_before@) =~= e.context_before);
                assert(views(b.context_after@) =~= e.context_after);
                assert(views(b.imports@) =~= e.imports);
            }
            b
        },
        _ => {
            let b = EvidenceBlock::from_line_window(matched, line_before, line_after);
            proof {
                assert(views(b.imports@) =~= Seq::<Seq<char>>::empty());
            }
            b
        },
    }
}

} // verus!
