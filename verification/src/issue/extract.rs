//! Evidence for every finding of one file: the file is parsed once with the
//! grammar its extension names, and each finding's evidence is answered
//! from that one syntax tree.
use vstd::prelude::*;

use crate::issue::evidence::{
    function_window_fits, kind_views, language_node_kinds, line_index, line_to_index, node_kinds_for,
    EvidenceBlock, EvidenceView, LanguageNodeKinds, SMALL_FUNCTION_LINES,
};
use crate::issue::fix_meta::opt_view;
use crate::issue::syntax::{
    find_enclosing_node, finding_evidence, lemma_enclosing_in_range, node_views, opt_kind_views, opt_node_views,
    scope_fits, scoped_evidence, tree_wf, SyntaxNode, SyntaxNodeView,
};
use crate::paths::{path_ext, path_extension};
use crate::scanner::RawFinding;
use crate::text::{lines_of, split_lines, str_eq, to_lowercase, unicode_lower, views};

verus! {

/// The bundled tree-sitter grammars.
#[derive(Debug, Clone, Copy, PartialEq, Eq)]
pub enum Grammar {
    Python,
    Rust,
    Go,
    JavaScript,
    TypeScript,
    Tsx,
    Java,
    Php,
    CSharp,
    Ruby,
    Bash,
}

/// The grammar a (lowercased) file extension is parsed with.
pub open spec fn grammar_of(ext: Seq<char>) -> Option<Grammar> {
    if ext == "py"@ {
        Some(Grammar::Python)
    } else if ext == "rs"@ {
        Some(Grammar::Rust)
    } else if ext == "go"@ {
        Some(Grammar::Go)
    } else if ext == "js"@ || ext == "jsx"@ || ext == "mjs"@ || ext == "cjs"@ {
        Some(Grammar::JavaScript)
    } else if ext == "ts"@ {
        Some(Grammar::TypeScript)
    } else if ext == "tsx"@ {
        Some(Grammar::Tsx)
    } else if ext == "java"@ {
        Some(Grammar::Java)
    } else if ext == "php"@ {
        Some(Grammar::Php)
    } else if ext == "cs"@ {
        Some(Grammar::CSharp)
    } else if ext == "rb"@ {
        Some(Grammar::Ruby)
    } else if ext == "sh"@ || ext == "bash"@ {
        Some(Grammar::Bash)
    } else {
        None
    }
}

/// Each extension is parsed with its own language's grammar, and only the
/// extensions of a bundled grammar are parsed: TypeScript and TSX apart,
/// the JavaScript extensions together, `sh` and `bash` with Bash.
pub proof fn lemma_grammar_per_extension(ext: Seq<char>)
    ensures
        grammar_of(ext) == Some(Grammar::Python) <==> (ext == "py"@),
        grammar_of(ext) == Some(Grammar::Rust) <==> (ext == "rs"@),
        grammar_of(ext) == Some(Grammar::Go) <==> (ext == "go"@),
        grammar_of(ext) == Some(Grammar::JavaScript) <==> (ext == "js"@ || ext == "jsx"@
            || ext == "mjs"@ || ext == "cjs"@),
        grammar_of(ext) == Some(Grammar::TypeScript) <==> (ext == "ts"@),
        grammar_of(ext) == Some(Grammar::Tsx) <==> (ext == "tsx"@),
        grammar_of(ext) == Some(Grammar::Java) <==> (ext == "java"@),
        grammar_of(ext) == Some(Grammar::Php) <==> (ext == "php"@),
        grammar_of(ext) == Some(Grammar::CSharp) <==> (ext == "cs"@),
        grammar_of(ext) == Some(Grammar::Ruby) <==> (ext == "rb"@),
        grammar_of(ext) == Some(Grammar::Bash) <==> (ext == "sh"@ || ext == "bash"@),
        grammar_of(ext) is None <==> !(ext == "py"@ || ext == "rs"@ || ext == "go"@ || ext == "js"@
            || ext == "jsx"@ || ext == "mjs"@ || ext == "cjs"@ || ext == "ts"@ || ext == "tsx"@
            || ext == "java"@ || ext == "php"@ || ext == "cs"@ || ext == "rb"@ || ext == "sh"@
            || ext == "bash"@),
{
    reveal_strlit("py");
    reveal_strlit("rs");
    reveal_strlit("go");
    reveal_strlit("js");
    reveal_strlit("jsx");
    reveal_strlit("mjs");
    reveal_strlit("cjs");
    reveal_strlit("ts");
    reveal_strlit("tsx");
    reveal_strlit("java");
    reveal_strlit("php");
    reveal_strlit("cs");
    reveal_strlit("rb");
    reveal_strlit("sh");
    reveal_strlit("bash");
    assert("py"@.len() == 2 && "py"@[0] == 'p' && "py"@[1] == 'y');
    assert("rs"@.len() == 2 && "rs"@[0] == 'r' && "rs"@[1] == 's');
    assert("go"@.len() == 2 && "go"@[0] == 'g' && "go"@[1] == 'o');
    assert("js"@.len() == 2 && "js"@[0] == 'j' && "js"@[1] == 's');
    assert("jsx"@.len() == 3 && "jsx"@[0] == 'j' && "jsx"@[1] == 's');
    assert("mjs"@.len() == 3 && "mjs"@[0] == 'm' && "mjs"@[1] == 'j');
    assert("cjs"@.len() == 3 && "cjs"@[0] == 'c' && "cjs"@[1] == 'j');
    assert("ts"@.len() == 2 && "ts"@[0] == 't' && "ts"@[1] == 's');
    assert("tsx"@.len() == 3 && "tsx"@[0] == 't' && "tsx"@[1] == 's');
    assert("java"@.len() == 4 && "java"@[0] == 'j' && "java"@[1] == 'a');
    assert("php"@.len() == 3 && "php"@[0] == 'p' && "php"@[1] == 'h');
    assert("cs"@.len() == 2 && "cs"@[0] == 'c' && "cs"@[1] == 's');
    assert("rb"@.len() == 2 && "rb"@[0] == 'r' && "rb"@[1] == 'b');
    assert("sh"@.len() == 2 && "sh"@[0] == 's' && "sh"@[1] == 'h');
    assert("bash"@.len() == 4 && "bash"@[0] == 'b' && "bash"@[1] == 'a');
}

/// The grammar for a file extension; `None` for extensions without one.
pub fn grammar_for(ext: &str) -> (r: Option<Grammar>)
    ensures
        r == grammar_of(ext@),
{
    if str_eq(ext, "py") {
        Some(Grammar::Python)
    } else if str_eq(ext, "rs") {
        Some(Grammar::Rust)
    } else if str_eq(ext, "go") {
        Some(Grammar::Go)
    } else if str_eq(ext, "js") || str_eq(ext, "jsx") || str_eq(ext, "mjs") || str_eq(ext, "cjs") {
        Some(Grammar::JavaScript)
    } else if str_eq(ext, "ts") {
        Some(Grammar::TypeScript)
    } else if str_eq(ext, "tsx") {
        Some(Grammar::Tsx)
    } else if str_eq(ext, "java") {
        Some(Grammar::Java)
    } else if str_eq(ext, "php") {
        Some(Grammar::Php)
    } else if str_eq(ext, "cs") {
        Some(Grammar::CSharp)
    } else if str_eq(ext, "rb") {
        Some(Grammar::Ruby)
    } else if str_eq(ext, "sh") || str_eq(ext, "bash") {
        Some(Grammar::Bash)
    } else {
        None
    }
}

#[verifier::external_type_specification]
#[verifier::external_body]
pub struct ExTree(tree_sitter::Tree);

/// The nodes of the syntax tree that tree-sitter parses `source` into with
/// `grammar`, in pre-order, each with its kind, rows, parent position and
/// text; `None` when the grammar cannot be loaded or the parse gives up.
pub uninterp spec fn parsed_nodes(grammar: Grammar, source: Seq<char>) -> Option<Seq<SyntaxNodeView>>;

/// The position, among [`parsed_nodes`], of the smallest node that spans
/// column 0 of `row` (tree-sitter's `descendant_for_point_range`).
pub uninterp spec fn parsed_leaf(grammar: Grammar, source: Seq<char>, row: usize) -> Option<usize>;

/// The grammar a syntax tree was parsed with.
pub uninterp spec fn tree_grammar(t: tree_sitter::Tree) -> Grammar;

/// The text a syntax tree was parsed from.
pub uninterp spec fn tree_source(t: tree_sitter::Tree) -> Seq<char>;

/// `Parser::parse` with the grammar's language: the tree of `source`, or
/// `None` exactly when [`parsed_nodes`] is `None`.
#[verifier::external_body]
fn parse_tree(grammar: Grammar, source: &str) -> (r: Option<tree_sitter::Tree>)
    ensures
        r is Some <==> parsed_nodes(grammar, source@) is Some,
        r matches Some(t) ==> tree_grammar(t) == grammar && tree_source(t) == source@,
{
    let lang = match grammar {
        Grammar::Python => tree_sitter_python::LANGUAGE, Grammar::Rust => tree_sitter_rust::LANGUAGE,
        Grammar::Go => tree_sitter_go::LANGUAGE, Grammar::JavaScript => tree_sitter_javascript::LANGUAGE,
        Grammar::TypeScript => tree_sitter_typescript::LANGUAGE_TYPESCRIPT,
        Grammar::Tsx => tree_sitter_typescript::LANGUAGE_TSX, Grammar::Java => tree_sitter_java::LANGUAGE,
        Grammar::Php => tree_sitter_php::LANGUAGE_PHP, Grammar::CSharp => tree_sitter_c_sharp::LANGUAGE,
        Grammar::Ruby => tree_sitter_ruby::LANGUAGE, Grammar::Bash => tree_sitter_bash::LANGUAGE,
    };
    let mut parser = tree_sitter::Parser::new();
    parser.set_language(&lang.into()).ok()?;
    parser.parse(source, None)
}

/// The nodes of a tree, visited by `TreeCursor::goto_descendant` in
/// descendant order (pre-order, so every parent comes before its
/// children); each parent is the position `goto_parent` moves to.
#[verifier::external_body]
fn tree_syntax_nodes(t: &tree_sitter::Tree, source: &str) -> (r: Vec<SyntaxNode>)
    requires
        tree_source(*t) == source@,
    ensures
        parsed_nodes(tree_grammar(*t), source@) == Some(node_views(r@)),
        tree_wf(node_views(r@)),
{
    let mut c = t.walk();
    (0..t.root_node().descendant_count()).map(|i| {
        c.goto_descendant(i);
        let n = c.node();
        let parent = if c.goto_parent() { Some(c.descendant_index()) } else { None };
        let text = n.utf8_text(source.as_bytes()).ok().map(|s| s.to_string());
        let (start_row, end_row) = (n.start_position().row, n.end_position().row);
        SyntaxNode { kind: n.kind().to_string(), start_row, end_row, parent, text }
    }).collect()
}

/// `Node::descendant_for_point_range` at column 0 of `row`, the node
/// given as its position in descendant order.
#[verifier::external_body]
fn tree_leaf(t: &tree_sitter::Tree, row: usize) -> (r: Option<usize>)
    ensures
        r == parsed_leaf(tree_grammar(*t), tree_source(*t), row),
{
    let p = tree_sitter::Point { row, column: 0 };
    let leaf = t.root_node().descendant_for_point_range(p, p)?;
    let mut c = t.walk();
    (0..t.root_node().descendant_count()).find(|&i| {
        c.goto_descendant(i);
        c.node() == leaf
    })
}

/// The lowercased extension of a file path, empty when it has none.
pub open spec fn file_ext(file_path: Seq<char>) -> Seq<char> {
    unicode_lower(
        match path_ext(file_path) {
            Some(e) => e,
            None => ""@,
        },
    )
}

/// The parsed syntax tree of a file, if its extension has a grammar.
pub open spec fn file_tree(file_path: Seq<char>, source: Seq<char>) -> Option<Seq<SyntaxNodeView>> {
    match grammar_of(file_ext(file_path)) {
        Some(g) => parsed_nodes(g, source),
        None => None,
    }
}

/// The smallest node of a file's tree at a finding's line.
pub open spec fn file_leaf(file_path: Seq<char>, source: Seq<char>, line: u32) -> Option<usize> {
    match grammar_of(file_ext(file_path)) {
        Some(g) => parsed_leaf(g, source, line_index(line) as usize),
        None => None,
    }
}

/// The evidence of one finding of a file (see [`scoped_evidence`]).
pub open spec fn file_finding_evidence(file_path: Seq<char>, source: Seq<char>, f: RawFinding) -> EvidenceView {
    scoped_evidence(
        opt_view(f.matched_code),
        source,
        f.line,
        file_tree(file_path, source),
        file_leaf(file_path, source, f.line),
        node_kinds_for(file_ext(file_path)),
    )
}

/// The enclosing small function of a finding can be cut from the file's
/// lines (see [`scope_fits`]).
pub open spec fn file_finding_fits(file_path: Seq<char>, source: Seq<char>, f: RawFinding) -> bool {
    scope_fits(
        source,
        f.line,
        file_tree(file_path, source),
        file_leaf(file_path, source, f.line),
        node_kinds_for(file_ext(file_path)),
    )
}

fn window_fits(lines: &Vec<String>, finding_row: usize, start_row: usize, end_row: usize) -> (b: bool)
    ensures
        b == function_window_fits(views(lines@), finding_row as int, start_row as int, end_row as int),
{
    let body = if end_row >= start_row {
        end_row - start_row
    } else {
        0
    };
    if body >= SMALL_FUNCTION_LINES - 1 {
        return true;
    }
    let n = lines.len();
    if n == 0 {
        return false;
    }
    let func_end = if end_row < n - 1 {
        end_row
    } else {
        n - 1
    };
    let limit = if finding_row < func_end + 1 {
        finding_row
    } else {
        func_end + 1
    };
    start_row <= limit && finding_row < usize::MAX
}

fn fits_scope(
    lines: &Vec<String>,
    source: &str,
    line: u32,
    tree: Option<&Vec<SyntaxNode>>,
    leaf: Option<usize>,
    kinds: Option<&LanguageNodeKinds>,
) -> (b: bool)
    requires
        views(lines@) == lines_of(source@),
        tree matches Some(ns) ==> tree_wf(node_views(ns@)),
    ensures
        b == scope_fits(source@, line, opt_node_views(tree), leaf, opt_kind_views(kinds)),
{
    match (tree, kinds) {
        (Some(ns), Some(k)) => match find_enclosing_node(ns, leaf, k.function_kinds) {
            Some(i) => {
                proof {
                    lemma_enclosing_in_range(node_views(ns@), leaf->0 as int, kind_views(k.function_kinds));
                }
                assert(node_views(ns@)[i as int] == ns@[i as int]@);
                window_fits(lines, line_to_index(line), ns[i].start_row, ns[i].end_row)
            },
            None => true,
        },
        _ => true,
    }
}

/// Evidence for every finding of one file, each keyed by its rule and line,
/// in the order of the findings. The file is parsed once, with the grammar
/// of its lowercased extension. `None` when the small function enclosing
/// some finding cannot be cut from the file's lines.
pub fn extract_file(file_path: &str, source: &str, findings: &[RawFinding]) -> (r: Option<
    Vec<((String, u32), EvidenceBlock)>,
>)
    ensures
        r is Some <==> forall|i: int|
            0 <= i < findings@.len() ==> file_finding_fits(file_path@, source@, #[trigger] findings@[i]),
        r matches Some(v) ==> {
            &&& v@.len() == findings@.len()
            &&& forall|i: int|
                0 <= i < findings@.len() ==> {
                    &&& (#[trigger] v@[i]).0.0@ == findings@[i].rule_id@
                    &&& v@[i].0.1 == findings@[i].line
                    &&& v@[i].1@ == file_finding_evidence(file_path@, source@, findings@[i])
                }
        },
{
    let ext_raw = path_extension(file_path);
    let ext = match &ext_raw {
        Some(e) => to_lowercase(e.as_str()),
        None => to_lowercase(""),
    };
    assert(ext@ == file_ext(file_path@));
    let kinds = language_node_kinds(ext.as_str());
    let grammar = grammar_for(ext.as_str());
    let tree = match grammar {
        Some(g) => parse_tree(g, source),
        None => None,
    };
    let nodes = match &tree {
        Some(t) => Some(tree_syntax_nodes(t, source)),
        None => None,
    };
    let ghost ftree = file_tree(file_path@, source@);
    let ghost fkinds = node_kinds_for(file_ext(file_path@));
    let nref = nodes.as_ref();
    let kref = kinds.as_ref();
    assert(opt_node_views(nref) == ftree);
    assert(opt_kind_views(kref) == fkinds);
    let lines = split_lines(source);
    let mut out: Vec<((String, u32), EvidenceBlock)> = Vec::new();
    let n = findings.len();
    for i in 0..n
        invariant
            n == findings@.len(),
            views(lines@) == lines_of(source@),
            nref matches Some(ns) ==> tree_wf(node_views(ns@)),
            opt_node_views(nref) == ftree,
            opt_kind_views(kref) == fkinds,
            ftree == file_tree(file_path@, source@),
            fkinds == node_kinds_for(file_ext(file_path@)),
            tree is Some <==> nref is Some,
            tree matches Some(t) ==> grammar_of(file_ext(file_path@)) == Some(tree_grammar(t))
                && tree_source(t) == source@,
            out@.len() == i,
            forall|j: int| 0 <= j < i ==> file_finding_fits(file_path@, source@, #[trigger] findings@[j]),
            forall|j: int|
                0 <= j < i ==> {
                    &&& (#[trigger] out@[j]).0.0@ == findings@[j].rule_id@
                    &&& out@[j].0.1 == findings@[j].line
                    &&& out@[j].1@ == file_finding_evidence(file_path@, source@, findings@[j])
                },
    {
        let f = &findings[i];
        let leaf = match &tree {
            Some(t) => tree_leaf(t, line_to_index(f.line)),
            None => None,
        };
        let ghost fleaf = file_leaf(file_path@, source@, f.line);
        assert(tree is Some ==> leaf == fleaf);
        if !fits_scope(&lines, source, f.line, nref, leaf, kref) {
            assert(!file_finding_fits(file_path@, source@, findings@[i as int]));
            return None;
        }
        let b = finding_evidence(f, source, nref, leaf, kref);
        assert(b@ == file_finding_evidence(file_path@, source@, findings@[i as int]));
        out.push(((f.rule_id.clone(), f.line), b));
    }
    Some(out)
}

} // verus!
