//! Evidence for findings: the flagged code, the surrounding lines, and the
//! per-language syntax node kinds used to locate enclosing scopes.
use vstd::prelude::*;

use crate::issue::fix_meta::opt_str_view;
use crate::text::{
    blank, copy_opt, copy_strings, is_blank, lines_of, opt_chars, owned, split_lines, str_eq, views,
};

verus! {

/// Pre-embedded code evidence for a finding.
#[derive(Debug, Clone)]
pub struct EvidenceBlock {
    /// The flagged code snippet.
    pub matched_code: String,
    /// Lines immediately before the finding.
    pub context_before: Vec<String>,
    /// Lines immediately after the finding.
    pub context_after: Vec<String>,
    /// Name of the enclosing function, if known.
    pub enclosing_function: Option<String>,
    /// Name of the enclosing class/struct, if known.
    pub enclosing_class: Option<String>,
    /// File-level import statements.
    pub imports: Vec<String>,
}

/// The content of an evidence block.
pub struct EvidenceView {
    pub matched_code: Seq<char>,
    pub context_before: Seq<Seq<char>>,
    pub context_after: Seq<Seq<char>>,
    pub enclosing_function: Option<Seq<char>>,
    pub enclosing_class: Option<Seq<char>>,
    pub imports: Seq<Seq<char>>,
}

impl View for EvidenceBlock {
    type V = EvidenceView;

    open spec fn view(&self) -> EvidenceView {
        EvidenceView {
            matched_code: self.matched_code@,
            context_before: views(self.context_before@),
            context_after: views(self.context_after@),
            enclosing_function: opt_chars(self.enclosing_function),
            enclosing_class: opt_chars(self.enclosing_class),
            imports: views(self.imports@),
        }
    }
}

impl EvidenceBlock {
    /// A copy with the same content.
    pub fn copy(&self) -> (r: Self)
        ensures
            r@ == self@,
    {
        EvidenceBlock {
            matched_code: self.matched_code.clone(),
            context_before: copy_strings(&self.context_before),
            context_after: copy_strings(&self.context_after),
            enclosing_function: copy_opt(&self.enclosing_function),
            enclosing_class: copy_opt(&self.enclosing_class),
            imports: copy_strings(&self.imports),
        }
    }

    /// A block made of a snippet and a line window, with no scope data.
    pub fn from_line_window(
        matched_code: String,
        context_before: Vec<String>,
        context_after: Vec<String>,
    ) -> (b: Self)
        ensures
            b.matched_code == matched_code,
            b.context_before == context_before,
            b.context_after == context_after,
            b.enclosing_function is None,
            b.enclosing_class is None,
            b.imports@.len() == 0,
    {
        EvidenceBlock {
            matched_code,
            context_before,
            context_after,
            enclosing_function: None,
            enclosing_class: None,
            imports: Vec::new(),
        }
    }
}

/// Number of context lines above and below the finding.
pub const CONTEXT_LINES: usize = 5;

/// Functions shorter than this many lines are shown whole as context.
pub const SMALL_FUNCTION_LINES: usize = 15;

/// The 0-based index of a 1-based line number (0 maps to 0).
pub open spec fn line_index(line: u32) -> int {
    if line == 0 {
        0
    } else {
        line - 1
    }
}

/// Converts a 1-based line number to a 0-based index (`saturating_sub(1)`).
pub fn line_to_index(line: u32) -> (idx: usize)
    ensures
        idx == line_index(line),
{
    if line == 0 {
        0
    } else {
        (line - 1) as usize
    }
}

/// The smaller of two integers.
pub open spec fn min_int(a: int, b: int) -> int {
    if a <= b {
        a
    } else {
        b
    }
}

/// The larger of two integers.
pub open spec fn max_int(a: int, b: int) -> int {
    if a >= b {
        a
    } else {
        b
    }
}

/// The line at 0-based index `idx`, or empty when out of range.
pub open spec fn line_at(ls: Seq<Seq<char>>, idx: int) -> Seq<char> {
    if 0 <= idx < ls.len() {
        ls[idx]
    } else {
        Seq::empty()
    }
}

/// Up to `window` lines before index `idx`: those of the lines that lie
/// in `idx - window .. idx` (none when that range is past the end).
pub open spec fn lines_before(ls: Seq<Seq<char>>, idx: int, window: int) -> Seq<Seq<char>> {
    let start = max_int(0, idx - window);
    let end = min_int(idx, ls.len() as int);
    if start <= end {
        ls.subrange(start, end)
    } else {
        Seq::empty()
    }
}

/// Up to `window` lines after index `idx` (none when `idx` is past the end).
pub open spec fn lines_after(ls: Seq<Seq<char>>, idx: int, window: int) -> Seq<Seq<char>> {
    if idx < ls.len() {
        ls.subrange(idx + 1, min_int(idx + 1 + window, ls.len() as int))
    } else {
        Seq::empty()
    }
}

fn clone_range(ls: &Vec<String>, from: usize, to: usize) -> (out: Vec<String>)
    requires
        from <= to <= ls@.len(),
    ensures
        views(out@) == views(ls@).subrange(from as int, to as int),
{
    let mut out: Vec<String> = Vec::new();
    for k in from..to
        invariant
            from <= to <= ls@.len(),
            views(out@) == views(ls@).subrange(from as int, k as int),
    {
        let line = ls[k].clone();
        proof {
            assert(views(out@.push(line)) =~= views(out@).push(line@));
            assert(views(ls@).subrange(from as int, k + 1) =~= views(ls@).subrange(
                from as int,
                k as int,
            ).push(ls@[k as int]@));
        }
        out.push(line);
    }
    out
}

/// Extracts `(matched_line, context_before, context_after)` around the
/// 1-based `line` of `source`, with up to `window` lines on each side.
pub fn extract_context(source: &str, line: u32, window: usize) -> (r: (
    String,
    Vec<String>,
    Vec<String>,
))
    ensures
        r.0@ == line_at(lines_of(source@), line_index(line)),
        views(r.1@) == lines_before(lines_of(source@), line_index(line), window as int),
        views(r.2@) == lines_after(lines_of(source@), line_index(line), window as int),
{
    let lines = split_lines(source);
    let idx = line_to_index(line);
    let n = lines.len();
    let matched = if idx < n {
        lines[idx].clone()
    } else {
        String::new()
    };
    let before_start = if idx >= window {
        idx - window
    } else {
        0
    };
    let before_end = if idx < n {
        idx
    } else {
        n
    };
    let before = if before_start <= before_end {
        clone_range(&lines, before_start, before_end)
    } else {
        let v: Vec<String> = Vec::new();
        assert(views(v@) =~= Seq::<Seq<char>>::empty());
        v
    };
    let after = if idx < n {
        let after_end = if window < n - (idx + 1) {
            idx + 1 + window
        } else {
            n
        };
        clone_range(&lines, idx + 1, after_end)
    } else {
        Vec::new()
    };
    proof {
        if idx >= n {
            assert(views(after@) =~= Seq::<Seq<char>>::empty());
        }
    }
    (matched, before, after)
}

/// The evidence for a finding given the scanner snippet and, when it could
/// be read, the source text: with a known line, a real file and a source,
/// the line window is cut from the source (the source line standing in for
/// a blank snippet); otherwise the snippet alone.
pub open spec fn evidence_uses_source(file_path: Seq<char>, line: u32, source: Option<&str>) -> bool {
    line > 0 && file_path != "<project>"@ && source is Some
}

/// Whether the source file is consulted for a finding at all.
pub fn needs_source(file_path: &str, line: u32) -> (r: bool)
    ensures
        r == (line > 0 && file_path@ != "<project>"@),
{
    line > 0 && !str_eq(file_path, "<project>")
}

/// `b` is the line-window evidence for a finding with the given scanner
/// snippet, file and line, when the file's source text is `source`: with a
/// known line, a real file and a source, the window is cut from the source
/// (the source line standing in for a blank snippet); otherwise the snippet
/// alone. No scope data is filled in.
pub open spec fn is_evidence_for(
    b: EvidenceBlock,
    scanner_code: Option<Seq<char>>,
    file_path: Seq<char>,
    line: u32,
    source: Option<Seq<char>>,
) -> bool {
    let snippet = match scanner_code {
        Some(c) => c,
        None => Seq::empty(),
    };
    &&& b.enclosing_function is None
    &&& b.enclosing_class is None
    &&& b.imports@.len() == 0
    &&& if line > 0 && file_path != "<project>"@ && source is Some {
        let ls = lines_of(source.unwrap());
        &&& b.matched_code@ == (if blank(snippet) {
            line_at(ls, line_index(line))
        } else {
            snippet
        })
        &&& views(b.context_before@) == lines_before(ls, line_index(line), CONTEXT_LINES as int)
        &&& views(b.context_after@) == lines_after(ls, line_index(line), CONTEXT_LINES as int)
    } else {
        &&& b.matched_code@ == snippet
        &&& b.context_before@.len() == 0
        &&& b.context_after@.len() == 0
    }
}

/// Builds the evidence block for a finding from the scanner snippet and the
/// source text of its file (`None` when the file could not be read).
pub fn extract_evidence_block(
    scanner_code: Option<&str>,
    file_path: &str,
    line: u32,
    source: Option<&str>,
) -> (b: EvidenceBlock)
    ensures
        is_evidence_for(b, opt_str_view(scanner_code), file_path@, line, opt_str_view(source)),
{
    let matched_code = match scanner_code {
        Some(c) => owned(c),
        None => String::new(),
    };
    if needs_source(file_path, line) {
        if let Some(src) = source {
            let (source_line, context_before, context_after) = extract_context(
                src,
                line,
                CONTEXT_LINES,
            );
            let code = if is_blank(matched_code.as_str()) {
                source_line
            } else {
                matched_code
            };
            return EvidenceBlock::from_line_window(code, context_before, context_after);
        }
    }
    EvidenceBlock::from_line_window(matched_code, Vec::new(), Vec::new())
}

/// When the enclosing function spans fewer than `SMALL_FUNCTION_LINES`
/// lines (rows `start_row..=end_row`, 0-based), the whole function body is
/// the context: the body lines before the finding row and those after it.
pub open spec fn function_window(
    ls: Seq<Seq<char>>,
    finding_row: int,
    start_row: int,
    end_row: int,
) -> Option<(Seq<Seq<char>>, Seq<Seq<char>>)> {
    let body = max_int(end_row - start_row, 0) + 1;
    if body < SMALL_FUNCTION_LINES {
        let func_end = min_int(end_row, max_int(ls.len() - 1, 0));
        let before_end = min_int(finding_row, func_end + 1);
        let after_start = min_int(finding_row + 1, func_end + 1);
        Some((ls.subrange(start_row, before_end), ls.subrange(after_start, func_end + 1)))
    } else {
        None
    }
}

/// The function-body window can be cut: there is at least one line and the
/// function starts no later than the end of the lines before the finding.
pub open spec fn function_window_fits(
    ls: Seq<Seq<char>>,
    finding_row: int,
    start_row: int,
    end_row: int,
) -> bool {
    let body = max_int(end_row - start_row, 0) + 1;
    body < SMALL_FUNCTION_LINES ==> {
        let func_end = min_int(end_row, max_int(ls.len() - 1, 0));
        &&& ls.len() > 0
        &&& start_row <= min_int(finding_row, func_end + 1)
        &&& finding_row + 1 <= usize::MAX
    }
}

/// Replaces the line window by the body of a small enclosing function
/// (see [`function_window`]); `None` when the function is not small.
pub fn small_function_context(
    lines: &Vec<String>,
    finding_row: usize,
    start_row: usize,
    end_row: usize,
) -> (r: Option<(Vec<String>, Vec<String>)>)
    requires
        function_window_fits(views(lines@), finding_row as int, start_row as int, end_row as int),
    ensures
        match function_window(views(lines@), finding_row as int, start_row as int, end_row as int) {
            Some((b, a)) => r matches Some((rb, ra)) && views(rb@) == b && views(ra@) == a,
            None => r is None,
        },
{
    let body = if end_row >= start_row {
        end_row - start_row
    } else {
        0
    };
    if body >= SMALL_FUNCTION_LINES - 1 {
        return None;
    }
    let n = lines.len();
    let last = if n > 0 {
        n - 1
    } else {
        0
    };
    let func_end = if end_row < last {
        end_row
    } else {
        last
    };
    let before_end = if finding_row < func_end + 1 {
        finding_row
    } else {
        func_end + 1
    };
    let after_start = if finding_row + 1 < func_end + 1 {
        finding_row + 1
    } else {
        func_end + 1
    };
    let before = clone_range(lines, start_row, before_end);
    let after = clone_range(lines, after_start, func_end + 1);
    Some((before, after))
}

/// Per-language syntax node kinds for scope detection and import extraction.
pub struct LanguageNodeKinds {
    /// Node kinds of function or method definitions.
    pub function_kinds: &'static [&'static str],
    /// Node kinds of class, struct, trait or interface definitions.
    pub class_kinds: &'static [&'static str],
    /// Node kinds of file-level import statements.
    pub import_kinds: &'static [&'static str],
}

/// The characters of each kind name.
pub open spec fn kind_views(k: &[&str]) -> Seq<Seq<char>> {
    k@.map_values(|s: &str| s@)
}

/// The node kinds (functions, classes, imports) for a file extension.
pub open spec fn node_kinds_for(ext: Seq<char>) -> Option<(Seq<Seq<char>>, Seq<Seq<char>>, Seq<Seq<char>>)> {
    if ext == "py"@ {
        Some((seq!["function_definition"@], seq!["class_definition"@], seq!["import_statement"@, "import_from_statement"@]))
    } else if ext == "rs"@ {
        Some((seq!["function_item"@], seq!["struct_item"@, "impl_item"@, "trait_item"@], seq!["use_declaration"@]))
    } else if ext == "go"@ {
        Some((seq!["function_declaration"@, "method_declaration"@], seq!["type_declaration"@], seq!["import_declaration"@]))
    } else if ext == "js"@ || ext == "jsx"@ || ext == "mjs"@ || ext == "cjs"@ || ext == "ts"@ || ext == "tsx"@ {
        Some((seq!["function_declaration"@, "arrow_function"@, "method_definition"@], seq!["class_declaration"@], seq!["import_statement"@]))
    } else if ext == "java"@ {
        Some((seq!["method_declaration"@], seq!["class_declaration"@], seq!["import_declaration"@]))
    } else if ext == "kt"@ {
        Some((seq!["function_declaration"@], seq!["class_declaration"@], seq!["import_header"@]))
    } else if ext == "php"@ {
        Some((seq!["function_definition"@], seq!["class_declaration"@], seq!["namespace_use_declaration"@]))
    } else if ext == "cs"@ {
        Some((seq!["method_declaration"@], seq!["class_declaration"@], seq!["using_directive"@]))
    } else if ext == "rb"@ {
        Some((seq!["method"@, "singleton_method"@], seq!["class"@, "module"@], seq!["call"@]))
    } else if ext == "sh"@ || ext == "bash"@ {
        Some((seq!["function_definition"@], Seq::empty(), seq!["command"@]))
    } else if ext == "dart"@ {
        Some((seq!["function_signature"@, "method_signature"@], seq!["class_definition"@], seq!["import_or_export"@]))
    } else {
        None
    }
}

/// Every supported language counts its functions and its methods as
/// functions: the function kinds hold each language's function kind and,
/// where the grammar has one, its method kind (Go's `method_declaration`,
/// JavaScript's and TypeScript's `method_definition` and arrow functions,
/// Java's and C#'s `method_declaration`, Ruby's `method` and
/// `singleton_method`, Dart's `method_signature`).
pub proof fn lemma_function_kinds_cover_methods(ext: Seq<char>)
    ensures
        ext == "go"@ ==> (node_kinds_for(ext) matches Some(k) && k.0.contains("function_declaration"@)
            && k.0.contains("method_declaration"@)),
        ext == "js"@ || ext == "jsx"@ || ext == "mjs"@ || ext == "cjs"@ || ext == "ts"@ || ext == "tsx"@
            ==> (node_kinds_for(ext) matches Some(k) && k.0.contains("function_declaration"@)
            && k.0.contains("method_definition"@) && k.0.contains("arrow_function"@)),
        ext == "java"@ || ext == "cs"@ ==> (node_kinds_for(ext) matches Some(k) && k.0.contains(
            "method_declaration"@,
        )),
        ext == "rb"@ ==> (node_kinds_for(ext) matches Some(k) && k.0.contains("method"@) && k.0.contains(
            "singleton_method"@,
        )),
        ext == "dart"@ ==> (node_kinds_for(ext) matches Some(k) && k.0.contains("function_signature"@)
            && k.0.contains("method_signature"@)),
        ext == "py"@ || ext == "php"@ || ext == "sh"@ || ext == "bash"@ ==> (node_kinds_for(ext) matches Some(
            k,
        ) && k.0.contains("function_definition"@)),
        ext == "rs"@ ==> (node_kinds_for(ext) matches Some(k) && k.0.contains("function_item"@)),
        ext == "kt"@ ==> (node_kinds_for(ext) matches Some(k) && k.0.contains("function_declaration"@)),
{
    reveal_strlit("py");
    reveal_strlit("rs");
    reveal_strlit("go");
    reveal_strlit("js");
    reveal_strlit("jsx");
    reveal_strlit("mjs");
    reveal_strlit("cjs");
    reveal_strlit("ts");
    reveal_strlit("tsx");
    reveal_strlit("java");
    reveal_strlit("kt");
    reveal_strlit("php");
    reveal_strlit("cs");
    reveal_strlit("rb");
    reveal_strlit("sh");
    reveal_strlit("bash");
    reveal_strlit("dart");
    assert("py"@.len() == 2 && "py"@[0] == 'p' && "py"@[1] == 'y');
    assert("rs"@.len() == 2 && "rs"@[0] == 'r' && "rs"@[1] == 's');
    assert("go"@.len() == 2 && "go"@[0] == 'g' && "go"@[1] == 'o');
    assert("js"@.len() == 2 && "js"@[0] == 'j' && "js"@[1] == 's');
    assert("jsx"@.len() == 3 && "jsx"@[0] == 'j' && "jsx"@[1] == 's');
    assert("mjs"@.len() == 3 && "mjs"@[0] == 'm' && "mjs"@[1] == 'j');
    assert("cjs"@.len() == 3 && "cjs"@[0] == 'c' && "cjs"@[1] == 'j');
    assert("ts"@.len() == 2 && "ts"@[0] == 't' && "ts"@[1] == 's');
    assert("tsx"@.len() == 3 && "tsx"@[0] == 't' && "tsx"@[1] == 's');
    assert("java"@.len() == 4 && "java"@[0] == 'j' && "java"@[1] == 'a');
    assert("kt"@.len() == 2 && "kt"@[0] == 'k' && "kt"@[1] == 't');
    assert("php"@.len() == 3 && "php"@[0] == 'p' && "php"@[1] == 'h');
    assert("cs"@.len() == 2 && "cs"@[0] == 'c' && "cs"@[1] == 's');
    assert("rb"@.len() == 2 && "rb"@[0] == 'r' && "rb"@[1] == 'b');
    assert("sh"@.len() == 2 && "sh"@[0] == 's' && "sh"@[1] == 'h');
    assert("bash"@.len() == 4 && "bash"@[0] == 'b' && "bash"@[1] == 'a');
    assert("dart"@.len() == 4 && "dart"@[0] == 'd' && "dart"@[1] == 'a');
    let fk = node_kinds_for(ext)->0;
    let f = fk.0;
    if ext == "go"@ {
        assert(f[0] == "function_declaration"@);
        assert(f[1] == "method_declaration"@);
    }
    if ext == "js"@ || ext == "jsx"@ || ext == "mjs"@ || ext == "cjs"@ || ext == "ts"@ || ext == "tsx"@ {
        assert(f[0] == "function_declaration"@);
        assert(f[1] == "arrow_function"@);
        assert(f[2] == "method_definition"@);
    }
    if ext == "java"@ || ext == "cs"@ {
        assert(f[0] == "method_declaration"@);
    }
    if ext == "rb"@ {
        assert(f[0] == "method"@);
        assert(f[1] == "singleton_method"@);
    }
    if ext == "dart"@ {
        assert(f[0] == "function_signature"@);
        assert(f[1] == "method_signature"@);
    }
    if ext == "py"@ || ext == "php"@ || ext == "sh"@ || ext == "bash"@ {
        assert(f[0] == "function_definition"@);
    }
    if ext == "rs"@ {
        assert(f[0] == "function_item"@);
    }
    if ext == "kt"@ {
        assert(f[0] == "function_declaration"@);
    }
}

/// The class and import kinds of every supported language, and which
/// extensions are supported: a language's class kinds hold its class (or
/// struct, trait, type, module) definitions and its import kinds its
/// import statements; any other extension has no kinds.
pub proof fn lemma_scope_kinds_per_language(ext: Seq<char>)
    ensures
        ext == "py"@ ==> (node_kinds_for(ext) matches Some(k) && k.1.contains("class_definition"@)
            && k.2.contains("import_statement"@) && k.2.contains("import_from_statement"@)),
        ext == "rs"@ ==> (node_kinds_for(ext) matches Some(k) && k.1.contains("struct_item"@)
            && k.1.contains("impl_item"@) && k.1.contains("trait_item"@)
            && k.2.contains("use_declaration"@)),
        ext == "go"@ ==> (node_kinds_for(ext) matches Some(k) && k.1.contains("type_declaration"@)
            && k.2.contains("import_declaration"@)),
        ext == "js"@ || ext == "jsx"@ || ext == "mjs"@ || ext == "cjs"@ || ext == "ts"@
            || ext == "tsx"@ ==> (node_kinds_for(ext) matches Some(k)
            && k.1.contains("class_declaration"@) && k.2.contains("import_statement"@)),
        ext == "java"@ ==> (node_kinds_for(ext) matches Some(k)
            && k.1.contains("class_declaration"@) && k.2.contains("import_declaration"@)),
        ext == "kt"@ ==> (node_kinds_for(ext) matches Some(k) && k.1.contains("class_declaration"@)
            && k.2.contains("import_header"@)),
        ext == "php"@ ==> (node_kinds_for(ext) matches Some(k) && k.1.contains("class_declaration"@)
            && k.2.contains("namespace_use_declaration"@)),
        ext == "cs"@ ==> (node_kinds_for(ext) matches Some(k) && k.1.contains("class_declaration"@)
            && k.2.contains("using_directive"@)),
        ext == "rb"@ ==> (node_kinds_for(ext) matches Some(k) && k.1.contains("class"@)
            && k.1.contains("module"@) && k.2.contains("call"@)),
        ext == "sh"@ || ext == "bash"@ ==> (node_kinds_for(ext) matches Some(k)
            && k.2.contains("command"@) && k.1.len() == 0),
        ext == "dart"@ ==> (node_kinds_for(ext) matches Some(k) && k.1.contains("class_definition"@)
            && k.2.contains("import_or_export"@)),
        node_kinds_for(ext) is Some <==> (ext == "py"@ || ext == "rs"@ || ext == "go"@
            || ext == "js"@ || ext == "jsx"@ || ext == "mjs"@ || ext == "cjs"@ || ext == "ts"@
            || ext == "tsx"@ || ext == "java"@ || ext == "kt"@ || ext == "php"@ || ext == "cs"@
            || ext == "rb"@ || ext == "sh"@ || ext == "bash"@ || ext == "dart"@),
{
    reveal_strlit("py");
    reveal_strlit("rs");
    reveal_strlit("go");
    reveal_strlit("js");
    reveal_strlit("jsx");
    reveal_strlit("mjs");
    reveal_strlit("cjs");
    reveal_strlit("ts");
    reveal_strlit("tsx");
    reveal_strlit("java");
    reveal_strlit("kt");
    reveal_strlit("php");
    reveal_strlit("cs");
    reveal_strlit("rb");
    reveal_strlit("sh");
    reveal_strlit("bash");
    reveal_strlit("dart");
    assert("py"@.len() == 2 && "py"@[0] == 'p' && "py"@[1] == 'y');
    assert("rs"@.len() == 2 && "rs"@[0] == 'r' && "rs"@[1] == 's');
    assert("go"@.len() == 2 && "go"@[0] == 'g' && "go"@[1] == 'o');
    assert("js"@.len() == 2 && "js"@[0] == 'j' && "js"@[1] == 's');
    assert("jsx"@.len() == 3 && "jsx"@[0] == 'j' && "jsx"@[1] == 's');
    assert("mjs"@.len() == 3 && "mjs"@[0] == 'm' && "mjs"@[1] == 'j');
    assert("cjs"@.len() == 3 && "cjs"@[0] == 'c' && "cjs"@[1] == 'j');
    assert("ts"@.len() == 2 && "ts"@[0] == 't' && "ts"@[1] == 's');
    assert("tsx"@.len() == 3 && "tsx"@[0] == 't' && "tsx"@[1] == 's');
    assert("java"@.len() == 4 && "java"@[0] == 'j' && "java"@[1] == 'a');
    assert("kt"@.len() == 2 && "kt"@[0] == 'k' && "kt"@[1] == 't');
    assert("php"@.len() == 3 && "php"@[0] == 'p' && "php"@[1] == 'h');
    assert("cs"@.len() == 2 && "cs"@[0] == 'c' && "cs"@[1] == 's');
    assert("rb"@.len() == 2 && "rb"@[0] == 'r' && "rb"@[1] == 'b');
    assert("sh"@.len() == 2 && "sh"@[0] == 's' && "sh"@[1] == 'h');
    assert("bash"@.len() == 4 && "bash"@[0] == 'b' && "bash"@[1] == 'a');
    assert("dart"@.len() == 4 && "dart"@[0] == 'd' && "dart"@[1] == 'a');
    if node_kinds_for(ext) is Some {
        let fk = node_kinds_for(ext)->0;
        if ext == "py"@ {
            assert(fk.1[0] == "class_definition"@);
            assert(fk.2[0] == "import_statement"@);
            assert(fk.2[1] == "import_from_statement"@);
        }
        if ext == "rs"@ {
            assert(fk.1[0] == "struct_item"@);
            assert(fk.1[1] == "impl_item"@);
            assert(fk.1[2] == "trait_item"@);
            assert(fk.2[0] == "use_declaration"@);
        }
        if ext == "go"@ {
            assert(fk.1[0] == "type_declaration"@);
            assert(fk.2[0] == "import_declaration"@);
        }
        if ext == "js"@ || ext == "jsx"@ || ext == "mjs"@ || ext == "cjs"@ || ext == "ts"@ || ext == "tsx"@ {
            assert(fk.1[0] == "class_declaration"@);
            assert(fk.2[0] == "import_statement"@);
        }
        if ext == "java"@ {
            assert(fk.1[0] == "class_declaration"@);
            assert(fk.2[0] == "import_declaration"@);
        }
        if ext == "kt"@ {
            assert(fk.1[0] == "class_declaration"@);
            assert(fk.2[0] == "import_header"@);
        }
        if ext == "php"@ {
            assert(fk.1[0] == "class_declaration"@);
            assert(fk.2[0] == "namespace_use_declaration"@);
        }
        if ext == "cs"@ {
            assert(fk.1[0] == "class_declaration"@);
            assert(fk.2[0] == "using_directive"@);
        }
        if ext == "rb"@ {
            assert(fk.1[0] == "class"@);
            assert(fk.1[1] == "module"@);
            assert(fk.2[0] == "call"@);
        }
        if ext == "sh"@ || ext == "bash"@ {
            assert(fk.2[0] == "command"@);
        }
        if ext == "dart"@ {
            assert(fk.1[0] == "class_definition"@);
            assert(fk.2[0] == "import_or_export"@);
        }
    }
}

fn kinds(
    f: &'static [&'static str],
    c: &'static [&'static str],
    i: &'static [&'static str],
) -> (k: LanguageNodeKinds)
    ensures
        k.function_kinds == f,
        k.class_kinds == c,
        k.import_kinds == i,
{
    LanguageNodeKinds { function_kinds: f, class_kinds: c, import_kinds: i }
}

/// The node kinds for a file extension; `None` for unsupported extensions.
pub fn language_node_kinds(ext: &str) -> (r: Option<LanguageNodeKinds>)
    ensures
        match node_kinds_for(ext@) {
            Some((f, c, i)) => r matches Some(k) && kind_views(k.function_kinds) == f
                && kind_views(k.class_kinds) == c && kind_views(k.import_kinds) == i,
            None => r is None,
        },
{
    if str_eq(ext, "py") {
        let r = kinds(&["function_definition"], &["class_definition"], &["import_statement", "import_from_statement"]);
        assert(kind_views(r.function_kinds) =~= seq!["function_definition"@]);
        assert(kind_views(r.class_kinds) =~= seq!["class_definition"@]);
        assert(kind_views(r.import_kinds) =~= seq!["import_statement"@, "import_from_statement"@]);
        Some(r)
    } else if str_eq(ext, "rs") {
        let r = kinds(&["function_item"], &["struct_item", "impl_item", "trait_item"], &["use_declaration"]);
        assert(kind_views(r.function_kinds) =~= seq!["function_item"@]);
        assert(kind_views(r.class_kinds) =~= seq!["struct_item"@, "impl_item"@, "trait_item"@]);
        assert(kind_views(r.import_kinds) =~= seq!["use_declaration"@]);
        Some(r)
    } else if str_eq(ext, "go") {
        let r = kinds(&["function_declaration", "method_declaration"], &["type_declaration"], &["import_declaration"]);
        assert(kind_views(r.function_kinds) =~= seq!["function_declaration"@, "method_declaration"@]);
        assert(kind_views(r.class_kinds) =~= seq!["type_declaration"@]);
        assert(kind_views(r.import_kinds) =~= seq!["import_declaration"@]);
        Some(r)
    } else if str_eq(ext, "js") || str_eq(ext, "jsx") || str_eq(ext, "mjs") || str_eq(ext, "cjs") || str_eq(ext, "ts") || str_eq(ext, "tsx") {
        let r = kinds(&["function_declaration", "arrow_function", "method_definition"], &["class_declaration"], &["import_statement"]);
        assert(kind_views(r.function_kinds) =~= seq!["function_declaration"@, "arrow_function"@, "method_definition"@]);
        assert(kind_views(r.class_kinds) =~= seq!["class_declaration"@]);
        assert(kind_views(r.import_kinds) =~= seq!["import_statement"@]);
        Some(r)
    } else if str_eq(ext, "java") {
        let r = kinds(&["method_declaration"], &["class_declaration"], &["import_declaration"]);
        assert(kind_views(r.function_kinds) =~= seq!["method_declaration"@]);
        assert(kind_views(r.class_kinds) =~= seq!["class_declaration"@]);
        assert(kind_views(r.import_kinds) =~= seq!["import_declaration"@]);
        Some(r)
    } else if str_eq(ext, "kt") {
        let r = kinds(&["function_declaration"], &["class_declaration"], &["import_header"]);
        assert(kind_views(r.function_kinds) =~= seq!["function_declaration"@]);
        assert(kind_views(r.class_kinds) =~= seq!["class_declaration"@]);
        assert(kind_views(r.import_kinds) =~= seq!["import_header"@]);
        Some(r)
    } else if str_eq(ext, "php") {
        let r = kinds(&["function_definition"], &["class_declaration"], &["namespace_use_declaration"]);
        assert(kind_views(r.function_kinds) =~= seq!["function_definition"@]);
        assert(kind_views(r.class_kinds) =~= seq!["class_declaration"@]);
        assert(kind_views(r.import_kinds) =~= seq!["namespace_use_declaration"@]);
        Some(r)
    } else if str_eq(ext, "cs") {
        let r = kinds(&["method_declaration"], &["class_declaration"], &["using_directive"]);
        assert(kind_views(r.function_kinds) =~= seq!["method_declaration"@]);
        assert(kind_views(r.class_kinds) =~= seq!["class_declaration"@]);
        assert(kind_views(r.import_kinds) =~= seq!["using_directive"@]);
        Some(r)
    } else if str_eq(ext, "rb") {
        let r = kinds(&["method", "singleton_method"], &["class", "module"], &["call"]);
        assert(kind_views(r.function_kinds) =~= seq!["method"@, "singleton_method"@]);
        assert(kind_views(r.class_kinds) =~= seq!["class"@, "module"@]);
        assert(kind_views(r.import_kinds) =~= seq!["call"@]);
        Some(r)
    } else if str_eq(ext, "sh") || str_eq(ext, "bash") {
        let r = kinds(&["function_definition"], &[], &["command"]);
        assert(kind_views(r.function_kinds) =~= seq!["function_definition"@]);
        assert(kind_views(r.class_kinds) =~= Seq::<Seq<char>>::empty());
        assert(kind_views(r.import_kinds) =~= seq!["command"@]);
        Some(r)
    } else if str_eq(ext, "dart") {
        let r = kinds(&["function_signature", "method_signature"], &["class_definition"], &["import_or_export"]);
        assert(kind_views(r.function_kinds) =~= seq!["function_signature"@, "method_signature"@]);
        assert(kind_views(r.class_kinds) =~= seq!["class_definition"@]);
        assert(kind_views(r.import_kinds) =~= seq!["import_or_export"@]);
        Some(r)
    } else {
        None
    }
}

} // verus!
