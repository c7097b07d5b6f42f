use rguard::issue::priority::file_freq_map;
use rguard::issue::evidence::language_node_kinds;
use rguard::issue::builder::{make_id, IssueBuilder};
use rguard::issue::evidence::{
    extract_context, extract_evidence_block, line_to_index, small_function_context, EvidenceBlock,
};
use rguard::issue::fix::{AutoFixTool, FixCategory};
use rguard::issue::fix_meta::{FixComplexity, FixMetadata};
use rguard::issue::priority::{priority_level, wsjf_score, PriorityLevel};
use rguard::issue::syntax::{enclosing_name, extract_imports, find_enclosing_node, finding_evidence, SyntaxNode};
use rguard::issue::verification::VerificationInfo;
use rguard::scanner::RawFinding;

// ── priority ────────────────────────────────────────────────────────────────

#[test]
fn error_auto_fixable_formatter_max_score() {
    // error(40) + auto_fixable(20) + formatter(20) + freq=10(10) - no_cross(0) = 90
    let score = wsjf_score("error", true, Some("formatter"), 10, false);
    assert_eq!(score, 90);
}

#[test]
fn info_no_fix_no_freq() {
    let score = wsjf_score("info", false, None, 0, false);
    assert_eq!(score, 5);
}

#[test]
fn cross_file_penalty_applied() {
    // warning(20) + no_fix(0) + no_cat(0) + freq=5(5) - cross_file(10) = 15
    let score = wsjf_score("warning", false, None, 5, true);
    assert_eq!(score, 15);
}

#[test]
fn file_freq_capped_at_10() {
    let score_100 = wsjf_score("error", false, None, 100, false);
    let score_10 = wsjf_score("error", false, None, 10, false);
    assert_eq!(score_100, score_10, "file_freq must be capped at 10");
    assert_eq!(score_100, 50);
}

#[test]
fn linter_category_scores_15() {
    let score = wsjf_score("error", true, Some("linter"), 0, false);
    assert_eq!(score, 75);
}

#[test]
fn priority_level_thresholds() {
    assert_eq!(priority_level(90), PriorityLevel::Critical);
    assert_eq!(priority_level(70), PriorityLevel::Critical);
    assert_eq!(priority_level(69), PriorityLevel::High);
    assert_eq!(priority_level(40), PriorityLevel::High);
    assert_eq!(priority_level(39), PriorityLevel::Medium);
    assert_eq!(priority_level(20), PriorityLevel::Medium);
    assert_eq!(priority_level(19), PriorityLevel::Low);
    assert_eq!(priority_level(0), PriorityLevel::Low);
}

#[test]
fn wsjf_security_and_deps_categories() {
    // error(40) + auto_fix(20) + security(15) + freq 3 = 78
    assert_eq!(wsjf_score("error", true, Some("security"), 3, false), 78);
    // warning(20) + deps(10) = 30
    assert_eq!(wsjf_score("warning", false, Some("deps"), 0, false), 30);
    // unknown severity scores 0, any other category 10; cross-file takes 10 away
    assert_eq!(wsjf_score("bogus", false, Some("other"), 0, true), 0);
    assert_eq!(
        wsjf_score("error", true, Some("custom"), 2, false),
        wsjf_score("error", true, Some("ast"), 2, false)
    );
    // no severity, no category, cross-file: the lowest score
    assert_eq!(wsjf_score("bogus", false, None, 0, true), -10);
    assert_eq!(priority_level(-10), PriorityLevel::Low);
}

// ── verification ────────────────────────────────────────────────────────────

#[test]
fn semgrep_rerun_command_includes_rule() {
    let info = VerificationInfo::from_scanner("semgrep", "python.security.eval");
    assert!(info.rerun_command.contains("python.security.eval"));
}

#[test]
fn clippy_rerun_command() {
    let info = VerificationInfo::from_scanner("clippy", "clippy::needless_return");
    assert_eq!(info.rerun_command, "cargo clippy");
}

#[test]
fn unknown_scanner_falls_back_to_rguard() {
    let info = VerificationInfo::from_scanner("custom", "some-rule");
    assert!(info.rerun_command.contains("rguard"));
}

#[test]
fn success_condition_mentions_rule() {
    let info = VerificationInfo::from_scanner("trivy", "CVE-2023-12345");
    assert!(info.success_condition.contains("CVE-2023-12345"));
}

#[test]
fn success_condition_exact_text() {
    let info = VerificationInfo::from_scanner("trivy", "CVE-1");
    assert_eq!(info.success_condition, "no CVE-1 findings reported");
}

// ── fix (categories and tools) ──────────────────────────────────────────────

#[test]
fn fix_scanner_autofix_when_replacement_present() {
    let meta = rguard::issue::fix::FixMetadata::from_finding(
        "semgrep",
        "python.lang.security.eval-injection",
        Some("ast.literal_eval(user_input)"),
    );
    assert_eq!(meta.category, FixCategory::ScannerAutofix);
    assert_eq!(meta.tool, AutoFixTool::Semgrep);
    assert!(meta.snippet.is_some());
    assert!(meta.command.unwrap().contains("semgrep"));
}

#[test]
fn fix_clippy_fix_detected() {
    let meta = rguard::issue::fix::FixMetadata::from_finding("clippy", "clippy::needless_return", None);
    assert_eq!(meta.category, FixCategory::FormatterApplicable);
    assert_eq!(meta.tool, AutoFixTool::Clippy);
}

#[test]
fn fix_manual_when_no_known_fix() {
    let meta = rguard::issue::fix::FixMetadata::from_finding("trivy", "CVE-2023-12345", None);
    assert_eq!(meta.category, FixCategory::Manual);
    assert_eq!(meta.tool, AutoFixTool::NoTool);
}

// ── fix_meta ────────────────────────────────────────────────────────────────

#[test]
fn fix_meta_scanner_autofix_when_replacement_present() {
    let meta = FixMetadata::from_finding(
        "semgrep",
        "python.lang.security.eval-injection",
        Some("ast.literal_eval(user_input)"),
    );
    assert!(meta.auto_fixable);
    assert!(meta.auto_fix_tool.is_some());
    assert!(meta.auto_fix_category.is_some());
    assert_eq!(
        meta.suggested_replacement.as_deref(),
        Some("ast.literal_eval(user_input)")
    );
    assert_eq!(meta.complexity, FixComplexity::Trivial);
}

#[test]
fn fix_meta_clippy_fix_detected() {
    let meta = FixMetadata::from_finding("clippy", "clippy::needless_return", None);
    assert!(meta.auto_fixable);
    assert_eq!(meta.auto_fix_category.as_deref(), Some("linter"));
    assert_eq!(meta.complexity, FixComplexity::Trivial);
}

#[test]
fn fix_meta_manual_when_no_known_fix() {
    let meta = FixMetadata::from_finding("trivy", "CVE-2023-12345", None);
    assert!(!meta.auto_fixable);
    assert!(meta.auto_fix_tool.is_none());
    assert!(meta.auto_fix_category.is_none());
}

#[test]
fn manual_constructor() {
    let meta = FixMetadata::manual(FixComplexity::Complex);
    assert!(!meta.auto_fixable);
    assert_eq!(meta.complexity, FixComplexity::Complex);
}

// ── evidence ────────────────────────────────────────────────────────────────

#[test]
fn scanner_code_used_as_matched_code() {
    let block = extract_evidence_block(Some("let x = eval(input)"), "main.rs", 1, Some("fn foo() {}\n"));
    assert_eq!(block.matched_code, "let x = eval(input)");
}

#[test]
fn context_lines_extracted() {
    let src = "line1\nline2\nline3\nline4\nline5\n";
    let block = extract_evidence_block(None, "file.txt", 3, Some(src));
    assert!(!block.context_before.is_empty(), "context_before should be populated");
    assert!(!block.context_after.is_empty(), "context_after should be populated");
    assert_eq!(block.matched_code, "line3");
    assert_eq!(block.context_before, vec!["line1", "line2"]);
    assert_eq!(block.context_after, vec!["line4", "line5"]);
}

#[test]
fn empty_block_for_unknown_file() {
    let block = extract_evidence_block(None, "does_not_exist.py", 0, None);
    assert_eq!(block.matched_code, "");
    assert!(block.context_before.is_empty());
    assert!(block.context_after.is_empty());
    assert!(block.enclosing_function.is_none());
    assert!(block.enclosing_class.is_none());
    assert!(block.imports.is_empty());
}

#[test]
fn project_level_finding_ignores_source() {
    let block = extract_evidence_block(Some("x"), "<project>", 3, Some("a\nb\nc\n"));
    assert_eq!(block.matched_code, "x");
    assert!(block.context_before.is_empty());
}

#[test]
fn from_line_window_constructor() {
    let block = EvidenceBlock::from_line_window(
        "eval(x)".to_string(),
        vec!["# before".to_string()],
        vec!["# after".to_string()],
    );
    assert_eq!(block.matched_code, "eval(x)");
    assert!(block.enclosing_function.is_none());
    assert!(block.enclosing_class.is_none());
}

#[test]
fn line_to_index_converts_correctly() {
    assert_eq!(line_to_index(1), 0);
    assert_eq!(line_to_index(10), 9);
    assert_eq!(line_to_index(0), 0);
}

#[test]
fn extract_context_edge_line1() {
    let source = "aaa\nbbb\nccc\n";
    let (matched, before, after) = extract_context(source, 1, 5);
    assert_eq!(matched, "aaa");
    assert_eq!(before.len(), 0, "no lines before line 1");
    assert_eq!(after.len(), 2);
}

#[test]
fn extract_context_middle() {
    let source = (1..=20).map(|i| format!("line{i}")).collect::<Vec<_>>().join("\n");
    let (matched, before, after) = extract_context(&source, 10, 5);
    assert_eq!(matched, "line10");
    assert_eq!(before.len(), 5);
    assert_eq!(after.len(), 5);
    assert_eq!(before[0], "line5");
    assert_eq!(after[4], "line15");
}

#[test]
fn extract_context_crlf_and_past_end() {
    let (matched, before, after) = extract_context("a\r\nb\r\nc", 2, 1);
    assert_eq!(matched, "b");
    assert_eq!(before, vec!["a"]);
    assert_eq!(after, vec!["c"]);
    let (matched, before, after) = extract_context("a\nb\n", 3, 5);
    assert_eq!(matched, "");
    assert_eq!(before, vec!["a", "b"]);
    assert!(after.is_empty());
}

#[test]
fn small_function_body_replaces_window() {
    let lines: Vec<String> = (0..10).map(|i| format!("l{i}")).collect();
    // function on rows 2..=6, finding on row 4
    let (before, after) = small_function_context(&lines, 4, 2, 6).expect("small function");
    assert_eq!(before, vec!["l2", "l3"]);
    assert_eq!(after, vec!["l5", "l6"]);
    // a function of 15 lines or more keeps the line window
    assert!(small_function_context(&lines, 4, 0, 20).is_none());
}

// ── builder ─────────────────────────────────────────────────────────────────

fn make_finding(scanner: &str, severity: &str, line: u32) -> RawFinding {
    RawFinding {
        scanner: scanner.to_string(),
        rule_id: "test-rule".to_string(),
        severity: severity.to_string(),
        file_path: "src/lib.rs".to_string(),
        line,
        message: "test message".to_string(),
        matched_code: None,
        suggested_replacement: None,
    }
}

#[test]
fn id_is_stable() {
    let f = make_finding("semgrep", "warning", 42);
    let id = make_id(&f);
    assert_eq!(id, "semgrep/test-rule@src/lib.rs:42");
}

#[test]
fn build_produces_unknown_evidence_for_missing_file() {
    let f = make_finding("clippy", "error", 10);
    let issue = IssueBuilder::build(&f, None);
    assert_eq!(issue.evidence.matched_code, "");
    assert!(issue.evidence.context_before.is_empty());
    assert!(issue.evidence.context_after.is_empty());
    assert!(issue.evidence.enclosing_function.is_none());
}

#[test]
fn build_priority_is_high_for_clippy_error() {
    let f = make_finding("clippy", "error", 1);
    let issue = IssueBuilder::build(&f, Some("fn main() {}\n"));
    assert!(priority_level(issue.priority_score) >= PriorityLevel::Medium);
    // error(40) + clippy auto-fix(20) + linter(15) + one finding in the file(1)
    assert_eq!(issue.priority_score, 76);
    assert_eq!(issue.priority_tier, "critical");
    assert_eq!(issue.evidence.matched_code, "fn main() {}");
}

// ── syntax tree questions ───────────────────────────────────────────────────

fn node(kind: &str, start: usize, end: usize, parent: Option<usize>, text: Option<&str>) -> SyntaxNode {
    SyntaxNode {
        kind: kind.to_string(),
        start_row: start,
        end_row: end,
        parent,
        text: text.map(|t| t.to_string()),
    }
}

fn sample_tree() -> Vec<SyntaxNode> {
    vec![
        node("source_file", 0, 9, None, Some("use a::b;\nfn run() {\n  go();\n}")),
        node("use_declaration", 0, 0, Some(0), Some("  use a::b;  ")),
        node("function_item", 1, 3, Some(0), Some("fn run() {\n  go();\n}")),
        node("identifier", 1, 1, Some(2), Some("run")),
        node("block", 1, 3, Some(2), Some("{\n  go();\n}")),
        node("call_expression", 2, 2, Some(4), Some("go()")),
    ]
}

#[test]
fn enclosing_function_found_from_leaf() {
    let tree = sample_tree();
    assert_eq!(find_enclosing_node(&tree, Some(5), &["function_item"]), Some(2));
    assert_eq!(enclosing_name(&tree, Some(5), &["function_item"]), Some("run".to_string()));
    assert_eq!(find_enclosing_node(&tree, Some(5), &[]), None);
    assert_eq!(find_enclosing_node(&tree, None, &["function_item"]), None);
    assert_eq!(enclosing_name(&tree, Some(1), &["struct_item"]), None);
}

#[test]
fn enclosing_name_falls_back_to_first_line() {
    let tree = vec![
        node("program", 0, 3, None, Some("x")),
        node("class", 0, 3, Some(0), Some("  class Foo < Bar\n  def x; end\nend")),
        node("call", 1, 1, Some(1), Some("def x")),
    ];
    assert_eq!(enclosing_name(&tree, Some(2), &["class"]), Some("class Foo < Bar".to_string()));
}

#[test]
fn imports_are_root_children_trimmed() {
    let tree = sample_tree();
    assert_eq!(extract_imports(&tree, &["use_declaration"]), vec!["use a::b;"]);
    assert!(extract_imports(&tree, &[]).is_empty());
}

#[test]
fn file_freq_map_counts_findings_per_file() {
    let mut a = make_finding("semgrep", "error", 1);
    a.file_path = "a.rs".to_string();
    let mut b = make_finding("semgrep", "error", 2);
    b.file_path = "b.rs".to_string();
    let mut c = make_finding("trivy", "warning", 3);
    c.file_path = "a.rs".to_string();
    let m = file_freq_map(&[a, b, c]);
    assert_eq!(m.get("a.rs").copied(), Some(2));
    assert_eq!(m.get("b.rs").copied(), Some(1));
    assert_eq!(m.get("c.rs"), None);
}

#[test]
fn language_node_kinds_by_extension() {
    let rs = language_node_kinds("rs").expect("rust kinds");
    assert_eq!(rs.function_kinds, &["function_item"]);
    assert_eq!(rs.class_kinds, &["struct_item", "impl_item", "trait_item"]);
    assert_eq!(rs.import_kinds, &["use_declaration"]);
    let sh = language_node_kinds("sh").expect("shell kinds");
    assert!(sh.class_kinds.is_empty());
    assert!(language_node_kinds("txt").is_none());
}

#[test]
fn finding_evidence_uses_small_function_body_and_scope() {
    let source = "use a::b;\nfn run() {\n  go();\n}\nfn other() {}\n";
    let tree = sample_tree();
    let kinds = language_node_kinds("rs").expect("rust kinds");
    let mut f = make_finding("semgrep", "error", 3);
    f.file_path = "src/main.rs".to_string();
    let b = finding_evidence(&f, source, Some(&tree), Some(5), Some(&kinds));
    assert_eq!(b.matched_code, "  go();");
    assert_eq!(b.context_before, vec!["fn run() {"]);
    assert_eq!(b.context_after, vec!["}"]);
    assert_eq!(b.enclosing_function, Some("run".to_string()));
    assert_eq!(b.enclosing_class, None);
    assert_eq!(b.imports, vec!["use a::b;"]);
}

#[test]
fn finding_evidence_without_tree_is_the_line_window() {
    let source = "l1\nl2\nl3\nl4\nl5\nl6\nl7\nl8\n";
    let mut f = make_finding("semgrep", "error", 7);
    f.matched_code = Some("snippet".to_string());
    let b = finding_evidence(&f, source, None, None, None);
    assert_eq!(b.matched_code, "snippet");
    assert_eq!(b.context_before, vec!["l2", "l3", "l4", "l5", "l6"]);
    assert_eq!(b.context_after, vec!["l8"]);
    assert_eq!(b.enclosing_function, None);
    assert!(b.imports.is_empty());
}

#[test]
fn extract_context_past_the_end() {
    let (m, before, after) = extract_context("aaa\nbbb\nccc\n", 20, 5);
    assert_eq!(m, "");
    assert!(before.is_empty());
    assert!(after.is_empty());
    let (m, before, after) = extract_context("aaa\nbbb\nccc\n", 7, 5);
    assert_eq!(m, "");
    assert_eq!(before, vec!["bbb", "ccc"]);
    assert!(after.is_empty());
}
