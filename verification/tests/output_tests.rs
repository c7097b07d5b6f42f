use rguard::issue::evidence::EvidenceBlock;
use rguard::issue::fix_meta::{FixComplexity, FixMetadata};
use rguard::issue::verification::VerificationInfo;
use rguard::issue::Issue;
use rguard::output::files::{normalize_path, prepare_output, split_fixable, summary_table, truncate};
use rguard::output::summary::ScanSummary;
use rguard::output::{sort_issues, OutputWriter};
use rguard::strmap::StrMap;

fn make_issue(severity: &str, auto_fixable: bool, score: i32) -> Issue {
    Issue {
        id: format!("test-{severity}-{score}"),
        rule_id: "test-rule".to_string(),
        severity: severity.to_string(),
        file_path: "src/lib.rs".to_string(),
        line: 1,
        message: "test message".to_string(),
        scanner: "semgrep".to_string(),
        evidence: EvidenceBlock {
            matched_code: String::new(),
            context_before: vec![],
            context_after: vec![],
            enclosing_function: None,
            enclosing_class: None,
            imports: vec![],
        },
        fix: FixMetadata {
            auto_fixable,
            auto_fix_tool: None,
            auto_fix_category: None,
            suggested_replacement: None,
            complexity: FixComplexity::Trivial,
        },
        verification: VerificationInfo {
            rerun_command: "rguard scan .".to_string(),
            success_condition: "no findings".to_string(),
        },
        priority_score: score,
        priority_tier: "medium".to_string(),
        cross_file: false,
    }
}

#[test]
fn sort_by_priority_highest_first() {
    let mut issues = vec![
        make_issue("info", false, 5),
        make_issue("error", true, 90),
        make_issue("warning", false, 20),
    ];
    OutputWriter::sort_by_priority(&mut issues);
    assert_eq!(issues[0].priority_score, 90);
    assert_eq!(issues[1].priority_score, 20);
    assert_eq!(issues[2].priority_score, 5);
}

#[test]
fn build_summary_counts() {
    let issues = vec![
        make_issue("error", true, 90),
        make_issue("warning", false, 20),
        make_issue("info", false, 5),
    ];
    let summary = OutputWriter::build_summary(
        &issues,
        "/project",
        "2026-03-11T00:00:00Z",
        vec!["semgrep".to_string()],
        1000,
    );
    assert_eq!(summary.total_issues, 3);
    assert_eq!(summary.fixable_count, 1);
    assert_eq!(summary.remaining_count, 2);
    assert_eq!(*summary.by_severity.get("error").unwrap(), 1);
    assert_eq!(*summary.by_severity.get("warning").unwrap(), 1);
    assert_eq!(summary.scanned_at, "2026-03-11T00:00:00Z");
    assert_eq!(summary.schema_version, "1.0");
}

#[test]
fn empty_issues_summary() {
    let summary = OutputWriter::build_summary(&[], "/project", "2026-03-11T00:00:00Z", vec![], 0);
    assert_eq!(summary.total_issues, 0);
    assert_eq!(summary.fixable_count, 0);
    assert_eq!(summary.remaining_count, 0);
}

#[test]
fn sort_issues_fn_highest_first() {
    let mut issues = vec![
        make_issue("info", false, 5),
        make_issue("error", true, 90),
        make_issue("warning", false, 20),
    ];
    sort_issues(&mut issues);
    assert_eq!(issues[0].priority_score, 90);
    assert_eq!(issues[2].priority_score, 5);
}

#[test]
fn sort_is_stable_for_equal_scores() {
    let mut a = make_issue("warning", false, 20);
    a.id = "first".to_string();
    let mut b = make_issue("warning", false, 20);
    b.id = "second".to_string();
    let mut issues = vec![make_issue("info", false, 5), a, b];
    sort_issues(&mut issues);
    assert_eq!(issues[0].id, "first");
    assert_eq!(issues[1].id, "second");
    assert_eq!(issues[2].priority_score, 5);
}

#[test]
fn normalize_path_converts_backslashes() {
    assert_eq!(normalize_path(r"src\foo\bar.py"), "src/foo/bar.py");
    assert_eq!(normalize_path("src/foo/bar.py"), "src/foo/bar.py");
}

#[test]
fn truncate_short_string_unchanged() {
    assert_eq!(truncate("hello", 10), "hello");
}

#[test]
fn truncate_long_string_cut() {
    let s = "a".repeat(60);
    assert_eq!(truncate(&s, 50).len(), 50);
}

#[test]
fn truncate_non_ascii_replaced() {
    let s = "hello\u{00e9}world";
    let result = truncate(s, 20);
    assert!(result.is_ascii());
    assert_eq!(result, "hello?world");
}

#[test]
fn scan_summary_fixable_plus_remaining_equals_total() {
    let summary = ScanSummary {
        schema_version: "1.0".to_string(),
        scanned_at: String::new(),
        project_path: String::new(),
        total_issues: 10,
        fixable_count: 3,
        remaining_count: 7,
        by_severity: StrMap::new(),
        by_complexity: StrMap::new(),
        scanners_run: vec![],
        scan_duration_ms: 0,
        fix_queue_by_category: StrMap::new(),
    };
    assert_eq!(summary.fixable_count + summary.remaining_count, summary.total_issues);
}

#[test]
fn from_issues_counts_correctly() {
    let issues = vec![make_issue("warning", true, 20), make_issue("warning", true, 20), make_issue("warning", false, 20)];
    let summary = ScanSummary::from_issues(&issues, vec![], "/project", 100);
    assert_eq!(summary.total_issues, 3);
    assert_eq!(summary.fixable_count, 2);
    assert_eq!(summary.remaining_count, 1);
    assert!(!summary.scanned_at.is_empty(), "scanned_at must be set");
    assert_eq!(*summary.by_complexity.get("trivial").unwrap(), 3);
    assert_eq!(summary.fixable_count + summary.remaining_count, summary.total_issues);
}

#[test]
fn split_keeps_every_issue_once() {
    let issues = vec![make_issue("error", true, 90), make_issue("info", false, 5), make_issue("warning", true, 30)];
    let (fixable, remaining) = split_fixable(&issues);
    assert_eq!(fixable.len() + remaining.len(), issues.len());
    assert_eq!(fixable[0].priority_score, 90);
    assert_eq!(fixable[1].priority_score, 30);
    assert_eq!(remaining[0].priority_score, 5);
}

#[test]
fn prepared_output_normalises_paths() {
    let mut i = make_issue("error", false, 40);
    i.file_path = r"src\win\path.rs".to_string();
    let out = prepare_output(vec![i]);
    assert_eq!(out.all[0].file_path, "src/win/path.rs");
    assert_eq!(out.remaining.len(), 1);
    assert!(out.fixable.is_empty());
}

#[test]
fn summary_table_layout() {
    let mut i = make_issue("warning", true, 42);
    i.id = "abcdef0123456789".to_string();
    i.file_path = "a/very/long/path/that/goes/on/and/on/file.rs".to_string();
    i.message = "caf\u{e9}".to_string();
    let table = summary_table(&[i]);
    assert!(table.is_ascii());
    let lines: Vec<&str> = table.lines().collect();
    assert_eq!(lines.len(), 5);
    assert_eq!(lines[0], lines[2]);
    assert_eq!(lines[0], lines[4]);
    assert!(lines[1].starts_with("| ID       | Severity |"));
    assert!(lines[3].starts_with("| abcdef01 | warning  | 42    | "));
    assert!(lines[3].contains("| th/that/goes/on/and/on/file.rs | "));
    assert!(lines[3].contains("| caf?"));
    assert!(lines[3].ends_with("| Y   |"));
    assert_eq!(lines[3].len(), lines[0].len());
}

#[test]
fn summary_table_negative_score() {
    let mut i = make_issue("info", false, -5);
    i.id = "x".to_string();
    let table = summary_table(&[i]);
    let row = table.lines().nth(3).unwrap();
    assert!(row.starts_with("| x        | info     | -5    | src/lib.rs"));
    assert!(row.ends_with("| N   |"));
}

#[test]
fn sorting_twice_is_sorting_once() {
    let mut issues = vec![
        make_issue("info", false, 5),
        make_issue("error", true, 90),
        make_issue("warning", false, 20),
        make_issue("warning", true, 20),
    ];
    for (k, i) in issues.iter_mut().enumerate() {
        i.id = format!("id-{k}");
    }
    sort_issues(&mut issues);
    let once: Vec<String> = issues.iter().map(|i| i.id.clone()).collect();
    sort_issues(&mut issues);
    let twice: Vec<String> = issues.iter().map(|i| i.id.clone()).collect();
    assert_eq!(once, vec!["id-1", "id-2", "id-3", "id-0"]);
    assert_eq!(once, twice);
}
