use rguard::cli::fix::{issue_files_of_text, issue_ids_of_text};
use rguard::cli::sonar::converter::sarif_findings;
use rguard::cli::scan::changed_files_of;
use rguard::cli::sonar::report::{critical_issues_path, projects_search_path};
use rguard::cli::fix::{fix_exit_code, fix_output_prefix, target_issue_ids, unsafe_gate, UnsafeGate};
use rguard::cli::scan::{
    all_scanners_failed, diff_only_findings, enabled_scanner_names, in_changed_files, mode_label, scan_exit_code,
    scan_mode, scan_totals, scanner_result, scanner_results, scanners_run, severity_breakdown, status_label,
    ChangedFile, ScannerStatus,
};
use rguard::cli::sonar::converter::{
    convert_sarif_log, derive_project_key, map_severity, map_type, relative_path, SarifLog, SarifRegion,
    SarifResult, SarifRun,
};
use rguard::cli::sonar::models::{Measure, SonarError};
use rguard::cli::sonar::report::{
    dashboard_url, enroll_check_unreachable, fetch_failure_is_quiet, metrics_map, metrics_path,
    project_dir_name, project_key, quality_gate_failure, quality_gate_path, resolve_token, response_error,
    sonar_host, sonar_properties, GateFailure,
};
use rguard::fixer::report::FixReportSummary;
use rguard::paths::{join_path, safe_canonicalize, settle_path, strip_unc_prefix};
use rguard::registry::scanner_descriptor::{ScannerCommand, ScannerCommands, ScannerDescriptor, ScannerInstall};
use rguard::scanner::{RawFinding, ScanMode};
use rguard::strmap::StrMap;

// ── converter ───────────────────────────────────────────────────────────────

#[test]
fn severity_maps_error_to_critical() {
    assert_eq!(map_severity(Some("error")), "CRITICAL");
}

#[test]
fn severity_maps_warning_to_major() {
    assert_eq!(map_severity(Some("warning")), "MAJOR");
}

#[test]
fn severity_maps_none_to_minor() {
    assert_eq!(map_severity(Some("none")), "MINOR");
    assert_eq!(map_severity(None), "MINOR");
    assert_eq!(map_severity(Some("note")), "MINOR");
}

#[test]
fn type_maps_gitleaks_to_vulnerability() {
    assert_eq!(map_type("gitleaks"), "VULNERABILITY");
    assert_eq!(map_type("semgrep"), "VULNERABILITY");
    assert_eq!(map_type("trivy"), "VULNERABILITY");
}

#[test]
fn type_maps_jscpd_to_code_smell() {
    assert_eq!(map_type("jscpd"), "CODE_SMELL");
    assert_eq!(map_type("scc"), "CODE_SMELL");
}

#[test]
fn type_maps_unknown_to_bug() {
    assert_eq!(map_type("ast-grep"), "BUG");
    assert_eq!(map_type("unknown"), "BUG");
}

#[test]
fn relative_path_strips_prefix() {
    let result = relative_path("/home/user/myproject/src/main.rs", "/home/user/myproject");
    assert_eq!(result, "src/main.rs");
}

#[test]
fn relative_path_normalizes_backslashes() {
    let result = relative_path("C:/project/src/lib.rs", "C:/project");
    assert_eq!(result, "src/lib.rs");
}

#[test]
fn relative_path_schemes_and_outside_root() {
    assert_eq!(relative_path("file:///home/user/myproject/src/main.rs", "/home/user/myproject"), "src/main.rs");
    assert_eq!(relative_path("file:///home/u/p/a.rs", "home/u/p"), "/home/u/p/a.rs");
    assert_eq!(relative_path(r"other\dir\x.rs", "/home/u/p"), "other/dir/x.rs");
}

#[test]
fn derive_project_key_sanitizes_spaces() {
    assert_eq!(derive_project_key("my project"), "my-project");
}

#[test]
fn derive_project_key_prefixes_digit() {
    assert_eq!(derive_project_key("123abc"), "rg-123abc");
}

#[test]
fn derive_project_key_valid_stays() {
    assert_eq!(derive_project_key("rice-guard"), "rice-guard");
}

#[test]
fn derive_project_key_lowercases_and_replaces_unicode() {
    assert_eq!(derive_project_key("My_App.v2"), "my_app.v2");
    assert_eq!(derive_project_key("caf\u{e9}!"), "caf--");
    assert_eq!(derive_project_key(""), "");
}

fn result(level: Option<&str>, rule: Option<&str>, uri: Option<&str>, start: Option<u64>) -> SarifResult {
    SarifResult {
        level: level.map(String::from),
        rule_id: rule.map(String::from),
        message: Some("msg".to_string()),
        uri: uri.map(String::from),
        region: SarifRegion { start_line: start, end_line: None, start_column: Some(4), end_column: None },
    }
}

#[test]
fn sarif_conversion_defaults() {
    let log = SarifLog {
        runs: Some(vec![
            SarifRun {
                tool_name: Some("Semgrep".to_string()),
                results: Some(vec![
                    result(Some("error"), Some("r1"), Some("file:///p/src/a.rs"), Some(7)),
                    result(None, None, None, None),
                ]),
            },
            SarifRun { tool_name: None, results: None },
            SarifRun { tool_name: None, results: Some(vec![result(Some("warning"), Some("x"), Some(""), Some(1u64 << 32 | 3))]) },
        ]),
    };
    let out = convert_sarif_log(&log, "/p");
    assert_eq!(out.issues.len(), 3);
    let a = &out.issues[0];
    assert_eq!(a.engine_id, "semgrep");
    assert_eq!(a.severity, "CRITICAL");
    assert_eq!(a.issue_type, "VULNERABILITY");
    // the `file://` scheme goes, the absolute path keeps its `/` and the
    // root is stripped
    assert_eq!(a.primary_location.file_path, "src/a.rs");
    assert_eq!(a.primary_location.text_range.start_line, 7);
    assert_eq!(a.primary_location.text_range.end_line, 7);
    assert_eq!(a.primary_location.text_range.start_column, 4);
    assert_eq!(a.primary_location.text_range.end_column, 0);
    let b = &out.issues[1];
    assert_eq!(b.rule_id, "unknown-rule");
    assert_eq!(b.severity, "MINOR");
    assert_eq!(b.primary_location.file_path, "unknown");
    assert_eq!(b.primary_location.text_range.start_line, 1);
    let c = &out.issues[2];
    assert_eq!(c.engine_id, "unknown");
    assert_eq!(c.issue_type, "BUG");
    assert_eq!(c.primary_location.file_path, "unknown");
    assert_eq!(c.primary_location.text_range.start_line, 3);
    assert!(convert_sarif_log(&SarifLog { runs: None }, "/p").issues.is_empty());
}

// ── sonar report and enroll ─────────────────────────────────────────────────

#[test]
fn sonar_paths_and_properties() {
    assert_eq!(sonar_host("http://localhost:9000//"), "http://localhost:9000");
    assert_eq!(dashboard_url("http://h", "k"), "http://h/dashboard?id=k");
    assert_eq!(quality_gate_path("k"), "/api/qualitygates/project_status?projectKey=k");
    assert!(metrics_path("k").ends_with("metricKeys=bugs,vulnerabilities,code_smells,duplicated_lines_density,coverage"));
    assert_eq!(
        sonar_properties("key", "name", "http://h"),
        "sonar.projectKey=key\nsonar.projectName=name\nsonar.host.url=http://h\nsonar.sources=.\nsonar.externalIssuesReportPaths=reports/name/sonar-issues.json\n"
    );
    assert_eq!(project_dir_name(None), "project");
    assert_eq!(project_key(&None, "My Dir"), "my-dir");
    assert_eq!(project_key(&Some("fixed".to_string()), "My Dir"), "fixed");
}

#[test]
fn failures_are_told_apart() {
    assert_eq!(quality_gate_failure("tcp connect error: refused"), GateFailure::NotRunning);
    assert_eq!(quality_gate_failure("returned HTTP 404 Not Found"), GateFailure::ProjectMissing);
    assert_eq!(quality_gate_failure("HTTP 500"), GateFailure::Other);
    assert!(fetch_failure_is_quiet("error sending request for url"));
    assert!(!fetch_failure_is_quiet("connect error"));
    assert!(enroll_check_unreachable("Connection refused (os error 111)"));
}

#[test]
fn token_resolution_order() {
    assert_eq!(resolve_token(Some("env".to_string()), &Some("cfg".to_string())).unwrap(), "env");
    assert_eq!(resolve_token(Some(String::new()), &Some("cfg".to_string())).unwrap(), "cfg");
    let err = resolve_token(None, &Some(String::new())).unwrap_err();
    assert!(err.starts_with("SonarQube token not found."));
}

#[test]
fn metrics_and_response_errors() {
    let m = metrics_map(vec![
        Measure { metric: "bugs".to_string(), value: Some("3".to_string()) },
        Measure { metric: "coverage".to_string(), value: None },
        Measure { metric: "bugs".to_string(), value: Some("4".to_string()) },
    ]);
    assert_eq!(m.get("bugs").unwrap(), "4");
    assert_eq!(m.get("coverage").unwrap(), "");
    let errs = Some(vec![SonarError { msg: "a".to_string() }, SonarError { msg: "b".to_string() }]);
    assert_eq!(response_error(&errs).unwrap(), "SonarQube error: a; b");
    assert!(response_error(&Some(vec![])).is_none());
    assert!(response_error(&None).is_none());
}

// ── scan ────────────────────────────────────────────────────────────────────

fn finding(scanner: &str, severity: &str, path: &str) -> RawFinding {
    RawFinding {
        scanner: scanner.to_string(),
        rule_id: "r".to_string(),
        severity: severity.to_string(),
        file_path: path.to_string(),
        line: 1,
        message: "m".to_string(),
        matched_code: None,
        suggested_replacement: None,
    }
}

#[test]
fn scan_modes_and_labels() {
    assert_eq!(scan_mode(true, true), ScanMode::Quick);
    assert_eq!(scan_mode(false, true), ScanMode::Security);
    assert_eq!(scan_mode(false, false), ScanMode::Full);
    assert_eq!(mode_label(false, true), "Security scan");
    assert_eq!(mode_label(false, false), "Full scan");
}

#[test]
fn scan_rows_and_exit_codes() {
    let findings = vec![
        finding("semgrep", "error", "a.rs"),
        finding("semgrep", "warning", "b.rs"),
        finding("semgrep", "hint", "b.rs"),
        finding("trivy", "info", "c.rs"),
    ];
    assert_eq!(scanners_run(&findings), vec!["semgrep", "trivy"]);
    let row = scanner_result("semgrep", &findings);
    assert_eq!((row.findings, row.high, row.medium, row.low, row.info), (3, 1, 1, 0, 1));
    assert_eq!(row.status, ScannerStatus::Success);
    let rows = scanner_results(&vec!["semgrep".to_string(), "gitleaks".to_string()], &findings);
    assert_eq!(rows[1].findings, 0);
    assert_eq!(scan_totals(&rows), (3, 1, 1, 0, 1));
    assert_eq!(severity_breakdown(1, 1, 0, 1), "1H 1M 0L 1I");
    assert_eq!(status_label(ScannerStatus::Failed), "FAIL");
    assert!(all_scanners_failed(&vec![false, false]));
    assert!(!all_scanners_failed(&vec![false, true]));
    assert!(!all_scanners_failed(&vec![]));
    // scanners that all completed without a finding: a clean scan, exit 0
    let clean = all_scanners_failed(&vec![true, true]);
    assert!(!clean);
    assert_eq!(scan_exit_code(clean, 0), 0);
    assert_eq!(scan_exit_code(true, 5), 2);
    assert_eq!(scan_exit_code(false, 0), 0);
    assert_eq!(scan_exit_code(false, 3), 1);
}

#[test]
fn enabled_scanners_follow_tool_list() {
    let desc = |name: &str| ScannerDescriptor {
        name: name.to_string(),
        version: ">=1".to_string(),
        languages: vec![],
        install: ScannerInstall { check: "x --version".to_string(), methods: StrMap::new() },
        commands: ScannerCommands {
            scan: ScannerCommand { cmd: "x".to_string(), timeout: 60 },
            security: None,
            quick: None,
        },
        output_format: "json".to_string(),
        severity_map: StrMap::new(),
    };
    let mut tools = StrMap::new();
    tools.insert("semgrep".to_string(), true);
    tools.insert("trivy".to_string(), false);
    let names = enabled_scanner_names(&vec![desc("semgrep"), desc("trivy"), desc("scc")], &tools);
    assert_eq!(names, vec!["semgrep"]);
}

#[test]
fn diff_only_filter_keeps_changed_files() {
    let changed = vec![ChangedFile { path: r"C:\repo\src\a.rs".to_string(), file_name: "a.rs".to_string() }];
    assert!(in_changed_files(&changed, "src/a.rs"));
    assert!(in_changed_files(&changed, "other/a.rs"));
    assert!(!in_changed_files(&changed, "src/b.rs"));
    let kept = diff_only_findings(
        vec![finding("s", "error", "src/a.rs"), finding("s", "error", "src/b.rs")],
        &changed,
    );
    assert_eq!(kept.len(), 1);
    assert_eq!(kept[0].file_path, "src/a.rs");
    let all = diff_only_findings(vec![finding("s", "error", "x")], &vec![]);
    assert_eq!(all.len(), 1);
}

// ── fix ─────────────────────────────────────────────────────────────────────

fn summary(fixed: u32, attempted: u32, skipped: u32, failed: u32, no_issues: u32) -> FixReportSummary {
    FixReportSummary {
        total_fixed: fixed,
        total_attempted: attempted,
        total_skipped: skipped,
        total_failed: failed,
        total_no_issues: no_issues,
    }
}

#[test]
fn fix_exit_codes() {
    assert_eq!(fix_exit_code(true, &summary(0, 0, 0, 3, 0)), 0);
    assert_eq!(fix_exit_code(false, &summary(0, 0, 2, 3, 0)), 2);
    assert_eq!(fix_exit_code(false, &summary(1, 0, 0, 3, 0)), 0);
    assert_eq!(fix_exit_code(false, &summary(1, 2, 0, 0, 0)), 1);
    assert_eq!(fix_exit_code(false, &summary(0, 0, 0, 0, 0)), 0);
    assert_eq!(fix_exit_code(false, &summary(u32::MAX, u32::MAX, 0, 1, 0)), 1);
}

#[test]
fn fix_targets_and_gate() {
    assert_eq!(target_issue_ids(None, vec![]), None);
    assert_eq!(
        target_issue_ids(Some("a".to_string()), vec!["b".to_string()]),
        Some(vec!["a".to_string(), "b".to_string()])
    );
    assert_eq!(unsafe_gate(false, false, false), UnsafeGate::Proceed);
    assert_eq!(unsafe_gate(true, true, false), UnsafeGate::Proceed);
    assert_eq!(unsafe_gate(true, false, true), UnsafeGate::Confirm);
    assert_eq!(unsafe_gate(true, false, false), UnsafeGate::Refuse);
    assert_eq!(fix_output_prefix("app"), "fix-app");
}

// ── paths ───────────────────────────────────────────────────────────────────

#[test]
fn canonicalize_current_dir_has_no_unc_prefix() {
    let p = safe_canonicalize(".");
    assert!(!p.starts_with("\\\\?\\"), "path should not have \\\\?\\ prefix: {p}");
}

#[test]
fn nonexistent_path_returns_original() {
    let orig = "this/does/not/exist/at/all";
    let result = safe_canonicalize(orig);
    assert_eq!(result, orig);
}

#[test]
fn unc_prefix_and_joins() {
    assert_eq!(strip_unc_prefix(r"\\?\C:\x".to_string()), r"C:\x");
    assert_eq!(strip_unc_prefix("/usr".to_string()), "/usr");
    assert_eq!(settle_path(Some(r"\\?\D:\p".to_string()), "p"), r"D:\p");
    assert_eq!(settle_path(None, "p"), "p");
    assert_eq!(join_path("a", "b"), "a/b");
    assert_eq!(join_path("a/", "b"), "a/b");
    assert_eq!(join_path("", "b"), "b");
    assert_eq!(join_path("a", "/abs"), "/abs");
}

#[test]
fn sonar_api_paths_embed_the_project_key() {
    assert_eq!(
        critical_issues_path("my-app"),
        "/api/issues/search?componentKeys=my-app&severities=BLOCKER,CRITICAL&ps=50"
    );
    assert_eq!(projects_search_path("my-app"), "/api/projects/search?projects=my-app");
}

#[test]
fn derived_project_key_is_stable_under_rederivation() {
    let once = derive_project_key("2 My Project!");
    assert_eq!(once, "rg-2-my-project-");
    assert_eq!(derive_project_key(&once), once);
}

#[test]
fn sarif_findings_one_per_result_with_mapped_severity() {
    let mut severity_map: StrMap<String> = StrMap::new();
    severity_map.insert("error".to_string(), "high".to_string());
    let log = SarifLog {
        runs: Some(vec![
            SarifRun {
                tool_name: Some("Semgrep".to_string()),
                results: Some(vec![
                    result(Some("error"), Some("r1"), Some("/proj/src/a.py"), Some(12)),
                    result(None, None, None, Some(u64::MAX)),
                ]),
            },
            SarifRun { tool_name: None, results: None },
            SarifRun {
                tool_name: None,
                results: Some(vec![result(Some("note"), Some("r3"), Some("src/b.py"), None)]),
            },
        ]),
    };
    let v = sarif_findings(&log, "semgrep", &severity_map, "/proj");
    assert_eq!(v.len(), 3);
    assert_eq!(v[0].scanner, "semgrep");
    assert_eq!(v[0].rule_id, "r1");
    assert_eq!(v[0].severity, "high");
    assert_eq!(v[0].file_path, "src/a.py");
    assert_eq!(v[0].line, 12);
    assert_eq!(v[0].message, "msg");
    assert_eq!(v[1].rule_id, "unknown-rule");
    assert_eq!(v[1].severity, "warning");
    assert_eq!(v[1].file_path, "<project>");
    assert_eq!(v[1].line, 0);
    assert_eq!(v[2].severity, "note");
    assert_eq!(v[2].file_path, "src/b.py");
    assert_eq!(v[2].line, 0);
    assert!(v.iter().all(|f| f.matched_code.is_none() && f.suggested_replacement.is_none()));
    assert!(sarif_findings(&SarifLog { runs: None }, "semgrep", &severity_map, "/proj").is_empty());
}

#[test]
fn scan_mode_picks_its_command() {
    let cmds = ScannerCommands {
        scan: ScannerCommand { cmd: "full".to_string(), timeout: 60 },
        security: None,
        quick: Some(ScannerCommand { cmd: "quick".to_string(), timeout: 10 }),
    };
    assert_eq!(cmds.for_mode(ScanMode::Full).map(|c| c.cmd.as_str()), Some("full"));
    assert_eq!(cmds.for_mode(ScanMode::Quick).map(|c| c.cmd.as_str()), Some("quick"));
    assert!(cmds.for_mode(ScanMode::Security).is_none());
}

#[test]
fn git_name_only_output_becomes_changed_files() {
    let v = changed_files_of("src/lib.rs\n\n  \nREADME.md\r\n", "/proj");
    assert_eq!(v.len(), 2);
    assert_eq!(v[0].path, "/proj/src/lib.rs");
    assert_eq!(v[0].file_name, "lib.rs");
    assert_eq!(v[1].path, "/proj/README.md");
    assert_eq!(v[1].file_name, "README.md");
    assert!(changed_files_of("", "/proj").is_empty());
}

#[test]
fn issue_ids_of_text_reads_arrays_and_wrappers() {
    assert_eq!(issue_ids_of_text(r#"[{"id": "a"}, {"x": 1}, {"id": "b"}]"#), Some(vec!["a".to_string(), "b".to_string()]));
    assert_eq!(
        issue_ids_of_text(r#"{"schema_version": "1", "issues": [{"id": "c", "file_path": "x"}]}"#),
        Some(vec!["c".to_string()])
    );
    assert_eq!(issue_ids_of_text(r#"{"issues": 3}"#), Some(vec![]));
    assert_eq!(issue_ids_of_text("nope"), None);
}

#[test]
fn issue_files_of_text_keeps_targeted_files_once() {
    let text = r#"{"issues": [
        {"id": "a", "file_path": "src/x.rs"},
        {"id": "b", "file_path": "src/y.rs"},
        {"id": "a2", "file_path": "src/x.rs"},
        {"id": "c"}
    ]}"#;
    let ids = vec!["a".to_string(), "a2".to_string(), "c".to_string()];
    assert_eq!(issue_files_of_text(text, "/proj", &ids), vec!["/proj/src/x.rs".to_string()]);
    assert!(issue_files_of_text("[]", "/proj", &ids).is_empty());
}
