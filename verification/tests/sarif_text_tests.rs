use rguard::cli::sonar::converter::{convert_sarif_text, sarif_text_findings};
use rguard::strmap::StrMap;

const SARIF: &str = r#"{
  "version": "2.1.0",
  "runs": [
    {
      "tool": { "driver": { "name": "Semgrep" } },
      "results": [
        {
          "level": "error",
          "ruleId": "python.eval",
          "message": { "text": "avoid eval" },
          "locations": [
            { "physicalLocation": {
                "artifactLocation": { "uri": "file:///proj/src/a.py" },
                "region": { "startLine": 7, "endLine": 8, "startColumn": 3, "endColumn": 9 } } },
            { "physicalLocation": { "artifactLocation": { "uri": "src/ignored.py" } } }
          ]
        },
        { "ruleId": 12, "locations": { "0": { "physicalLocation": { "artifactLocation": { "uri": "src/b.py" } } } } }
      ]
    },
    { "tool": { "driver": { "name": "gitleaks" } } }
  ]
}"#;

#[test]
fn convert_sarif_text_reads_fields_and_first_location() {
    let f = convert_sarif_text(SARIF, "/proj").expect("json");
    assert_eq!(f.issues.len(), 2);
    let a = &f.issues[0];
    assert_eq!(a.engine_id, "semgrep");
    assert_eq!(a.rule_id, "python.eval");
    assert_eq!(a.severity, "CRITICAL");
    assert_eq!(a.issue_type, "VULNERABILITY");
    assert_eq!(a.primary_location.message, "avoid eval");
    assert_eq!(a.primary_location.file_path, "src/a.py");
    assert_eq!(a.primary_location.text_range.start_line, 7);
    assert_eq!(a.primary_location.text_range.end_line, 8);
    assert_eq!(a.primary_location.text_range.start_column, 3);
    assert_eq!(a.primary_location.text_range.end_column, 9);
    let b = &f.issues[1];
    assert_eq!(b.rule_id, "unknown-rule");
    assert_eq!(b.severity, "MINOR");
    assert_eq!(b.primary_location.message, "");
    assert_eq!(b.primary_location.file_path, "src/b.py");
    assert_eq!(b.primary_location.text_range.start_line, 1);
    assert_eq!(b.primary_location.text_range.end_line, 1);
}

#[test]
fn convert_sarif_text_errors_and_empty_logs() {
    assert!(convert_sarif_text("not json", "/proj").is_err());
    assert!(convert_sarif_text("{}", "/proj").expect("json").issues.is_empty());
    assert!(convert_sarif_text(r#"{"runs": {}}"#, "/proj").expect("json").issues.is_empty());
}

#[test]
fn sarif_text_findings_reads_the_report() {
    let mut map: StrMap<String> = StrMap::new();
    map.insert("error".to_string(), "high".to_string());
    let v = sarif_text_findings(SARIF, "semgrep", &map, "/proj").expect("json");
    assert_eq!(v.len(), 2);
    assert_eq!(v[0].rule_id, "python.eval");
    assert_eq!(v[0].severity, "high");
    assert_eq!(v[0].file_path, "src/a.py");
    assert_eq!(v[0].line, 7);
    assert_eq!(v[1].severity, "warning");
    assert_eq!(v[1].line, 0);
    assert!(sarif_text_findings("[", "semgrep", &map, "/proj").is_none());
}
