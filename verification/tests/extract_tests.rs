use rguard::issue::extract::{extract_file, grammar_for, Grammar};
use rguard::scanner::RawFinding;

fn raw(rule: &str, line: u32) -> RawFinding {
    RawFinding {
        scanner: "semgrep".to_string(),
        rule_id: rule.to_string(),
        severity: "high".to_string(),
        file_path: "app/main.py".to_string(),
        line,
        message: "m".to_string(),
        matched_code: None,
        suggested_replacement: None,
    }
}

const PY: &str = "import os\nfrom sys import argv\n\nclass Runner:\n    def run(self, cmd):\n        x = eval(cmd)\n        return x\n";

#[test]
fn extract_file_uses_the_parsed_tree() {
    let findings = vec![raw("eval", 6)];
    let out = extract_file("app/main.py", PY, &findings).expect("fits");
    assert_eq!(out.len(), 1);
    let ((rule, line), block) = &out[0];
    assert_eq!(rule, "eval");
    assert_eq!(*line, 6);
    assert_eq!(block.matched_code, "        x = eval(cmd)");
    assert_eq!(block.enclosing_function.as_deref(), Some("run"));
    assert_eq!(block.enclosing_class.as_deref(), Some("Runner"));
    assert_eq!(block.imports, vec!["import os", "from sys import argv"]);
    assert_eq!(block.context_before, vec!["    def run(self, cmd):"]);
    assert_eq!(block.context_after, vec!["        return x"]);
}

#[test]
fn extract_file_lowercases_the_extension() {
    let findings = vec![raw("eval", 6), raw("other", 1)];
    let out = extract_file("APP/MAIN.PY", PY, &findings).expect("fits");
    assert_eq!(out.len(), 2);
    assert_eq!(out[0].1.enclosing_function.as_deref(), Some("run"));
    assert_eq!(out[1].0 .0, "other");
    assert_eq!(out[1].1.matched_code, "import os");
    assert_eq!(out[1].1.enclosing_function, None);
}

#[test]
fn extract_file_without_grammar_is_the_line_window() {
    let findings = vec![raw("r", 2)];
    let out = extract_file("notes.txt", "a\nb\nc\n", &findings).expect("fits");
    let block = &out[0].1;
    assert_eq!(block.matched_code, "b");
    assert_eq!(block.context_before, vec!["a"]);
    assert_eq!(block.context_after, vec!["c"]);
    assert!(block.enclosing_function.is_none());
    assert!(block.imports.is_empty());
}

#[test]
fn grammar_for_extensions() {
    assert_eq!(grammar_for("py"), Some(Grammar::Python));
    assert_eq!(grammar_for("mjs"), Some(Grammar::JavaScript));
    assert_eq!(grammar_for("tsx"), Some(Grammar::Tsx));
    assert_eq!(grammar_for("bash"), Some(Grammar::Bash));
    assert_eq!(grammar_for("kt"), None);
    assert_eq!(grammar_for("PY"), None);
}
