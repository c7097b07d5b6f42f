use rguard::config::{validate, Architecture, RiceGuardConfig, Topology};
use rguard::errors::{ConfigError, DescriptorError, ProbeError};
use rguard::registry::fixer_descriptor::{unsafe_tool_names, FixerDescriptor, FixerStages, FixerStep};
use rguard::registry::probe::{
    build_command, fixer_probe_result, parse_version_result, probe_check_words, scanner_probe_result,
    CheckRun, ProbeResult,
};

#[test]
fn build_command_basic_substitution() {
    let args = build_command("scc --format json {{output_dir}}", &[("output_dir", "reports/out")]).unwrap();
    assert_eq!(args, ["scc", "--format", "json", "reports/out"]);
}

#[test]
fn build_command_spaces_in_value_stay_single_token() {
    let args = build_command("scc --format json {{output_dir}}", &[("output_dir", "my dir/out")]).unwrap();
    assert_eq!(args, ["scc", "--format", "json", "my dir/out"], "path with space must remain one token");
}

#[test]
fn build_command_injection_attempt_is_verbatim_token() {
    let args = build_command("scc {{output_dir}}", &[("output_dir", "dir; rm -rf /")]).unwrap();
    assert_eq!(args, ["scc", "dir; rm -rf /"], "injection payload must be a single verbatim token");
}

#[test]
fn build_command_no_vars() {
    let args = build_command("semgrep --version", &[]).unwrap();
    assert_eq!(args, ["semgrep", "--version"]);
}

#[test]
fn build_command_empty_template_returns_empty_command_error() {
    let result = build_command("", &[]);
    assert!(matches!(result, Err(DescriptorError::EmptyCommand)), "empty template must return EmptyCommand");
}

#[test]
fn build_command_multiple_placeholders() {
    let args = build_command(
        "scanner --out {{output_dir}} --target {{target}}",
        &[("output_dir", "out/dir"), ("target", "src/")],
    )
    .unwrap();
    assert_eq!(args, ["scanner", "--out", "out/dir", "--target", "src/"]);
}

#[test]
fn build_command_quoting_and_errors() {
    let args = build_command("tool 'a b' {{x}}x", &[("x", "1")]).unwrap();
    assert_eq!(args, ["tool", "a b", "1x"]);
    match build_command("tool 'open", &[]) {
        Err(DescriptorError::InvalidCommandTemplate(m)) => assert_eq!(m, "shlex could not parse: tool 'open"),
        other => panic!("unexpected {:?}", other),
    }
    assert!(matches!(build_command("   \t", &[]), Err(DescriptorError::EmptyCommand)));
}

#[test]
fn version_parsing_against_requirement() {
    match parse_version_result("semgrep 1.90.0", ">=1.60") {
        ProbeResult::Available { version } => assert_eq!(version, "1.90.0"),
        other => panic!("unexpected {:?}", other),
    }
    match parse_version_result("tool v0.5.1 (build x)", ">=1.0") {
        ProbeResult::Outdated { found, required } => {
            assert_eq!(found, "0.5.1");
            assert_eq!(required, ">=1.0");
        }
        other => panic!("unexpected {:?}", other),
    }
    match parse_version_result("no version here\nsecond", ">=1.0") {
        ProbeResult::Available { version } => assert_eq!(version, "no version here"),
        other => panic!("unexpected {:?}", other),
    }
    match parse_version_result("", ">=1.0") {
        ProbeResult::Available { version } => assert_eq!(version, "unknown"),
        other => panic!("unexpected {:?}", other),
    }
    match parse_version_result("x 2.0.0", "not a requirement") {
        ProbeResult::Available { version } => assert_eq!(version, "2.0.0"),
        other => panic!("unexpected {:?}", other),
    }
}

#[test]
fn probe_outcomes() {
    assert!(matches!(scanner_probe_result(CheckRun::NotFound, ">=1"), ProbeResult::Missing));
    match scanner_probe_result(CheckRun::Failed("boom".to_string()), ">=1") {
        ProbeResult::Error(m) => assert_eq!(m, "boom"),
        other => panic!("unexpected {:?}", other),
    }
    match scanner_probe_result(
        CheckRun::Ran { stdout: "  ".to_string(), stderr: "gitleaks version 8.18.0\n".to_string() },
        ">=8.0",
    ) {
        ProbeResult::Available { version } => assert_eq!(version, "8.18.0"),
        other => panic!("unexpected {:?}", other),
    }
    assert!(matches!(fixer_probe_result(false), ProbeResult::Missing));
    match fixer_probe_result(true) {
        ProbeResult::Available { version } => assert!(version.is_empty()),
        other => panic!("unexpected {:?}", other),
    }
}

#[test]
fn probe_check_words_errors() {
    assert_eq!(probe_check_words("semgrep --version").unwrap(), vec!["semgrep", "--version"]);
    assert_eq!(probe_check_words("").unwrap_err(), "invalid check command: ");
    assert_eq!(probe_check_words("x 'y").unwrap_err(), "invalid check command: x 'y");
}

fn step(name: &str, safe: bool) -> FixerStep {
    FixerStep {
        name: name.to_string(),
        check: "c".to_string(),
        fix: "f".to_string(),
        scope: "project".to_string(),
        safe,
        unsafe_flag: None,
    }
}

fn descriptor(language: &str, format: Vec<FixerStep>, lint: Vec<FixerStep>) -> FixerDescriptor {
    FixerDescriptor {
        name: language.to_string(),
        language: language.to_string(),
        detect: vec![],
        stages: FixerStages { format, lint, security: vec![], ast: vec![], deps: vec![], import: vec![] },
    }
}

#[test]
fn unsafe_tools_listed_in_stage_order() {
    let ds = vec![
        descriptor("rust", vec![step("rustfmt", true)], vec![step("clippy-fix", false)]),
        descriptor("go", vec![step("gofmt-x", false)], vec![]),
    ];
    assert_eq!(unsafe_tool_names(&ds), vec!["clippy-fix", "gofmt-x"]);
    assert!(ds[0].has_any_stage());
    assert!(!descriptor("none", vec![], vec![]).has_any_stage());
}

#[test]
fn error_messages() {
    let e = DescriptorError::ValidationError { name: "semgrep".to_string(), reason: "name is empty".to_string() };
    assert!(e.message().contains("semgrep"));
    assert_eq!(DescriptorError::EmptyCommand.message(), "Empty command in descriptor");
    let p = ProbeError::NotFound { tool: "scc".to_string() };
    assert_eq!(p.message(), "Tool 'scc' not found in PATH");
    let c = ConfigError::ValidationError { message: "bad".to_string() };
    assert_eq!(c.message(), "Invalid config: bad");
}

fn make_config(version: &str, name: &str) -> RiceGuardConfig {
    let mut c = RiceGuardConfig::empty();
    c.version = version.to_string();
    c.project.name = name.to_string();
    c.project.topology = Topology::Monolith;
    c.project.architecture = Architecture::Plain;
    c
}

#[test]
fn valid_config_passes() {
    let config = make_config("1", "my-app");
    assert!(validate(&config).is_ok());
}

#[test]
fn wrong_version_fails() {
    let config = make_config("2", "my-app");
    let err = validate(&config).unwrap_err();
    assert!(matches!(err, ConfigError::ValidationError { .. }));
    assert_eq!(err.message(), "Invalid config: unsupported config version '2' \u{2014} expected '1'");
}

#[test]
fn empty_project_name_fails() {
    let config = make_config("1", "");
    let err = validate(&config).unwrap_err();
    assert!(matches!(err, ConfigError::ValidationError { .. }));
}

#[test]
fn whitespace_project_name_fails() {
    let config = make_config("1", "   ");
    let err = validate(&config).unwrap_err();
    assert!(matches!(err, ConfigError::ValidationError { .. }));
}

#[test]
fn probe_scanner_missing_tool_returns_missing() {
    let words = probe_check_words("nonexistent-tool-xyz-abc123 --version").unwrap();
    assert_eq!(words, ["nonexistent-tool-xyz-abc123", "--version"]);
    let result = scanner_probe_result(CheckRun::NotFound, ">=1.0");
    assert!(matches!(result, ProbeResult::Missing), "non-existent tool must return Missing, got: {result:?}");
}

#[test]
fn probe_fixer_step_missing_tool_returns_missing() {
    let words = probe_check_words("nonexistent-fixer-xyz-abc123 --check .").unwrap();
    assert_eq!(words[0], "nonexistent-fixer-xyz-abc123");
    let result = fixer_probe_result(false);
    assert!(matches!(result, ProbeResult::Missing), "non-existent fixer must return Missing, got: {result:?}");
}
