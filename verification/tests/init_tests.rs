use rguard::config::{Architecture, Topology};
use rguard::init::detector::{
    detected_language_names, keep_languages_with_code, probes_fixers_of, DetectionResult, SccLanguage,
};
use rguard::init::generator::{
    architecture_name, build_config, is_available, planned_files, primary_language, render_ast_grep,
    render_lefthook, render_semgrep_architecture, GeneratedKind, GeneratorInput,
};
use rguard::init::wizard::{
    architecture_choice, choices_from_answers, ci_provider_choice, noninteractive_choices, topology_choice,
    CiProvider, WizardChoices,
};
use rguard::registry::probe::ProbeResult;
use rguard::strmap::StrMap;

fn lang(name: &str, code: u64) -> SccLanguage {
    SccLanguage { name: name.into(), files: 12, lines: 500, code }
}

fn fake_detection() -> DetectionResult {
    DetectionResult {
        languages: vec![lang("Rust", 400)],
        scanner_probes: StrMap::new(),
        fixer_probes: StrMap::new(),
        project_path: ".".to_string(),
    }
}

#[test]
fn noninteractive_defaults() {
    let detected = fake_detection();
    let choices = noninteractive_choices(&detected);
    assert_eq!(choices.topology, Topology::Monolith);
    assert_eq!(choices.architecture, Architecture::Plain);
    assert!(choices.quality_checks.contains(&"security".to_string()), "security check must be enabled by default");
    assert!(choices.quality_checks.contains(&"cve".to_string()), "cve check must be enabled by default");
    assert!(choices.quality_checks.contains(&"secrets".to_string()), "secrets check must be enabled by default");
    assert!(!choices.pre_commit, "pre-commit must be disabled by default");
    assert_eq!(choices.ci_provider, CiProvider::NoCi);
    assert!(!choices.respect_gitignore, "respect_gitignore must be false by default");
}

#[test]
fn wizard_answers_map_to_choices() {
    assert_eq!(topology_choice("monorepo"), Topology::Monorepo);
    assert_eq!(topology_choice("cli"), Topology::Cli);
    assert_eq!(topology_choice("whatever"), Topology::Monolith);
    assert_eq!(architecture_choice("hexagonal"), Architecture::Hexagonal);
    assert_eq!(architecture_choice("none"), Architecture::Plain);
    assert_eq!(ci_provider_choice("gitlab"), CiProvider::Gitlab);
    assert_eq!(ci_provider_choice("none"), CiProvider::NoCi);
    let c = choices_from_answers("library", "mvc", vec!["cve".to_string()], true, "github", true);
    assert_eq!(c.topology, Topology::Library);
    assert_eq!(c.architecture, Architecture::Mvc);
    assert_eq!(c.ci_provider, CiProvider::Github);
    assert!(c.pre_commit && c.respect_gitignore);
}

#[test]
fn parse_scc_filtering() {
    let all = vec![lang("Rust", 400), lang("Markdown", 0), lang("Go", 1)];
    let filtered = keep_languages_with_code(all);
    assert_eq!(filtered.len(), 2, "Markdown with code==0 must be filtered out");
    assert_eq!(filtered[0].name, "Rust");
    assert_eq!(filtered[0].files, 12);
    assert_eq!(filtered[0].lines, 500);
    assert_eq!(filtered[0].code, 400);
    assert_eq!(filtered[1].name, "Go");
    let names = detected_language_names(&filtered);
    assert_eq!(names, vec!["rust", "go"]);
    assert!(probes_fixers_of(&names, "RUST"));
    assert!(!probes_fixers_of(&names, "python"));
}

fn make_input(ci: CiProvider, pre_commit: bool, architecture: Architecture) -> GeneratorInput {
    let mut scanner_probes = StrMap::new();
    scanner_probes.insert("semgrep".to_string(), ProbeResult::Available { version: "1.90.0".into() });
    scanner_probes.insert("trivy".to_string(), ProbeResult::Missing);
    scanner_probes.insert("gitleaks".to_string(), ProbeResult::Missing);
    scanner_probes.insert("jscpd".to_string(), ProbeResult::Missing);
    let mut rust_steps = StrMap::new();
    rust_steps.insert("rustfmt".to_string(), ProbeResult::Available { version: "".into() });
    rust_steps.insert("clippy".to_string(), ProbeResult::Missing);
    let mut fixer_probes = StrMap::new();
    fixer_probes.insert("rust".to_string(), rust_steps);
    GeneratorInput {
        project_name: "test-project".into(),
        project_path: "/tmp/test-project".into(),
        detection: DetectionResult {
            languages: vec![lang("Rust", 400)],
            scanner_probes,
            fixer_probes,
            project_path: "/tmp/test-project".into(),
        },
        choices: WizardChoices {
            topology: Topology::Cli,
            architecture,
            quality_checks: vec!["security".into(), "cve".into(), "secrets".into()],
            pre_commit,
            ci_provider: ci,
            respect_gitignore: false,
        },
    }
}

#[test]
fn roundtrip_config_fields() {
    let input = make_input(CiProvider::NoCi, false, Architecture::Plain);
    let config = build_config(&input);
    assert_eq!(config.version, "1");
    assert_eq!(config.project.name, "test-project");
    assert_eq!(config.project.topology, Topology::Cli);
    assert_eq!(config.project.architecture, Architecture::Plain);
    assert!(config.project.languages.contains(&"rust".to_string()), "rust must be in languages list");
    assert_eq!(config.ci.provider, "none");
    assert!(config.ci.diff_only);
    assert_eq!(config.filters.exclude.len(), 6);
    assert_eq!(config.scanners.semgrep.rulesets, vec!["p/default"]);
    assert_eq!(config.scanners.jscpd.threshold, 10);
    assert!(config.scanners.scc.enabled);
    assert!(config.hooks.pre_commit.manager.is_empty());
}

#[test]
fn only_available_tools_enabled() {
    let input = make_input(CiProvider::NoCi, false, Architecture::Plain);
    let config = build_config(&input);
    assert!(config.scanners.semgrep.enabled, "semgrep must be enabled (was Available)");
    assert!(!config.scanners.trivy.enabled, "trivy must be disabled (was Missing)");
    assert!(config.fixers.security, "security fixers follow semgrep");
    assert_eq!(config.tools.scanners.get("semgrep"), Some(&true));
    assert_eq!(config.tools.scanners.get("trivy"), Some(&false));
    let rust = config.tools.fixers.get("rust").unwrap();
    assert_eq!(rust.get("rustfmt"), Some(&true));
    assert_eq!(rust.get("clippy"), Some(&false));
    assert!(is_available(&input.detection.scanner_probes, "semgrep"));
    assert!(!is_available(&input.detection.scanner_probes, "scc"));
}

#[test]
fn pre_commit_writes_lefthook() {
    let input = make_input(CiProvider::NoCi, true, Architecture::Plain);
    let files = planned_files(&input);
    assert!(files.iter().any(|f| f.path.ends_with("lefthook.yml") && f.kind == GeneratedKind::Lefthook));
    let config = build_config(&input);
    assert_eq!(config.hooks.pre_commit.manager, "lefthook");
    assert_eq!(config.hooks.pre_commit.checks, vec!["security", "cve"]);
}

#[test]
fn github_ci_writes_workflow() {
    let input = make_input(CiProvider::Github, false, Architecture::Clean);
    let files = planned_files(&input);
    let paths: Vec<&str> = files.iter().map(|f| f.path.as_str()).collect();
    assert_eq!(
        paths,
        vec![
            "/tmp/test-project/.riceguard.yaml",
            "/tmp/test-project/.github/workflows/quality.yml",
            "/tmp/test-project/.riceguard/semgrep/architecture.yaml",
            "/tmp/test-project/.riceguard/ast-grep/patterns.yaml",
        ]
    );
}

#[test]
fn paths_use_forward_slashes() {
    let mut input = make_input(CiProvider::Gitlab, true, Architecture::Mvc);
    input.project_path = r"C:\work\proj".to_string();
    let files = planned_files(&input);
    assert_eq!(files.len(), 5);
    for f in &files {
        assert!(!f.path.contains('\\'), "path must not contain backslashes: {}", f.path);
    }
    assert_eq!(files[2].path, "C:/work/proj/.gitlab-ci.yml");
}

#[test]
fn templates_are_filled() {
    assert_eq!(render_lefthook("name: {{project_name}}", "app"), "name: app");
    assert_eq!(
        render_semgrep_architecture("{{project_name}}/{{architecture}}/{{primary_language}}", "p", "clean", "rust"),
        "p/clean/rust"
    );
    assert_eq!(render_ast_grep("{{primary_language}}:{{project_name}}", "p", "go"), "go:p");
    assert_eq!(architecture_name(Architecture::Plain), "none");
    assert_eq!(architecture_name(Architecture::Hexagonal), "hexagonal");
    assert_eq!(primary_language(&vec![lang("TypeScript", 3)]), "typescript");
    assert_eq!(primary_language(&vec![]), "generic");
}

#[test]
fn parse_scc_json() {
    let json = r#"[
        {"Name": "Rust", "Lines": 500, "Code": 400, "Comment": 50, "Blank": 50, "Complexity": 10,
         "Count": 12, "Files": 12, "WeightedComplexity": 10.0, "Bytes": 8192},
        {"Name": "Markdown", "Lines": 100, "Code": 0, "Comment": 0, "Blank": 100, "Complexity": 0,
         "Count": 3, "Files": 3, "WeightedComplexity": 0.0, "Bytes": 1024}
    ]"#;
    let value: serde_json::Value = serde_json::from_str(json).expect("scc JSON must parse");
    let all: Vec<SccLanguage> = value
        .as_array()
        .expect("an array")
        .iter()
        .map(|l| SccLanguage {
            name: l["Name"].as_str().unwrap().to_string(),
            files: l["Files"].as_u64().unwrap(),
            lines: l["Lines"].as_u64().unwrap(),
            code: l["Code"].as_u64().unwrap(),
        })
        .collect();
    assert_eq!(all.len(), 2, "raw parse should include both entries");
    let filtered = keep_languages_with_code(all);
    assert_eq!(filtered.len(), 1, "Markdown with code==0 must be filtered out");
    assert_eq!(filtered[0].name, "Rust");
    assert_eq!(filtered[0].files, 12);
    assert_eq!(filtered[0].lines, 500);
    assert_eq!(filtered[0].code, 400);
}
