use rguard::config::{FiltersConfig, RiceGuardConfig};
use rguard::ignore::engine::{collect_ignore_lines, IgnoreEngine, IgnoreFiles};
use rguard::ignore::external::ExcludeArgs;
use rguard::ignore::sources::{RGIGNORE, RGUARDIGNORE};

const ROOT: &str = "/tmp/rguard-project";

fn empty_config() -> RiceGuardConfig {
    let mut c = RiceGuardConfig::default();
    c.filters.exclude = vec![];
    c.filters.includes = vec![];
    c
}

fn no_files() -> IgnoreFiles {
    IgnoreFiles { global: None, gitignore: None, rguardignore: None, rgignore: None }
}

fn path(rel: &str) -> String {
    format!("{ROOT}/{rel}")
}

fn build(config: &RiceGuardConfig, respect: bool, files: &IgnoreFiles) -> IgnoreEngine {
    IgnoreEngine::build(ROOT, config, respect, files).expect("build")
}

#[test]
fn empty_config_does_not_ignore_arbitrary_paths() {
    let engine = build(&empty_config(), false, &no_files());
    assert!(!engine.is_ignored(&path("src/main.rs"), false), "src/main.rs should not be ignored");
    assert!(!engine.is_ignored(&path("README.md"), false), "README.md should not be ignored");
}

#[test]
fn built_in_defaults_are_ignored() {
    let engine = build(&empty_config(), false, &no_files());
    assert!(engine.is_ignored(&path("vendor"), true), "vendor/ dir should be ignored");
    assert!(engine.is_ignored(&path("node_modules"), true), "node_modules/ dir should be ignored");
    assert!(engine.is_ignored(&path("target"), true), "target/ dir should be ignored");
    assert!(engine.is_ignored(&path(".git"), true), ".git/ dir should be ignored");
}

#[test]
fn riceguardignore_patterns_are_applied() {
    let files = IgnoreFiles { rguardignore: Some("logs/\n".to_string()), ..no_files() };
    let engine = build(&empty_config(), false, &files);
    assert!(engine.is_ignored(&path("logs"), true), "logs/ should be ignored via .rguardignore");
    assert!(engine.is_ignored(&path("logs/app.log"), false), "logs/app.log should be ignored");
    assert!(!engine.is_ignored(&path("src/main.rs"), false), "src/main.rs should not be ignored");
}

#[test]
fn rgignore_loaded_when_no_riceguardignore() {
    let files = IgnoreFiles { rgignore: Some("coverage/\n".to_string()), ..no_files() };
    let engine = build(&empty_config(), false, &files);
    assert!(engine.is_ignored(&path("coverage"), true), "coverage/ should be ignored via .rgignore");
}

#[test]
fn riceguardignore_takes_precedence_over_rgignore() {
    let files = IgnoreFiles {
        rguardignore: Some("logs/\n".to_string()),
        rgignore: Some("coverage/\n".to_string()),
        ..no_files()
    };
    let engine = build(&empty_config(), false, &files);
    assert!(engine.is_ignored(&path("logs"), true), "logs/ should be ignored (from .rguardignore)");
    assert!(!engine.is_ignored(&path("coverage"), true), "coverage/ should NOT be ignored");
}

#[test]
fn respect_gitignore_false_does_not_load_gitignore() {
    let files = IgnoreFiles { gitignore: Some("build/\n".to_string()), ..no_files() };
    let engine = build(&empty_config(), false, &files);
    assert!(!engine.is_ignored(&path("build"), true), "build/ should NOT be ignored");
}

#[test]
fn respect_gitignore_true_loads_gitignore() {
    let files = IgnoreFiles { gitignore: Some("build/\n".to_string()), ..no_files() };
    let engine = build(&empty_config(), true, &files);
    assert!(engine.is_ignored(&path("build"), true), "build/ should be ignored when respect_gitignore=true");
}

#[test]
fn negation_pattern_rescues_file_from_built_in_defaults() {
    let files = IgnoreFiles { rguardignore: Some("!vendor/important.go\n".to_string()), ..no_files() };
    let engine = build(&empty_config(), false, &files);
    assert!(engine.is_ignored(&path("vendor"), true), "vendor/ itself should still be ignored");
    assert!(!engine.is_ignored(&path("vendor/important.go"), false), "vendor/important.go should be rescued");
}

#[test]
fn filters_include_rescues_files_from_exclusion() {
    let mut config = empty_config();
    config.filters.includes = vec!["vendor/keep.go".to_string()];
    let engine = build(&config, false, &no_files());
    assert!(!engine.is_ignored(&path("vendor/keep.go"), false), "vendor/keep.go should be rescued");
}

#[test]
fn global_file_and_relative_paths() {
    let files = IgnoreFiles { global: Some("\u{feff}*.tmp\n# comment\n".to_string()), ..no_files() };
    let engine = build(&empty_config(), false, &files);
    assert!(engine.is_ignored("notes.tmp", false));
    assert!(engine.is_ignored(&path("a/b/c.tmp"), false));
    assert_eq!(engine.check_ignored("/elsewhere/x.tmp", false), None);
    assert_eq!(engine.check_ignored(&path("x.tmp"), false), Some(true));
}

#[test]
fn invalid_configured_pattern_fails_build() {
    let mut config = empty_config();
    config.filters.exclude = vec!["a{b".to_string()];
    match IgnoreEngine::build(ROOT, &config, false, &no_files()) {
        Err(rguard::ignore::engine::IgnoreError::InvalidPattern { pattern, .. }) => assert_eq!(pattern, "a{b"),
        Err(e) => panic!("unexpected {:?}", e),
        Ok(_) => panic!("an unclosed brace must be refused"),
    }
    // the same line in a file is skipped instead
    let files = IgnoreFiles { rguardignore: Some("a{b\nlogs/\n".to_string()), ..no_files() };
    let engine = build(&empty_config(), false, &files);
    assert!(engine.is_ignored(&path("logs"), true));
}

#[test]
fn layers_come_in_priority_order() {
    let mut config = empty_config();
    config.filters.exclude = vec!["tmp/".to_string()];
    config.filters.includes = vec!["tmp/keep".to_string(), "!already".to_string()];
    let files = IgnoreFiles {
        global: Some("g1\r\ng2".to_string()),
        gitignore: Some("gi".to_string()),
        rguardignore: None,
        rgignore: Some("rg".to_string()),
    };
    let lines: Vec<(String, bool)> = collect_ignore_lines(&config, true, &files);
    let texts: Vec<&str> = lines.iter().map(|(t, _)| t.as_str()).collect();
    assert_eq!(
        texts,
        vec![
            "vendor/", "node_modules/", "target/", ".git/", "*.generated.*", "dist/", "g1", "g2", "gi", "rg",
            "tmp/", "!tmp/keep", "!already"
        ]
    );
    let strict: Vec<bool> = lines.iter().map(|(_, s)| *s).collect();
    assert_eq!(strict[..6], [true; 6]);
    assert_eq!(strict[6..10], [false; 4]);
    assert_eq!(strict[10..], [true; 3]);
}

#[test]
fn from_patterns_empty_returns_empty() {
    let args = ExcludeArgs::from_patterns(&[]);
    assert!(args.semgrep.is_empty());
    assert!(args.trivy.is_empty());
    assert!(args.jscpd.is_empty());
    assert!(args.scc.is_empty());
}

#[test]
fn from_patterns_dir_patterns_produce_correct_flags() {
    let patterns = vec!["vendor/".to_string(), "node_modules/".to_string()];
    let args = ExcludeArgs::from_patterns(&patterns);
    assert_eq!(args.semgrep, vec!["--exclude", "vendor", "--exclude", "node_modules"]);
    assert_eq!(args.trivy, vec!["--skip-dirs", "vendor", "--skip-dirs", "node_modules"]);
    assert_eq!(args.jscpd, vec!["--ignore", "vendor", "--ignore", "node_modules"]);
    assert_eq!(args.scc, vec!["--exclude-dir", "vendor", "--exclude-dir", "node_modules"]);
}

#[test]
fn from_patterns_glob_excluded_from_trivy_and_scc() {
    let patterns = vec!["*.generated.*".to_string()];
    let args = ExcludeArgs::from_patterns(&patterns);
    assert!(!args.semgrep.is_empty(), "semgrep should get glob pattern");
    assert!(!args.jscpd.is_empty(), "jscpd should get glob pattern");
    assert!(args.trivy.is_empty(), "trivy should NOT receive glob patterns");
    assert!(args.scc.is_empty(), "scc should NOT receive glob patterns");
}

#[test]
fn from_patterns_mixed_glob_and_plain() {
    let patterns = vec!["vendor/".to_string(), "*.min.js".to_string()];
    let args = ExcludeArgs::from_patterns(&patterns);
    assert!(args.jscpd.contains(&"vendor".to_string()));
    assert!(args.jscpd.contains(&"*.min.js".to_string()));
    assert!(args.trivy.contains(&"vendor".to_string()));
    assert!(!args.trivy.contains(&"*.min.js".to_string()));
}

#[test]
fn from_patterns_negation_patterns_skipped() {
    let patterns = vec!["!vendor/important.go".to_string(), "logs/".to_string()];
    let args = ExcludeArgs::from_patterns(&patterns);
    assert!(!args.semgrep.iter().any(|s| s.contains("important")), "negation pattern should be skipped");
    assert!(args.semgrep.contains(&"logs".to_string()));
}

#[test]
fn from_patterns_slash_only_pattern_skipped() {
    let args = ExcludeArgs::from_patterns(&["///".to_string(), "a//".to_string()]);
    assert_eq!(args.semgrep, vec!["--exclude", "a"]);
}

fn cfg_with_excludes(excludes: Vec<&str>) -> RiceGuardConfig {
    let mut c = RiceGuardConfig::default();
    c.filters.exclude = excludes.into_iter().map(String::from).collect();
    c
}

#[test]
fn collect_active_patterns_merges_defaults_and_config() {
    let config = cfg_with_excludes(vec!["custom-dir/"]);
    let patterns = ExcludeArgs::collect_active_patterns(&config);
    for default in FiltersConfig::default_excludes() {
        assert!(patterns.contains(&default), "should contain default: {default}");
    }
    assert!(patterns.contains(&"custom-dir/".to_string()), "should contain config exclude: custom-dir/");
}

#[test]
fn collect_active_patterns_deduplicates() {
    let config = cfg_with_excludes(vec!["vendor/", "custom/"]);
    let patterns = ExcludeArgs::collect_active_patterns(&config);
    let vendor_count = patterns.iter().filter(|p| *p == "vendor/").count();
    assert_eq!(vendor_count, 1, "vendor/ should appear exactly once (deduplicated)");
    assert_eq!(patterns.last().unwrap(), "custom/");
}

#[test]
fn collect_active_patterns_does_not_include_filters_include() {
    let mut config = RiceGuardConfig::default();
    config.filters.includes = vec!["src/**".to_string()];
    config.filters.exclude = vec![];
    let patterns = ExcludeArgs::collect_active_patterns(&config);
    assert!(!patterns.contains(&"src/**".to_string()), "filters.include patterns should NOT appear");
}

#[test]
fn constants_have_expected_values() {
    assert_eq!(RGUARDIGNORE, ".rguardignore");
    assert_eq!(RGIGNORE, ".rgignore");
}

#[test]
fn exclude_flags_by_scanner_name() {
    let args = ExcludeArgs::from_patterns(&["vendor/".to_string(), "*.gen.*".to_string()]);
    assert_eq!(args.flags_for("semgrep"), vec!["--exclude", "vendor", "--exclude", "*.gen.*"]);
    assert_eq!(args.flags_for("trivy"), vec!["--skip-dirs", "vendor"]);
    assert_eq!(args.flags_for("jscpd"), vec!["--ignore", "vendor", "--ignore", "*.gen.*"]);
    assert_eq!(args.flags_for("scc"), vec!["--exclude-dir", "vendor"]);
    assert!(args.flags_for("gitleaks").is_empty());
}

#[test]
fn comments_blank_lines_and_trailing_spaces_in_ignore_files() {
    let files = IgnoreFiles {
        rguardignore: Some("# logs/\n\nbuild/   \n   \n".to_string()),
        ..no_files()
    };
    let engine = build(&empty_config(), false, &files);
    assert!(engine.is_ignored(&path("build"), true), "trailing spaces are trimmed");
    assert!(!engine.is_ignored(&path("logs"), true), "a comment makes no glob");
}

#[test]
fn dot_slash_root_is_accepted() {
    let engine = IgnoreEngine::build("./proj", &empty_config(), false, &no_files()).expect("build");
    assert!(engine.is_ignored("./proj/vendor", true));
    assert!(engine.is_ignored("vendor/lib.rs", false));
    assert!(!engine.is_ignored("./proj/src/main.rs", false));
}

#[test]
fn check_ignored_answers_unless_the_matcher_would_panic() {
    let engine = build(&empty_config(), false, &no_files());
    assert_eq!(engine.check_ignored("vendor//lib.rs", false), Some(true));
    assert_eq!(engine.check_ignored("src//main.rs", false), Some(false));
    assert_eq!(engine.check_ignored(&path("vendor"), true), Some(true));
    assert_eq!(engine.check_ignored("/elsewhere/vendor", true), None);
}
