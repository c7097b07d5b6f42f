use rguard::fixer::engine::{step_config, unsafe_step_skipped};
use rguard::registry::fixer_descriptor::{FixerDescriptor, FixerStages};
use rguard::config::RiceGuardConfig;
use rguard::fixer::engine::FixerEngine;
use rguard::registry::DescriptorRegistry;
use rguard::fixer::report::{FixReport, FixToolResult, FixToolStatus};
use rguard::fixer::runner::{
    build_files_arg, CommandOutcome, FixerRun, RunnerAction, RunnerConfig, RunnerEvent, RunnerPhase,
};
use rguard::fixer::stage_filter::{StageFilter, PIPELINE_STAGES};
use rguard::registry::fixer_descriptor::FixerStep;

#[test]
fn engine_pipeline_stages_in_order() {
    assert_eq!(PIPELINE_STAGES[0], "format");
    assert_eq!(PIPELINE_STAGES[1], "lint");
    assert_eq!(PIPELINE_STAGES[2], "security");
    assert_eq!(PIPELINE_STAGES[3], "ast");
    assert_eq!(PIPELINE_STAGES[4], "deps");
    assert_eq!(PIPELINE_STAGES[5], "import");
    assert_eq!(PIPELINE_STAGES.len(), 6);
}

#[test]
fn stage_filter_pipeline_stages_in_order() {
    let stages = rguard::fixer::stage_filter::pipeline_stages();
    assert_eq!(stages, &["format", "lint", "security", "ast", "deps", "import"]);
    assert_eq!(PIPELINE_STAGES.len(), 6);
}

#[test]
fn no_flags_runs_all() {
    let filter = StageFilter::from_args(false, false, false, false, false, false);
    assert!(filter.includes("format"), "format should run with no flags");
    assert!(filter.includes("security"), "security should run with no flags");
    assert!(filter.includes("import"), "import should run with no flags");
}

#[test]
fn formatters_flag_selects_format() {
    let filter = StageFilter::from_args(true, false, false, false, false, false);
    assert!(filter.includes("format"), "format stage should be included");
    assert!(!filter.includes("lint"), "lint stage should NOT be included");
}

#[test]
fn combined_flags_run_both() {
    let filter = StageFilter::from_args(true, true, false, false, false, false);
    assert!(filter.includes("format"), "format should be included");
    assert!(filter.includes("lint"), "lint should be included");
    assert!(!filter.includes("security"), "security should NOT be included");
}

#[test]
fn imports_flag_selects_import_only() {
    let filter = StageFilter::from_args(false, false, false, false, false, true);
    assert!(filter.includes("import"));
    assert!(!filter.includes("format"));
    assert!(!filter.includes("unknown-stage"));
}

#[test]
fn record_tool_updates_summary() {
    let mut report = FixReport::new("test-project".to_string(), false);
    let fixed = FixToolResult {
        name: "rustfmt".to_string(),
        language: "rust".to_string(),
        status: FixToolStatus::Fixed,
        modified_files: vec!["src/main.rs".to_string()],
        duration_ms: 10,
        error_msg: None,
    };
    let attempted = FixToolResult {
        name: "clippy".to_string(),
        language: "rust".to_string(),
        status: FixToolStatus::Attempted,
        modified_files: vec![],
        duration_ms: 20,
        error_msg: None,
    };
    report.record_tool("format", fixed);
    report.record_tool("lint", attempted);
    assert_eq!(report.summary.total_fixed, 1);
    assert_eq!(report.summary.total_attempted, 1);
    assert_eq!(report.summary.total_skipped, 0);
}

#[test]
fn report_stage_lifecycle() {
    let mut report = FixReport::new("p".to_string(), true);
    assert_eq!(report.schema_version, "1.0");
    assert!(report.dry_run);
    report.record_skipped("ast");
    report.record_failed("deps");
    report.record_tool(
        "format",
        FixToolResult {
            name: "gofmt".to_string(),
            language: "go".to_string(),
            status: FixToolStatus::DryRunWouldFix,
            modified_files: vec![],
            duration_ms: 1,
            error_msg: None,
        },
    );
    assert_eq!(report.stages.get("format").unwrap().status, "running");
    report.finish_stage("format");
    report.finish_stage("nothing-here");
    assert_eq!(report.stages.get("format").unwrap().status, "completed");
    assert_eq!(report.stages.get("format").unwrap().tools.len(), 1);
    assert_eq!(report.stages.get("ast").unwrap().status, "skipped");
    assert_eq!(report.stages.get("deps").unwrap().status, "failed");
    assert!(report.stages.get("nothing-here").is_none());
    // dry-run outcomes count as "no issues"
    assert_eq!(report.summary.total_no_issues, 1);
}

fn make_step(check: &str, fix: &str) -> FixerStep {
    FixerStep {
        name: "tool".to_string(),
        check: check.to_string(),
        fix: fix.to_string(),
        scope: "project".to_string(),
        safe: true,
        unsafe_flag: None,
    }
}

fn config(dry_run: bool, files: Vec<&str>) -> RunnerConfig {
    RunnerConfig {
        project_root: "/proj".to_string(),
        file_targets: files.into_iter().map(String::from).collect(),
        dry_run,
        timeout_secs: None,
        extra_args: vec!["--exclude".to_string(), "vendor".to_string()],
    }
}

fn report_of(a: RunnerAction) -> (FixToolStatus, Vec<String>, Option<String>) {
    match a {
        RunnerAction::Report(o) => (o.status, o.modified_files, o.error_msg),
        other => panic!("expected a report, got {:?}", other),
    }
}

#[test]
fn build_files_arg_joins_or_uses_root() {
    assert_eq!(build_files_arg(&[], "/proj"), "/proj");
    assert_eq!(build_files_arg(&["a.rs".to_string(), "b c.rs".to_string()], "/proj"), "a.rs b c.rs");
}

#[test]
fn check_fix_verify_cycle() {
    let step = make_step("lint --check {{files}}", "lint --fix {{files}}");
    let mut run = FixerRun::new(&step, &config(false, vec![]));
    match run.advance(RunnerEvent::Start) {
        RunnerAction::RunCheck(args) => {
            assert_eq!(args, vec!["lint", "--check", "/proj", "--exclude", "vendor"])
        }
        other => panic!("unexpected {:?}", other),
    }
    match run.advance(RunnerEvent::Finished(CommandOutcome::Exited(1))) {
        RunnerAction::SnapshotThenFix(args) => {
            assert_eq!(args, vec!["lint", "--fix", "/proj", "--exclude", "vendor"])
        }
        other => panic!("unexpected {:?}", other),
    }
    assert!(matches!(
        run.advance(RunnerEvent::Finished(CommandOutcome::Exited(0))),
        RunnerAction::CollectChanges
    ));
    match run.advance(RunnerEvent::Changes(vec!["/proj/a.rs".to_string()])) {
        RunnerAction::RunVerify(args) => assert_eq!(args[1], "--check"),
        other => panic!("unexpected {:?}", other),
    }
    let (status, files, err) = report_of(run.advance(RunnerEvent::Finished(CommandOutcome::Exited(0))));
    assert_eq!(status, FixToolStatus::Fixed);
    assert_eq!(files, vec!["/proj/a.rs"]);
    assert!(err.is_none());
    assert!(run.is_done());
}

#[test]
fn verify_still_failing_is_attempted() {
    let step = make_step("t --check", "t --fix");
    let mut run = FixerRun::new(&step, &config(false, vec![]));
    run.advance(RunnerEvent::Start);
    run.advance(RunnerEvent::Finished(CommandOutcome::Exited(3)));
    run.advance(RunnerEvent::Finished(CommandOutcome::Timeout));
    run.advance(RunnerEvent::Changes(vec![]));
    let (status, _, _) = report_of(run.advance(RunnerEvent::Finished(CommandOutcome::Exited(1))));
    assert_eq!(status, FixToolStatus::Attempted);
}

#[test]
fn dry_run_no_file_changes() {
    let step = make_step("t --check", "t --fix");
    let mut run = FixerRun::new(&step, &config(true, vec![]));
    run.advance(RunnerEvent::Start);
    let (status, files, _) = report_of(run.advance(RunnerEvent::Finished(CommandOutcome::Exited(1))));
    assert_eq!(status, FixToolStatus::DryRunWouldFix);
    assert!(files.is_empty());
    assert_eq!(run.phase, RunnerPhase::Done);
}

#[test]
fn unavailable_tool_skips() {
    let step = make_step("___nonexistent_tool_xyz___ --check .", "___nonexistent_tool_xyz___ --fix .");
    let mut run = FixerRun::new(&step, &config(false, vec![]));
    run.advance(RunnerEvent::Start);
    let (status, _, err) = report_of(run.advance(RunnerEvent::Finished(CommandOutcome::SpawnFailed(
        "No such file or directory".to_string(),
    ))));
    assert_eq!(status, FixToolStatus::Skipped);
    assert_eq!(err.unwrap(), "tool unavailable: No such file or directory");
}

#[test]
fn file_targets_substituted() {
    let step = make_step("t --check {{files}}", "t --fix {{files}}");
    let mut run = FixerRun::new(&step, &config(false, vec!["src/a.rs", "src/b.rs"]));
    match run.advance(RunnerEvent::Start) {
        RunnerAction::RunCheck(args) => assert_eq!(args[2], "src/a.rs src/b.rs"),
        other => panic!("unexpected {:?}", other),
    }
}

#[test]
fn clean_check_means_no_issues_and_timeout_skips() {
    let step = make_step("t", "t --fix");
    let mut run = FixerRun::new(&step, &config(false, vec![]));
    run.advance(RunnerEvent::Start);
    let (status, _, _) = report_of(run.advance(RunnerEvent::Finished(CommandOutcome::Exited(0))));
    assert_eq!(status, FixToolStatus::NoIssues);

    let mut run = FixerRun::new(&step, &config(false, vec![]));
    run.advance(RunnerEvent::Start);
    let (status, _, err) = report_of(run.advance(RunnerEvent::Finished(CommandOutcome::Timeout)));
    assert_eq!(status, FixToolStatus::Skipped);
    assert_eq!(err.unwrap(), "check command timed out");
}

#[test]
fn invalid_templates_are_reported() {
    let step = make_step("   ", "t --fix");
    let mut run = FixerRun::new(&step, &config(false, vec![]));
    let (status, _, err) = report_of(run.advance(RunnerEvent::Start));
    assert_eq!(status, FixToolStatus::Skipped);
    assert_eq!(err.unwrap(), "invalid check command: Empty command in descriptor");

    let step = make_step("t --check", "t 'unclosed");
    let mut run = FixerRun::new(&step, &config(false, vec![]));
    run.advance(RunnerEvent::Start);
    let (status, _, err) = report_of(run.advance(RunnerEvent::Finished(CommandOutcome::Exited(2))));
    assert_eq!(status, FixToolStatus::Failed);
    assert_eq!(
        err.unwrap(),
        "invalid fix command: Invalid command template: shlex could not parse: t 'unclosed"
    );
}

#[test]
fn fix_spawn_failure_fails() {
    let step = make_step("t --check", "t --fix");
    let mut run = FixerRun::new(&step, &config(false, vec![]));
    run.advance(RunnerEvent::Start);
    run.advance(RunnerEvent::Finished(CommandOutcome::Exited(1)));
    let (status, _, err) = report_of(run.advance(RunnerEvent::Finished(CommandOutcome::SpawnFailed(
        "denied".to_string(),
    ))));
    assert_eq!(status, FixToolStatus::Failed);
    assert_eq!(err.unwrap(), "denied");
}

fn descriptor(language: &str, lint: Vec<FixerStep>) -> FixerDescriptor {
    FixerDescriptor {
        name: language.to_string(),
        language: language.to_string(),
        detect: vec![],
        stages: FixerStages { format: vec![], lint, security: vec![], ast: vec![], deps: vec![], import: vec![] },
    }
}

#[test]
fn stage_plan_lists_project_language_steps_and_gates_unsafe_ones() {
    let mut unsafe_step = make_step("clippy --check", "clippy --fix");
    unsafe_step.safe = false;
    let registry = DescriptorRegistry::new(vec![
        descriptor("go", vec![make_step("gofmt -l .", "gofmt -w .")]),
        descriptor("rust", vec![make_step("cargo fmt --check", "cargo fmt"), unsafe_step]),
    ]);
    let mut config = RiceGuardConfig::empty();
    config.project.languages = vec!["Rust".to_string()];
    let engine = FixerEngine::new(config, registry);

    let plan = engine.stage_plan("lint", false);
    let got: Vec<(usize, usize, bool)> = plan.iter().map(|p| (p.descriptor, p.step, p.allowed)).collect();
    assert_eq!(got, vec![(1, 0, true), (1, 1, false)]);

    let plan = engine.stage_plan("lint", true);
    let got: Vec<(usize, usize, bool)> = plan.iter().map(|p| (p.descriptor, p.step, p.allowed)).collect();
    assert_eq!(got, vec![(1, 0, true), (1, 1, true)]);

    assert!(engine.stage_plan("format", true).is_empty());
    assert!(engine.stage_plan("no-such-stage", true).is_empty());
}

#[test]
fn step_config_adds_unsafe_flag_only_in_unsafe_mode() {
    let base = RunnerConfig {
        project_root: "/proj".to_string(),
        file_targets: vec!["a.rs".to_string()],
        dry_run: false,
        timeout_secs: Some(30),
        extra_args: vec!["--quiet".to_string()],
    };
    let mut step = make_step("clippy --check", "clippy --fix");
    step.unsafe_flag = Some("--allow-dirty".to_string());
    let c = step_config(&base, &step, true);
    assert_eq!(c.extra_args, vec!["--quiet", "--allow-dirty"]);
    assert_eq!(c.project_root, "/proj");
    assert_eq!(c.file_targets, vec!["a.rs"]);
    assert_eq!(c.timeout_secs, Some(30));
    let c = step_config(&base, &step, false);
    assert_eq!(c.extra_args, vec!["--quiet"]);
}

#[test]
fn unsafe_steps_are_skipped_with_reason() {
    let r = unsafe_step_skipped(&make_step("x --check", "x --fix"), "rust");
    assert!(matches!(r.status, FixToolStatus::Skipped));
    assert_eq!(r.name, "tool");
    assert_eq!(r.language, "rust");
    assert!(r.modified_files.is_empty());
    assert_eq!(r.error_msg.as_deref(), Some("unsafe fixer: pass --unsafe to run it"));
}

#[test]
fn stage_filter_law_on_every_flag() {
    let none = StageFilter::from_args(false, false, false, false, false, false);
    assert!(none.includes("not-a-stage"));
    for k in 0..6 {
        let f = |j: usize| j == k;
        let filter = StageFilter::from_args(f(0), f(1), f(2), f(3), f(4), f(5));
        for (j, stage) in PIPELINE_STAGES.iter().enumerate() {
            assert_eq!(filter.includes(stage), j == k, "flag {k}, stage {stage}");
        }
        assert!(!filter.includes("not-a-stage"));
    }
}

#[test]
fn report_stages_are_listed_in_key_order() {
    let tool = |name: &str| FixToolResult {
        name: name.to_string(),
        language: "rust".to_string(),
        status: FixToolStatus::Attempted,
        modified_files: vec![],
        duration_ms: 1,
        error_msg: None,
    };
    let mut report = FixReport::new("p".to_string(), false);
    report.record_tool("lint", tool("clippy"));
    report.record_tool("format", tool("rustfmt"));
    report.record_skipped("ast");
    report.record_tool("lint", tool("eslint"));
    let keys: Vec<&str> = report.stages.entries().iter().map(|(k, _)| k.as_str()).collect();
    assert_eq!(keys, vec!["ast", "format", "lint"]);
    assert_eq!(report.stages.get("lint").map(|s| s.tools.len()), Some(2));
}
