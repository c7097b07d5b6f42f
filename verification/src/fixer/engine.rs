//! The fix pipeline engine: the project config, the fixer descriptors,
//! and which steps each stage runs.
use vstd::prelude::*;

use crate::config::RiceGuardConfig;
use crate::registry::fixer_descriptor::{FixerStages, FixerStep};
use crate::registry::DescriptorRegistry;
use crate::fixer::report::{FixToolResult, FixToolStatus};
use crate::fixer::runner::RunnerConfig;
use crate::text::{copy_strings, owned, str_eq, to_lowercase, unicode_lower, views};

verus! {

/// Holds what the fix pipeline runs with.
pub struct FixerEngine {
    /// The project configuration.
    pub config: RiceGuardConfig,
    /// The fixer descriptors.
    pub registry: DescriptorRegistry,
}

/// The steps of one stage by its name; none for an unknown name.
pub open spec fn steps_of(s: FixerStages, stage: Seq<char>) -> Seq<FixerStep> {
    if stage == "format"@ {
        s.format@
    } else if stage == "lint"@ {
        s.lint@
    } else if stage == "security"@ {
        s.security@
    } else if stage == "ast"@ {
        s.ast@
    } else if stage == "deps"@ {
        s.deps@
    } else if stage == "import"@ {
        s.import@
    } else {
        Seq::empty()
    }
}

/// The steps of one stage by its name.
pub fn stage_steps<'a>(stages: &'a FixerStages, stage: &str) -> (r: Option<&'a Vec<FixerStep>>)
    ensures
        match r {
            Some(v) => v@ == steps_of(*stages, stage@),
            None => steps_of(*stages, stage@).len() == 0,
        },
{
    if str_eq(stage, "format") {
        Some(&stages.format)
    } else if str_eq(stage, "lint") {
        Some(&stages.lint)
    } else if str_eq(stage, "security") {
        Some(&stages.security)
    } else if str_eq(stage, "ast") {
        Some(&stages.ast)
    } else if str_eq(stage, "deps") {
        Some(&stages.deps)
    } else if str_eq(stage, "import") {
        Some(&stages.import)
    } else {
        None
    }
}

/// One step a stage considers: which descriptor, which of its steps in
/// that stage, and whether it may run (unsafe steps need `--unsafe`).
#[derive(Debug, Clone, Copy, PartialEq, Eq, Structural)]
pub struct PlannedStep {
    pub descriptor: usize,
    pub step: usize,
    pub allowed: bool,
}

/// Whether a descriptor's language is one of the project's (compared
/// lowercased).
pub open spec fn project_language(languages: Seq<Seq<char>>, language: Seq<char>) -> bool {
    languages.map_values(|l: Seq<char>| unicode_lower(l)).contains(unicode_lower(language))
}

/// The steps of `stage` for the descriptors of the project's languages,
/// descriptor after descriptor, each step in order; a step is allowed
/// when it is safe or unsafe fixes were asked for.
pub open spec fn stage_plan_of(
    registry: DescriptorRegistry,
    languages: Seq<Seq<char>>,
    stage: Seq<char>,
    include_unsafe: bool,
    upto: int,
) -> Seq<PlannedStep>
    decreases upto,
{
    if upto <= 0 || upto > registry.fixers@.len() {
        Seq::empty()
    } else {
        let d = upto - 1;
        let desc = registry.fixers@[d];
        stage_plan_of(registry, languages, stage, include_unsafe, d) + if project_language(
            languages,
            desc.language@,
        ) {
            Seq::new(
                steps_of(desc.stages, stage).len(),
                |j: int|
                    PlannedStep {
                        descriptor: d as usize,
                        step: j as usize,
                        allowed: steps_of(desc.stages, stage)[j].safe || include_unsafe,
                    },
            )
        } else {
            Seq::empty()
        }
    }
}

fn in_languages(languages: &Vec<String>, language: &str) -> (b: bool)
    ensures
        b == project_language(views(languages@), language@),
{
    let target = to_lowercase(language);
    let n = languages.len();
    let ghost lows = views(languages@).map_values(|l: Seq<char>| unicode_lower(l));
    for i in 0..n
        invariant
            n == languages@.len(),
            target@ == unicode_lower(language@),
            lows == views(languages@).map_values(|l: Seq<char>| unicode_lower(l)),
            forall|j: int| 0 <= j < i ==> lows[j] != target@,
    {
        let l = to_lowercase(languages[i].as_str());
        assert(lows[i as int] == l@);
        if str_eq(l.as_str(), target.as_str()) {
            assert(lows.contains(target@));
            return true;
        }
    }
    assert(!lows.contains(target@));
    false
}

impl FixerEngine {
    /// An engine for the given config and descriptor registry.
    pub fn new(config: RiceGuardConfig, registry: DescriptorRegistry) -> (e: Self)
        ensures
            e.config == config,
            e.registry == registry,
    {
        FixerEngine { config, registry }
    }

    /// The steps `stage` considers, in the order they run.
    pub fn stage_plan(&self, stage: &str, include_unsafe: bool) -> (v: Vec<PlannedStep>)
        ensures
            v@ == stage_plan_of(
                self.registry,
                views(self.config.project.languages@),
                stage@,
                include_unsafe,
                self.registry.fixers@.len() as int,
            ),
    {
        let mut out: Vec<PlannedStep> = Vec::new();
        let nd = self.registry.fixers.len();
        let ghost langs = views(self.config.project.languages@);
        for d in 0..nd
            invariant
                nd == self.registry.fixers@.len(),
                langs == views(self.config.project.languages@),
                out@ == stage_plan_of(self.registry, langs, stage@, include_unsafe, d as int),
        {
            let desc = &self.registry.fixers[d];
            let ghost before = out@;
            if in_languages(&self.config.project.languages, desc.language.as_str()) {
                match stage_steps(&desc.stages, stage) {
                    Some(steps) => {
                        let ns = steps.len();
                        for j in 0..ns
                            invariant
                                ns == steps@.len(),
                                steps@ == steps_of(desc.stages, stage@),
                                out@ == before + Seq::new(
                                    j as nat,
                                    |k: int|
                                        PlannedStep {
                                            descriptor: d,
                                            step: k as usize,
                                            allowed: steps_of(desc.stages, stage@)[k].safe
                                                || include_unsafe,
                                        },
                                ),
                        {
                            let p = PlannedStep {
                                descriptor: d,
                                step: j,
                                allowed: steps[j].safe || include_unsafe,
                            };
                            out.push(p);
                            proof {
                                assert(out@ =~= before + Seq::new(
                                    (j + 1) as nat,
                                    |k: int|
                                        PlannedStep {
                                            descriptor: d,
                                            step: k as usize,
                                            allowed: steps_of(desc.stages, stage@)[k].safe
                                                || include_unsafe,
                                        },
                                ));
                            }
                        }
                    },
                    None => {},
                }
            }
            proof {
                assert(self.registry.fixers@[d as int] == *desc);
                assert(out@ =~= stage_plan_of(
                    self.registry,
                    langs,
                    stage@,
                    include_unsafe,
                    d + 1,
                ));
            }
        }
        out
    }
}

/// The extra arguments one step runs with: the base ones, then, in unsafe
/// mode, the step's unsafe flag when it has one.
pub open spec fn step_extra_args(base: Seq<Seq<char>>, step: FixerStep, include_unsafe: bool) -> Seq<Seq<char>> {
    match step.unsafe_flag {
        Some(f) => if include_unsafe {
            base.push(f@)
        } else {
            base
        },
        None => base,
    }
}

/// The runner configuration for one step of the pipeline: the base
/// configuration, with the step's unsafe flag added in unsafe mode.
pub fn step_config(base: &RunnerConfig, step: &FixerStep, include_unsafe: bool) -> (c: RunnerConfig)
    ensures
        c.project_root@ == base.project_root@,
        views(c.file_targets@) == views(base.file_targets@),
        c.dry_run == base.dry_run,
        c.timeout_secs == base.timeout_secs,
        views(c.extra_args@) == step_extra_args(views(base.extra_args@), *step, include_unsafe),
{
    let mut extra = copy_strings(&base.extra_args);
    if include_unsafe {
        match &step.unsafe_flag {
            Some(f) => {
                let flag = f.clone();
                proof {
                    assert(views(extra@.push(flag)) =~= views(extra@).push(flag@));
                }
                extra.push(flag);
            },
            None => {},
        }
    }
    RunnerConfig {
        project_root: base.project_root.clone(),
        file_targets: copy_strings(&base.file_targets),
        dry_run: base.dry_run,
        timeout_secs: base.timeout_secs,
        extra_args: extra,
    }
}

/// The result recorded for a step the plan does not allow (an unsafe step
/// without `--unsafe`): skipped, with the reason.
pub fn unsafe_step_skipped(step: &FixerStep, language: &str) -> (r: FixToolResult)
    ensures
        r.name@ == step.name@,
        r.language@ == language@,
        r.status == FixToolStatus::Skipped,
        r.modified_files@.len() == 0,
        r.duration_ms == 0,
        r.error_msg matches Some(m) && m@ == "unsafe fixer: pass --unsafe to run it"@,
{
    FixToolResult {
        name: step.name.clone(),
        language: owned(language),
        status: FixToolStatus::Skipped,
        modified_files: Vec::new(),
        duration_ms: 0,
        error_msg: Some(owned("unsafe fixer: pass --unsafe to run it")),
    }
}

} // verus!
