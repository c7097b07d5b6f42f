//! The project configuration and support files that `init` generates from
//! the detection results and the wizard's choices.
use vstd::prelude::*;

use crate::config::{
    default_exclude_patterns, Architecture, CiConfig, FiltersConfig, FixersConfig, GitleaksConfig,
    HooksConfig, JscpdConfig, OutputConfig, PreCommitConfig, ProjectConfig, RiceGuardConfig,
    SccConfig, ScannersConfig, SemgrepConfig, SonarqubeConfig, ToolsConfig, Topology, TrivyConfig,
};
use crate::init::detector::{detected_language_names, lower_names, DetectionResult, SccLanguage};
use crate::init::wizard::{CiProvider, WizardChoices};
use crate::registry::probe::ProbeResult;
use crate::paths::{join_path, path_join};
use crate::strmap::StrMap;
use crate::text::{
    concat, ends_with, forward_slashes, has_prefix, has_suffix, owned, replace_all, replace_str,
    starts_with, to_forward_slashes, to_lowercase, unicode_lower, views,
};

verus! {

/// All inputs needed to generate the config and supporting files.
pub struct GeneratorInput {
    /// Short project name (e.g. `"my-app"`).
    pub project_name: String,
    /// Path to the project root.
    pub project_path: String,
    /// Result of the detection pipeline.
    pub detection: DetectionResult,
    /// Choices from the wizard or `noninteractive_choices()`.
    pub choices: WizardChoices,
}

impl DetectionResult {
    /// The probe maps are well formed, the inner ones too.
    pub open spec fn wf(&self) -> bool {
        &&& self.scanner_probes.wf()
        &&& self.fixer_probes.wf()
        &&& forall|k: Seq<char>| #[trigger]
            self.fixer_probes@.contains_key(k) ==> self.fixer_probes@[k].wf()
    }
}

/// Whether the named tool was probed and found available.
pub open spec fn available(probes: Map<Seq<char>, ProbeResult>, name: Seq<char>) -> bool {
    probes.contains_key(name) && probes[name] is Available
}

/// Whether a probe found its tool available.
pub open spec fn is_up(p: ProbeResult) -> bool {
    p is Available
}

/// Returns `true` when the named tool has an `Available` probe result.
pub fn is_available(probes: &StrMap<ProbeResult>, name: &str) -> (b: bool)
    requires
        probes.wf(),
    ensures
        b == available(probes@, name@),
{
    match probes.get(name) {
        Some(ProbeResult::Available { .. }) => true,
        _ => false,
    }
}

/// The availability of the tool under `k` is recorded.
pub open spec fn recorded(out: Map<Seq<char>, bool>, probes: Map<Seq<char>, ProbeResult>, k: Seq<char>) -> bool {
    out.contains_key(k) && out[k] == is_up(probes[k])
}

/// Each probed tool mapped to whether it is available.
fn availability(probes: &StrMap<ProbeResult>) -> (r: StrMap<bool>)
    requires
        probes.wf(),
    ensures
        r.wf(),
        r@ == probes@.map_values(|p: ProbeResult| is_up(p)),
{
    let es = probes.entries();
    let n = es.len();
    let mut out: StrMap<bool> = StrMap::new();
    proof {
        probes.lemma_entries();
    }
    let mut i: usize = 0;
    while i < n
        invariant
            n == es@.len(),
            i <= n,
            es@ == probes.entry_seq(),
            probes.wf(),
            out.wf(),
            forall|j: int| 0 <= j < i ==> recorded(out@, probes@, #[trigger] es@[j].0@),
            forall|k: Seq<char>| #[trigger]
                out@.contains_key(k) ==> exists|j: int| 0 <= j < i && es@[j].0@ == k,
            forall|j: int|
                0 <= j < es@.len() ==> probes@.contains_key(#[trigger] es@[j].0@) && probes@[es@[j].0@]
                    == es@[j].1,
        decreases n - i,
    {
        let e = &es[i];
        let ghost old_out = out;
        let up = match &e.1 {
            ProbeResult::Available { .. } => true,
            _ => false,
        };
        assert(up == is_up(probes@[es@[i as int].0@]));
        let key = e.0.clone();
        assert(key@ == es@[i as int].0@);
        out.insert(key, up);
        proof {
            assert forall|j: int| 0 <= j < i + 1 implies recorded(out@, probes@, #[trigger] es@[j].0@) by {
                if es@[j].0@ != es@[i as int].0@ {
                    assert(recorded(old_out@, probes@, es@[j].0@));
                }
            }
            assert forall|k: Seq<char>| #[trigger] out@.contains_key(k) implies exists|j: int|
                0 <= j < i + 1 && es@[j].0@ == k by {
                if k == es@[i as int].0@ {
                    assert(es@[i as int].0@ == k);
                }
            }
        }
        i = i + 1;
    }
    proof {
        assert forall|k: Seq<char>| out@.contains_key(k) <==> probes@.contains_key(k) by {
            if probes@.contains_key(k) {
                let j = choose|j: int| 0 <= j < probes.entry_seq().len() && #[trigger] probes.entry_seq()[j].0@ == k;
                assert(recorded(out@, probes@, es@[j].0@));
            }
        }
        assert forall|k: Seq<char>| #[trigger] out@.contains_key(k) implies out@[k] == is_up(probes@[k]) by {
            let j = choose|j: int| 0 <= j < probes.entry_seq().len() && #[trigger] probes.entry_seq()[j].0@ == k;
            assert(recorded(out@, probes@, es@[j].0@));
        }
        assert(out@ =~= probes@.map_values(|p: ProbeResult| is_up(p)));
    }
    out
}

/// Each language's fixer steps mapped to whether they are available.
fn nested_availability(probes: &StrMap<StrMap<ProbeResult>>) -> (r: StrMap<StrMap<bool>>)
    requires
        probes.wf(),
        forall|k: Seq<char>| #[trigger] probes@.contains_key(k) ==> probes@[k].wf(),
    ensures
        r.wf(),
        r@.dom() == probes@.dom(),
        forall|k: Seq<char>| #[trigger]
            r@.contains_key(k) ==> r@[k].wf() && r@[k]@ == probes@[k]@.map_values(
                |p: ProbeResult| is_up(p),
            ),
{
    let es = probes.entries();
    let n = es.len();
    let mut out: StrMap<StrMap<bool>> = StrMap::new();
    proof {
        probes.lemma_entries();
    }
    for i in 0..n
        invariant
            n == es@.len(),
            es@ == probes.entry_seq(),
            probes.wf(),
            forall|k: Seq<char>| #[trigger] probes@.contains_key(k) ==> probes@[k].wf(),
            out.wf(),
            forall|j: int| 0 <= j < i ==> #[trigger] out@.contains_key(es@[j].0@),
            forall|k: Seq<char>| #[trigger]
                out@.contains_key(k) ==> out@[k].wf() && out@[k]@ == probes@[k]@.map_values(
                    |p: ProbeResult| is_up(p),
                ) && exists|j: int| 0 <= j < i && es@[j].0@ == k,
            forall|j: int|
                0 <= j < es@.len() ==> probes@.contains_key(#[trigger] es@[j].0@) && probes@[es@[j].0@]
                    == es@[j].1,
    {
        let e = &es[i];
        assert(probes@.contains_key(es@[i as int].0@));
        let inner = availability(&e.1);
        out.insert(e.0.clone(), inner);
        proof {
            assert forall|k: Seq<char>| #[trigger] out@.contains_key(k) implies out@[k].wf()
                && out@[k]@ == probes@[k]@.map_values(|p: ProbeResult| is_up(p)) && exists|j: int|
                0 <= j < i + 1 && es@[j].0@ == k by {
                if k == es@[i as int].0@ {
                    assert(es@[i as int].0@ == k);
                }
            }
        }
    }
    proof {
        assert forall|k: Seq<char>| out@.dom().contains(k) <==> probes@.dom().contains(k) by {
            if probes@.contains_key(k) {
                let j = choose|j: int| 0 <= j < probes.entry_seq().len() && #[trigger] probes.entry_seq()[j].0@ == k;
                assert(out@.contains_key(es@[j].0@));
            }
        }
        assert(out@.dom() =~= probes@.dom());
    }
    out
}

/// The CI provider's name in the config.
pub open spec fn ci_provider_text(c: CiProvider) -> Seq<char> {
    match c {
        CiProvider::Github => "github"@,
        CiProvider::Gitlab => "gitlab"@,
        CiProvider::NoCi => "none"@,
    }
}

fn ci_provider_str(c: CiProvider) -> (s: &'static str)
    ensures
        s@ == ci_provider_text(c),
{
    match c {
        CiProvider::Github => "github",
        CiProvider::Gitlab => "gitlab",
        CiProvider::NoCi => "none",
    }
}

/// The configuration `init` writes: the detected languages (lowercased);
/// each scanner enabled only when its probe found it available; the
/// security fixers only with semgrep; the default excludes; the probe
/// results as tool availability; lefthook pre-commit hooks running the
/// security and CVE checks when asked for; the chosen CI provider.
pub open spec fn config_ok(input: GeneratorInput, c: RiceGuardConfig) -> bool {
    let probes = input.detection.scanner_probes@;
    let semgrep = available(probes, "semgrep"@);
    let pre_commit = input.choices.pre_commit;
    &&& c.version@ == "1"@
    &&& c.project.name@ == input.project_name@
    &&& views(c.project.languages@) == lower_names(input.detection.languages@)
    &&& c.project.topology == input.choices.topology
    &&& c.project.architecture == input.choices.architecture
    &&& c.scanners.semgrep.enabled == semgrep
    &&& views(c.scanners.semgrep.rulesets@) == seq!["p/default"@]
    &&& c.scanners.trivy.enabled == available(probes, "trivy"@)
    &&& views(c.scanners.trivy.scanners@) == seq!["vuln"@, "secret"@]
    &&& c.scanners.gitleaks.enabled == available(probes, "gitleaks"@)
    &&& c.scanners.jscpd.enabled == available(probes, "jscpd"@)
    &&& c.scanners.jscpd.threshold == 10
    &&& c.scanners.scc.enabled
    &&& !c.scanners.sonarqube.enabled
    &&& c.fixers == (FixersConfig {
        formatters: true,
        linters: true,
        security: semgrep,
        ast: false,
        deps: true,
        allow_unsafe: false,
    })
    &&& c.filters.includes@.len() == 0
    &&& views(c.filters.exclude@) == default_exclude_patterns()
    &&& c.filters.respect_gitignore == input.choices.respect_gitignore
    &&& c.tools.scanners.wf()
    &&& c.tools.scanners@ == probes.map_values(|p: ProbeResult| is_up(p))
    &&& c.tools.fixers.wf()
    &&& c.tools.fixers@.dom() == input.detection.fixer_probes@.dom()
    &&& forall|k: Seq<char>| #[trigger]
        c.tools.fixers@.contains_key(k) ==> c.tools.fixers@[k].wf() && c.tools.fixers@[k]@
            == input.detection.fixer_probes@[k]@.map_values(|p: ProbeResult| is_up(p))
    &&& c.hooks.pre_commit.enabled == pre_commit
    &&& c.hooks.pre_commit.manager@ == (if pre_commit {
        "lefthook"@
    } else {
        Seq::<char>::empty()
    })
    &&& views(c.hooks.pre_commit.checks@) == (if pre_commit {
        seq!["security"@, "cve"@]
    } else {
        Seq::<Seq<char>>::empty()
    })
    &&& c.ci.provider@ == ci_provider_text(input.choices.ci_provider)
    &&& c.ci.diff_only
}

fn strings2(a: &str, b: &str) -> (v: Vec<String>)
    ensures
        views(v@) == seq![a@, b@],
{
    let mut v: Vec<String> = Vec::new();
    v.push(owned(a));
    v.push(owned(b));
    assert(views(v@) =~= seq![a@, b@]);
    v
}

/// Builds the configuration from the detection results and choices.
pub fn build_config(input: &GeneratorInput) -> (c: RiceGuardConfig)
    requires
        input.detection.wf(),
    ensures
        config_ok(*input, c),
{
    let languages = detected_language_names(&input.detection.languages);
    let probes = &input.detection.scanner_probes;
    let semgrep_enabled = is_available(probes, "semgrep");
    let trivy_enabled = is_available(probes, "trivy");
    let gitleaks_enabled = is_available(probes, "gitleaks");
    let jscpd_enabled = is_available(probes, "jscpd");
    let mut rulesets: Vec<String> = Vec::new();
    rulesets.push(owned("p/default"));
    assert(views(rulesets@) =~= seq!["p/default"@]);
    let pre_commit = input.choices.pre_commit;
    let checks = if pre_commit {
        strings2("security", "cve")
    } else {
        let v: Vec<String> = Vec::new();
        assert(views(v@) =~= Seq::<Seq<char>>::empty());
        v
    };
    let manager = if pre_commit {
        owned("lefthook")
    } else {
        String::new()
    };
    RiceGuardConfig {
        version: owned("1"),
        project: ProjectConfig {
            name: input.project_name.clone(),
            languages,
            topology: input.choices.topology,
            architecture: input.choices.architecture,
        },
        scanners: ScannersConfig {
            semgrep: SemgrepConfig { enabled: semgrep_enabled, rulesets },
            trivy: TrivyConfig { enabled: trivy_enabled, scanners: strings2("vuln", "secret") },
            gitleaks: GitleaksConfig { enabled: gitleaks_enabled },
            jscpd: JscpdConfig { enabled: jscpd_enabled, threshold: 10 },
            scc: SccConfig { enabled: true },
            sonarqube: SonarqubeConfig {
                enabled: false,
                host: String::new(),
                token: None,
                project_key: None,
            },
        },
        fixers: FixersConfig {
            formatters: true,
            linters: true,
            security: semgrep_enabled,
            ast: false,
            deps: true,
            allow_unsafe: false,
        },
        filters: FiltersConfig {
            includes: Vec::new(),
            exclude: FiltersConfig::default_excludes(),
            respect_gitignore: input.choices.respect_gitignore,
        },
        tools: ToolsConfig {
            scanners: availability(probes),
            fixers: nested_availability(&input.detection.fixer_probes),
        },
        output: OutputConfig {},
        hooks: HooksConfig { pre_commit: PreCommitConfig { enabled: pre_commit, manager, checks } },
        ci: CiConfig { provider: owned(ci_provider_str(input.choices.ci_provider)), diff_only: true },
    }
}

/// The primary language: the first detected one, lowercased, or
/// `"generic"` when none was detected.
pub open spec fn primary_language_of(ls: Seq<SccLanguage>) -> Seq<char> {
    if ls.len() > 0 {
        unicode_lower(ls[0].name@)
    } else {
        "generic"@
    }
}

/// The primary language of the detected ones.
pub fn primary_language(languages: &Vec<SccLanguage>) -> (s: String)
    ensures
        s@ == primary_language_of(languages@),
{
    if languages.len() > 0 {
        to_lowercase(languages[0].name.as_str())
    } else {
        owned("generic")
    }
}

/// The name of an architecture pattern in generated rules.
pub open spec fn architecture_text(a: Architecture) -> Seq<char> {
    match a {
        Architecture::Plain => "none"@,
        Architecture::Clean => "clean"@,
        Architecture::Hexagonal => "hexagonal"@,
        Architecture::Mvc => "mvc"@,
    }
}

/// The name of an architecture pattern in generated rules.
pub fn architecture_name(a: Architecture) -> (s: &'static str)
    ensures
        s@ == architecture_text(a),
{
    match a {
        Architecture::Plain => "none",
        Architecture::Clean => "clean",
        Architecture::Hexagonal => "hexagonal",
        Architecture::Mvc => "mvc",
    }
}

/// The lefthook template with the project name filled in.
pub fn render_lefthook(template: &str, project_name: &str) -> (s: String)
    ensures
        s@ == replace_all(template@, "{{project_name}}"@, project_name@),
{
    proof {
        reveal_strlit("{{project_name}}");
    }
    replace_str(template, "{{project_name}}", project_name)
}

/// The semgrep architecture rules template with the project name, the
/// architecture and the primary language filled in, in that order.
pub fn render_semgrep_architecture(
    template: &str,
    project_name: &str,
    architecture: &str,
    primary_language: &str,
) -> (s: String)
    ensures
        s@ == replace_all(
            replace_all(
                replace_all(template@, "{{project_name}}"@, project_name@),
                "{{architecture}}"@,
                architecture@,
            ),
            "{{primary_language}}"@,
            primary_language@,
        ),
{
    proof {
        reveal_strlit("{{project_name}}");
        reveal_strlit("{{architecture}}");
        reveal_strlit("{{primary_language}}");
    }
    let a = replace_str(template, "{{project_name}}", project_name);
    let b = replace_str(a.as_str(), "{{architecture}}", architecture);
    replace_str(b.as_str(), "{{primary_language}}", primary_language)
}

/// The ast-grep patterns template with the project name and the primary
/// language filled in, in that order.
pub fn render_ast_grep(template: &str, project_name: &str, primary_language: &str) -> (s: String)
    ensures
        s@ == replace_all(
            replace_all(template@, "{{project_name}}"@, project_name@),
            "{{primary_language}}"@,
            primary_language@,
        ),
{
    proof {
        reveal_strlit("{{project_name}}");
        reveal_strlit("{{primary_language}}");
    }
    let a = replace_str(template, "{{project_name}}", project_name);
    replace_str(a.as_str(), "{{primary_language}}", primary_language)
}

/// A file that `init` writes.
#[derive(Debug, Clone, Copy, PartialEq, Eq, Structural)]
pub enum GeneratedKind {
    /// `.riceguard.yaml`, the project configuration.
    Config,
    /// `lefthook.yml`, the pre-commit hooks.
    Lefthook,
    /// `.github/workflows/quality.yml`.
    GithubActions,
    /// `.gitlab-ci.yml`.
    GitlabCi,
    /// `.riceguard/semgrep/architecture.yaml`.
    SemgrepArchitecture,
    /// `.riceguard/ast-grep/patterns.yaml`.
    AstGrep,
}

/// Where a generated file goes, relative to the project root.
pub open spec fn kind_path(k: GeneratedKind) -> Seq<char> {
    match k {
        GeneratedKind::Config => ".riceguard.yaml"@,
        GeneratedKind::Lefthook => "lefthook.yml"@,
        GeneratedKind::GithubActions => ".github/workflows/quality.yml"@,
        GeneratedKind::GitlabCi => ".gitlab-ci.yml"@,
        GeneratedKind::SemgrepArchitecture => ".riceguard/semgrep/architecture.yaml"@,
        GeneratedKind::AstGrep => ".riceguard/ast-grep/patterns.yaml"@,
    }
}

fn kind_rel_path(k: GeneratedKind) -> (s: &'static str)
    ensures
        s@ == kind_path(k),
{
    match k {
        GeneratedKind::Config => ".riceguard.yaml",
        GeneratedKind::Lefthook => "lefthook.yml",
        GeneratedKind::GithubActions => ".github/workflows/quality.yml",
        GeneratedKind::GitlabCi => ".gitlab-ci.yml",
        GeneratedKind::SemgrepArchitecture => ".riceguard/semgrep/architecture.yaml",
        GeneratedKind::AstGrep => ".riceguard/ast-grep/patterns.yaml",
    }
}

/// The CI provider and architecture names the config is written with are
/// read back by the wizard as the same choices: writing and reading a
/// choice are inverse.
pub proof fn lemma_choice_names_round_trip(c: CiProvider, a: Architecture)
    ensures
        crate::init::wizard::ci_provider_named(ci_provider_text(c)) == c,
        crate::init::wizard::architecture_named(architecture_text(a)) == a,
{
    reveal_strlit("github");
    reveal_strlit("gitlab");
    reveal_strlit("none");
    reveal_strlit("clean");
    reveal_strlit("hexagonal");
    reveal_strlit("mvc");
    assert("github"@[3] == 'h' && "gitlab"@[3] == 'l' && "none"@.len() == 4 && "github"@.len() == 6);
    assert("clean"@.len() == 5 && "hexagonal"@.len() == 9 && "mvc"@.len() == 3);
}

/// Every kind of generated file goes to its own path: no two kinds share
/// one.
pub proof fn lemma_kind_paths_distinct(k1: GeneratedKind, k2: GeneratedKind)
    ensures
        kind_path(k1) == kind_path(k2) ==> k1 == k2,
{
    reveal_strlit(".riceguard.yaml");
    reveal_strlit("lefthook.yml");
    reveal_strlit(".github/workflows/quality.yml");
    reveal_strlit(".gitlab-ci.yml");
    reveal_strlit(".riceguard/semgrep/architecture.yaml");
    reveal_strlit(".riceguard/ast-grep/patterns.yaml");
    assert(".riceguard.yaml"@.len() == 15 && "lefthook.yml"@.len() == 12);
    assert(".github/workflows/quality.yml"@.len() == 29 && ".gitlab-ci.yml"@.len() == 14);
    assert(".riceguard/semgrep/architecture.yaml"@.len() == 36);
    assert(".riceguard/ast-grep/patterns.yaml"@.len() == 33);
}

/// The files `init` writes, in order: the config always; lefthook hooks
/// when pre-commit is chosen; the chosen CI provider's workflow; semgrep
/// architecture rules when an architecture is chosen; ast-grep pattern
/// stubs always.
pub open spec fn planned_kinds(
    pre_commit: bool,
    ci: CiProvider,
    architecture: Architecture,
) -> Seq<GeneratedKind> {
    seq![GeneratedKind::Config] + (if pre_commit {
        seq![GeneratedKind::Lefthook]
    } else {
        Seq::empty()
    }) + match ci {
        CiProvider::Github => seq![GeneratedKind::GithubActions],
        CiProvider::Gitlab => seq![GeneratedKind::GitlabCi],
        CiProvider::NoCi => Seq::empty(),
    } + (if architecture != Architecture::Plain {
        seq![GeneratedKind::SemgrepArchitecture]
    } else {
        Seq::empty()
    }) + seq![GeneratedKind::AstGrep]
}

/// A file that `init` writes, with its full path.
pub struct GeneratedFile {
    /// The full path, with forward slashes.
    pub path: String,
    /// Which file it is.
    pub kind: GeneratedKind,
}

/// The paths and kinds of the files planned.
pub open spec fn file_views(v: Seq<GeneratedFile>) -> Seq<(Seq<char>, GeneratedKind)> {
    v.map_values(|f: GeneratedFile| (f.path@, f.kind))
}

/// The planned files with their full paths.
pub open spec fn planned_files_of(
    project_path: Seq<char>,
    kinds: Seq<GeneratedKind>,
) -> Seq<(Seq<char>, GeneratedKind)> {
    kinds.map_values(
        |k: GeneratedKind| (forward_slashes(path_join(project_path, kind_path(k))), k),
    )
}

fn push_planned(out: &mut Vec<GeneratedFile>, project_path: &str, kind: GeneratedKind)
    ensures
        file_views(final(out)@) == file_views(old(out)@).push(
            (forward_slashes(path_join(project_path@, kind_path(kind))), kind),
        ),
{
    let full = join_path(project_path, kind_rel_path(kind));
    let f = GeneratedFile { path: to_forward_slashes(full.as_str()), kind };
    out.push(f);
    assert(file_views(out@) =~= file_views(old(out)@).push(
        (forward_slashes(path_join(project_path@, kind_path(kind))), kind),
    ));
}

/// The files `init` writes for these choices, in order, with their full
/// paths normalised to forward slashes.
pub fn planned_files(input: &GeneratorInput) -> (v: Vec<GeneratedFile>)
    ensures
        file_views(v@) == planned_files_of(
            input.project_path@,
            planned_kinds(
                input.choices.pre_commit,
                input.choices.ci_provider,
                input.choices.architecture,
            ),
        ),
{
    let p = input.project_path.as_str();
    let mut out: Vec<GeneratedFile> = Vec::new();
    let ghost kinds = planned_kinds(
        input.choices.pre_commit,
        input.choices.ci_provider,
        input.choices.architecture,
    );
    let ghost mut ks: Seq<GeneratedKind> = Seq::empty();
    assert(file_views(out@) =~= planned_files_of(p@, ks));
    push_planned(&mut out, p, GeneratedKind::Config);
    proof {
        ks = ks.push(GeneratedKind::Config);
        assert(file_views(out@) =~= planned_files_of(p@, ks));
    }
    if input.choices.pre_commit {
        push_planned(&mut out, p, GeneratedKind::Lefthook);
        proof {
            ks = ks.push(GeneratedKind::Lefthook);
            assert(file_views(out@) =~= planned_files_of(p@, ks));
        }
    }
    match input.choices.ci_provider {
        CiProvider::Github => {
            push_planned(&mut out, p, GeneratedKind::GithubActions);
            proof {
                ks = ks.push(GeneratedKind::GithubActions);
                assert(file_views(out@) =~= planned_files_of(p@, ks));
            }
        },
        CiProvider::Gitlab => {
            push_planned(&mut out, p, GeneratedKind::GitlabCi);
            proof {
                ks = ks.push(GeneratedKind::GitlabCi);
                assert(file_views(out@) =~= planned_files_of(p@, ks));
            }
        },
        CiProvider::NoCi => {},
    }
    if input.choices.architecture != Architecture::Plain {
        push_planned(&mut out, p, GeneratedKind::SemgrepArchitecture);
        proof {
            ks = ks.push(GeneratedKind::SemgrepArchitecture);
            assert(file_views(out@) =~= planned_files_of(p@, ks));
        }
    }
    push_planned(&mut out, p, GeneratedKind::AstGrep);
    proof {
        ks = ks.push(GeneratedKind::AstGrep);
        assert(file_views(out@) =~= planned_files_of(p@, ks));
        assert(ks =~= kinds);
    }
    out
}

/// Every planned path is free of backslashes.
pub proof fn lemma_planned_paths_forward(project_path: Seq<char>, kinds: Seq<GeneratedKind>)
    ensures
        forall|i: int| 0 <= i < kinds.len() ==> !(#[trigger] planned_files_of(project_path, kinds)[i]).0.contains(
            '\\',
        ),
{
    assert forall|i: int| 0 <= i < kinds.len() implies !(#[trigger] planned_files_of(project_path, kinds)[i]).0.contains('\\') by {
        let s = path_join(project_path, kind_path(kinds[i]));
        let f = forward_slashes(s);
        if f.contains('\\') {
            let j = choose|j: int| 0 <= j < f.len() && f[j] == '\\';
            assert(f[j] == (if s[j] == '\\' { '/' } else { s[j] }));
        }
    }
}

} // verus!
