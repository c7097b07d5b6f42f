//! The project configuration model (`.rguard.yaml`) and its semantic
//! validation.
use vstd::prelude::*;

use crate::errors::ConfigError;
use crate::strmap::StrMap;
use crate::text::{blank, concat, is_blank, owned, str_eq, views};

verus! {

/// Project layout.
#[derive(Debug, Clone, Copy, PartialEq, Eq, Structural)]
pub enum Topology {
    Monolith,
    Monorepo,
    Library,
    Cli,
    Mobile,
}

/// Architecture pattern enforced by generated rules (`Plain`: none).
#[derive(Debug, Clone, Copy, PartialEq, Eq, Structural)]
pub enum Architecture {
    Plain,
    Clean,
    Hexagonal,
    Mvc,
}

/// The `project` section.
pub struct ProjectConfig {
    pub name: String,
    pub languages: Vec<String>,
    pub topology: Topology,
    pub architecture: Architecture,
}

/// Semgrep settings.
pub struct SemgrepConfig {
    pub enabled: bool,
    pub rulesets: Vec<String>,
}

/// Trivy settings.
pub struct TrivyConfig {
    pub enabled: bool,
    pub scanners: Vec<String>,
}

/// Gitleaks settings.
pub struct GitleaksConfig {
    pub enabled: bool,
}

/// jscpd settings.
pub struct JscpdConfig {
    pub enabled: bool,
    pub threshold: u32,
}

/// scc settings.
pub struct SccConfig {
    pub enabled: bool,
}

/// SonarQube integration settings.
pub struct SonarqubeConfig {
    pub enabled: bool,
    pub host: String,
    pub token: Option<String>,
    pub project_key: Option<String>,
}

/// The `scanners` section.
pub struct ScannersConfig {
    pub semgrep: SemgrepConfig,
    pub trivy: TrivyConfig,
    pub gitleaks: GitleaksConfig,
    pub jscpd: JscpdConfig,
    pub scc: SccConfig,
    pub sonarqube: SonarqubeConfig,
}

/// The `fixers` section (`allow_unsafe` is the `unsafe` key).
pub struct FixersConfig {
    pub formatters: bool,
    pub linters: bool,
    pub security: bool,
    pub ast: bool,
    pub deps: bool,
    pub allow_unsafe: bool,
}

/// The `filters` section.
pub struct FiltersConfig {
    pub includes: Vec<String>,
    pub exclude: Vec<String>,
    pub respect_gitignore: bool,
}

/// The `tools` section: which tools were found available at init time.
pub struct ToolsConfig {
    /// Scanner name to availability.
    pub scanners: StrMap<bool>,
    /// Language to (fixer step name to availability).
    pub fixers: StrMap<StrMap<bool>>,
}

/// The `output` section.
pub struct OutputConfig {}

/// Pre-commit hook settings.
pub struct PreCommitConfig {
    pub enabled: bool,
    pub manager: String,
    pub checks: Vec<String>,
}

/// The `hooks` section.
pub struct HooksConfig {
    pub pre_commit: PreCommitConfig,
}

/// The `ci` section.
pub struct CiConfig {
    pub provider: String,
    pub diff_only: bool,
}

/// The whole project configuration.
pub struct RiceGuardConfig {
    pub version: String,
    pub project: ProjectConfig,
    pub scanners: ScannersConfig,
    pub fixers: FixersConfig,
    pub filters: FiltersConfig,
    pub tools: ToolsConfig,
    pub output: OutputConfig,
    pub hooks: HooksConfig,
    pub ci: CiConfig,
}

/// The configuration under its short name.
pub type RGuardConfig = RiceGuardConfig;

/// The built-in exclude patterns applied to every project.
pub open spec fn default_exclude_patterns() -> Seq<Seq<char>> {
    seq!["vendor/"@, "node_modules/"@, "target/"@, ".git/"@, "*.generated.*"@, "dist/"@]
}

impl FiltersConfig {
    /// The built-in exclude patterns applied to every project.
    pub fn default_excludes() -> (v: Vec<String>)
        ensures
            views(v@) == default_exclude_patterns(),
    {
        let mut v: Vec<String> = Vec::new();
        v.push(owned("vendor/"));
        v.push(owned("node_modules/"));
        v.push(owned("target/"));
        v.push(owned(".git/"));
        v.push(owned("*.generated.*"));
        v.push(owned("dist/"));
        assert(views(v@) =~= default_exclude_patterns());
        v
    }
}

impl RiceGuardConfig {
    /// An empty configuration: empty strings and lists, everything disabled,
    /// a monolith without an architecture pattern.
    pub fn empty() -> (c: Self)
        ensures
            c.version@.len() == 0,
            c.project.name@.len() == 0,
            c.project.languages@.len() == 0,
            c.project.topology == Topology::Monolith,
            c.project.architecture == Architecture::Plain,
            !c.scanners.semgrep.enabled,
            c.scanners.semgrep.rulesets@.len() == 0,
            !c.scanners.trivy.enabled,
            c.scanners.trivy.scanners@.len() == 0,
            !c.scanners.gitleaks.enabled,
            !c.scanners.jscpd.enabled,
            c.scanners.jscpd.threshold == 0,
            !c.scanners.scc.enabled,
            !c.scanners.sonarqube.enabled,
            c.scanners.sonarqube.host@.len() == 0,
            c.scanners.sonarqube.token is None,
            c.scanners.sonarqube.project_key is None,
            c.fixers == (FixersConfig {
                formatters: false,
                linters: false,
                security: false,
                ast: false,
                deps: false,
                allow_unsafe: false,
            }),
            c.filters.includes@.len() == 0,
            c.filters.exclude@.len() == 0,
            !c.filters.respect_gitignore,
            c.tools.scanners.wf(),
            c.tools.scanners@ == Map::<Seq<char>, bool>::empty(),
            c.tools.fixers.wf(),
            c.tools.fixers@ == Map::<Seq<char>, StrMap<bool>>::empty(),
            !c.hooks.pre_commit.enabled,
            c.hooks.pre_commit.manager@.len() == 0,
            c.hooks.pre_commit.checks@.len() == 0,
            c.ci.provider@.len() == 0,
            !c.ci.diff_only,
    {
        RiceGuardConfig {
            version: String::new(),
            project: ProjectConfig {
                name: String::new(),
                languages: Vec::new(),
                topology: Topology::Monolith,
                architecture: Architecture::Plain,
            },
            scanners: ScannersConfig {
                semgrep: SemgrepConfig { enabled: false, rulesets: Vec::new() },
                trivy: TrivyConfig { enabled: false, scanners: Vec::new() },
                gitleaks: GitleaksConfig { enabled: false },
                jscpd: JscpdConfig { enabled: false, threshold: 0 },
                scc: SccConfig { enabled: false },
                sonarqube: SonarqubeConfig {
                    enabled: false,
                    host: String::new(),
                    token: None,
                    project_key: None,
                },
            },
            fixers: FixersConfig {
                formatters: false,
                linters: false,
                security: false,
                ast: false,
                deps: false,
                allow_unsafe: false,
            },
            filters: FiltersConfig { includes: Vec::new(), exclude: Vec::new(), respect_gitignore: false },
            tools: ToolsConfig { scanners: StrMap::new(), fixers: StrMap::new() },
            output: OutputConfig {},
            hooks: HooksConfig {
                pre_commit: PreCommitConfig { enabled: false, manager: String::new(), checks: Vec::new() },
            },
            ci: CiConfig { provider: String::new(), diff_only: false },
        }
    }
}

impl Default for RiceGuardConfig {
    fn default() -> (c: Self)
        ensures
            c.version@.len() == 0,
            c.project.name@.len() == 0,
            c.filters.includes@.len() == 0,
            c.filters.exclude@.len() == 0,
            c.tools.scanners.wf(),
            c.tools.fixers.wf(),
    {
        Self::empty()
    }
}

/// The outcome of validating a config with the given version and project
/// name: version `"1"` and a name that is not all whitespace are required,
/// in that order.
pub open spec fn validation_result(version: Seq<char>, name: Seq<char>, r: Result<(), ConfigError>) -> bool {
    if version != "1"@ {
        r matches Err(ConfigError::ValidationError { message }) && message@
            == "unsupported config version '"@ + version + "' — expected '1'"@
    } else if blank(name) {
        r matches Err(ConfigError::ValidationError { message }) && message@
            == "project.name must not be empty"@
    } else {
        r is Ok
    }
}

/// Validates the semantic constraints on a loaded config.
pub fn validate(config: &RGuardConfig) -> (r: Result<(), ConfigError>)
    ensures
        validation_result(config.version@, config.project.name@, r),
{
    if !str_eq(config.version.as_str(), "1") {
        let head = concat("unsupported config version '", config.version.as_str());
        return Err(ConfigError::ValidationError { message: concat(head.as_str(), "' — expected '1'") });
    }
    if is_blank(config.project.name.as_str()) {
        return Err(ConfigError::ValidationError { message: owned("project.name must not be empty") });
    }
    Ok(())
}

} // verus!
