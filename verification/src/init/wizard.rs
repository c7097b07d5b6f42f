//! The init wizard's choices: what each answer means, and the defaults
//! taken in non-interactive (`--yes`) mode.
use vstd::prelude::*;

use crate::config::{Architecture, Topology};
use crate::init::detector::DetectionResult;
use crate::text::{owned, str_eq, views};

verus! {

/// CI provider choice presented by the wizard (`NoCi`: none).
#[derive(Debug, Clone, Copy, PartialEq, Eq, Structural)]
pub enum CiProvider {
    Github,
    Gitlab,
    NoCi,
}

/// Choices collected from the interactive wizard, or defaulted for `--yes`.
#[derive(Debug, Clone)]
pub struct WizardChoices {
    pub topology: Topology,
    pub architecture: Architecture,
    pub quality_checks: Vec<String>,
    pub pre_commit: bool,
    pub ci_provider: CiProvider,
    /// Whether to respect `.gitignore` patterns when scanning.
    pub respect_gitignore: bool,
}

/// The topology answers offered, in order.
pub const TOPOLOGY_OPTIONS: [&'static str; 5] = ["monolith", "monorepo", "library", "cli", "mobile"];

/// The architecture answers offered, in order.
pub const ARCHITECTURE_OPTIONS: [&'static str; 4] = ["none", "clean", "hexagonal", "mvc"];

/// The quality checks offered, in order; the first three are preselected.
pub const QUALITY_CHECK_OPTIONS: [&'static str; 5] = [
    "security",
    "cve",
    "secrets",
    "duplication",
    "complexity",
];

/// The CI answers offered, in order.
pub const CI_OPTIONS: [&'static str; 3] = ["none", "github", "gitlab"];

/// The topology an answer names; anything unknown is a monolith.
pub open spec fn topology_named(s: Seq<char>) -> Topology {
    if s == "monorepo"@ {
        Topology::Monorepo
    } else if s == "library"@ {
        Topology::Library
    } else if s == "cli"@ {
        Topology::Cli
    } else if s == "mobile"@ {
        Topology::Mobile
    } else {
        Topology::Monolith
    }
}

/// The architecture an answer names; anything unknown is none.
pub open spec fn architecture_named(s: Seq<char>) -> Architecture {
    if s == "clean"@ {
        Architecture::Clean
    } else if s == "hexagonal"@ {
        Architecture::Hexagonal
    } else if s == "mvc"@ {
        Architecture::Mvc
    } else {
        Architecture::Plain
    }
}

/// The CI provider an answer names; anything unknown is none.
pub open spec fn ci_provider_named(s: Seq<char>) -> CiProvider {
    if s == "github"@ {
        CiProvider::Github
    } else if s == "gitlab"@ {
        CiProvider::Gitlab
    } else {
        CiProvider::NoCi
    }
}

/// Each topology answer names the topology of the same name, and only that
/// answer names it; every other answer is a monolith.
pub proof fn lemma_topology_answers(s: Seq<char>)
    ensures
        topology_named(s) == Topology::Monorepo <==> s == "monorepo"@,
        topology_named(s) == Topology::Library <==> s == "library"@,
        topology_named(s) == Topology::Cli <==> s == "cli"@,
        topology_named(s) == Topology::Mobile <==> s == "mobile"@,
        topology_named(s) == Topology::Monolith <==> (s != "monorepo"@ && s != "library"@ && s != "cli"@
            && s != "mobile"@),
{
    reveal_strlit("monorepo");
    reveal_strlit("library");
    reveal_strlit("cli");
    reveal_strlit("mobile");
    assert("monorepo"@.len() == 8 && "library"@.len() == 7 && "cli"@.len() == 3 && "mobile"@.len() == 6);
}

/// Each architecture answer names the architecture of the same name, and
/// only that answer names it; every other answer is no architecture.
pub proof fn lemma_architecture_answers(s: Seq<char>)
    ensures
        architecture_named(s) == Architecture::Clean <==> s == "clean"@,
        architecture_named(s) == Architecture::Hexagonal <==> s == "hexagonal"@,
        architecture_named(s) == Architecture::Mvc <==> s == "mvc"@,
        architecture_named(s) == Architecture::Plain <==> (s != "clean"@ && s != "hexagonal"@ && s
            != "mvc"@),
{
    reveal_strlit("clean");
    reveal_strlit("hexagonal");
    reveal_strlit("mvc");
    assert("clean"@.len() == 5 && "hexagonal"@.len() == 9 && "mvc"@.len() == 3);
}

/// Each CI answer names the provider of the same name, and only that
/// answer names it; every other answer is no CI.
pub proof fn lemma_ci_answers(s: Seq<char>)
    ensures
        ci_provider_named(s) == CiProvider::Github <==> s == "github"@,
        ci_provider_named(s) == CiProvider::Gitlab <==> s == "gitlab"@,
        ci_provider_named(s) == CiProvider::NoCi <==> (s != "github"@ && s != "gitlab"@),
{
    reveal_strlit("github");
    reveal_strlit("gitlab");
    assert("github"@[3] == 'h' && "gitlab"@[3] == 'l');
}

/// The topology a wizard answer names.
pub fn topology_choice(answer: &str) -> (t: Topology)
    ensures
        t == topology_named(answer@),
{
    if str_eq(answer, "monorepo") {
        Topology::Monorepo
    } else if str_eq(answer, "library") {
        Topology::Library
    } else if str_eq(answer, "cli") {
        Topology::Cli
    } else if str_eq(answer, "mobile") {
        Topology::Mobile
    } else {
        Topology::Monolith
    }
}

/// The architecture a wizard answer names.
pub fn architecture_choice(answer: &str) -> (a: Architecture)
    ensures
        a == architecture_named(answer@),
{
    if str_eq(answer, "clean") {
        Architecture::Clean
    } else if str_eq(answer, "hexagonal") {
        Architecture::Hexagonal
    } else if str_eq(answer, "mvc") {
        Architecture::Mvc
    } else {
        Architecture::Plain
    }
}

/// The CI provider a wizard answer names.
pub fn ci_provider_choice(answer: &str) -> (c: CiProvider)
    ensures
        c == ci_provider_named(answer@),
{
    if str_eq(answer, "github") {
        CiProvider::Github
    } else if str_eq(answer, "gitlab") {
        CiProvider::Gitlab
    } else {
        CiProvider::NoCi
    }
}

/// The choices the wizard's answers make.
pub fn choices_from_answers(
    topology: &str,
    architecture: &str,
    quality_checks: Vec<String>,
    pre_commit: bool,
    ci_provider: &str,
    respect_gitignore: bool,
) -> (c: WizardChoices)
    ensures
        c.topology == topology_named(topology@),
        c.architecture == architecture_named(architecture@),
        c.quality_checks == quality_checks,
        c.pre_commit == pre_commit,
        c.ci_provider == ci_provider_named(ci_provider@),
        c.respect_gitignore == respect_gitignore,
{
    WizardChoices {
        topology: topology_choice(topology),
        architecture: architecture_choice(architecture),
        quality_checks,
        pre_commit,
        ci_provider: ci_provider_choice(ci_provider),
        respect_gitignore,
    }
}

/// The default choices for non-interactive `--yes` mode: a monolith with
/// no architecture pattern, the security, CVE and secrets checks, no
/// pre-commit hooks, no CI integration, `.gitignore` not respected.
pub fn noninteractive_choices(_detected: &DetectionResult) -> (c: WizardChoices)
    ensures
        c.topology == Topology::Monolith,
        c.architecture == Architecture::Plain,
        views(c.quality_checks@) == seq!["security"@, "cve"@, "secrets"@],
        !c.pre_commit,
        c.ci_provider == CiProvider::NoCi,
        !c.respect_gitignore,
{
    let mut checks: Vec<String> = Vec::new();
    checks.push(owned("security"));
    checks.push(owned("cve"));
    checks.push(owned("secrets"));
    assert(views(checks@) =~= seq!["security"@, "cve"@, "secrets"@]);
    WizardChoices {
        topology: Topology::Monolith,
        architecture: Architecture::Plain,
        quality_checks: checks,
        pre_commit: false,
        ci_provider: CiProvider::NoCi,
        respect_gitignore: false,
    }
}

} // verus!
