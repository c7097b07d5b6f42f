//! How to confirm that a fix worked: the command to re-run and the expected
//! outcome.
use vstd::prelude::*;

use crate::text::{concat, owned, str_eq};

verus! {

/// How to verify that a fix was successfully applied.
#[derive(Debug, Clone)]
pub struct VerificationInfo {
    /// Shell command to re-run after applying a fix.
    pub rerun_command: String,
    /// Expected outcome after a successful fix.
    pub success_condition: String,
}

/// The re-run command for a scanner and rule.
pub open spec fn rerun_command_for(scanner: Seq<char>, rule_id: Seq<char>) -> Seq<char> {
    if scanner == "semgrep"@ {
        "semgrep scan --config="@ + rule_id + " ."@
    } else if scanner == "trivy"@ {
        "trivy fs ."@
    } else if scanner == "gitleaks"@ {
        "gitleaks detect ."@
    } else if scanner == "clippy"@ {
        "cargo clippy"@
    } else {
        "rguard scan ."@
    }
}

/// The re-run command runs the scanner that found the issue: semgrep with
/// the rule's own config, trivy and gitleaks over the project, clippy
/// through cargo; any other scanner re-runs the whole scan.
pub proof fn lemma_rerun_runs_the_scanner(scanner: Seq<char>, rule_id: Seq<char>)
    ensures
        scanner == "semgrep"@ ==> crate::text::has_prefix(rerun_command_for(scanner, rule_id), "semgrep "@)
            && crate::text::has_infix(rerun_command_for(scanner, rule_id), "--config="@ + rule_id),
        scanner == "trivy"@ ==> crate::text::has_prefix(rerun_command_for(scanner, rule_id), "trivy "@),
        scanner == "gitleaks"@ ==> crate::text::has_prefix(rerun_command_for(scanner, rule_id), "gitleaks "@),
        scanner == "clippy"@ ==> rerun_command_for(scanner, rule_id) == "cargo clippy"@,
        scanner != "semgrep"@ && scanner != "trivy"@ && scanner != "gitleaks"@ && scanner != "clippy"@
            ==> rerun_command_for(scanner, rule_id) == "rguard scan ."@,
{
    reveal_strlit("semgrep");
    reveal_strlit("trivy");
    reveal_strlit("gitleaks");
    reveal_strlit("clippy");
    reveal_strlit("semgrep scan --config=");
    reveal_strlit(" .");
    reveal_strlit("semgrep ");
    reveal_strlit("--config=");
    reveal_strlit("trivy fs .");
    reveal_strlit("trivy ");
    reveal_strlit("gitleaks detect .");
    reveal_strlit("gitleaks ");
    assert("semgrep"@.len() == 7 && "trivy"@.len() == 5 && "gitleaks"@.len() == 8 && "clippy"@.len() == 6);
    let cmd = rerun_command_for(scanner, rule_id);
    if scanner == "semgrep"@ {
        assert(cmd.take(8) =~= "semgrep "@);
        let t = "--config="@ + rule_id;
        assert(cmd.subrange(13, 13 + t.len() as int) =~= t);
        assert(crate::text::has_infix(cmd, t));
    }
    if scanner == "trivy"@ {
        assert(cmd.take(6) =~= "trivy "@);
    }
    if scanner == "gitleaks"@ {
        assert(cmd.take(9) =~= "gitleaks "@);
    }
}

impl VerificationInfo {
    /// Verification info for a scanner and rule: the scanner's own re-run
    /// command (falling back to `rguard scan .`) and "no <rule> findings
    /// reported".
    pub fn from_scanner(scanner: &str, rule_id: &str) -> (v: Self)
        ensures
            v.rerun_command@ == rerun_command_for(scanner@, rule_id@),
            v.success_condition@ == "no "@ + rule_id@ + " findings reported"@,
    {
        let rerun_command = if str_eq(scanner, "semgrep") {
            let head = concat("semgrep scan --config=", rule_id);
            concat(head.as_str(), " .")
        } else if str_eq(scanner, "trivy") {
            owned("trivy fs .")
        } else if str_eq(scanner, "gitleaks") {
            owned("gitleaks detect .")
        } else if str_eq(scanner, "clippy") {
            owned("cargo clippy")
        } else {
            owned("rguard scan .")
        };
        let head = concat("no ", rule_id);
        VerificationInfo { rerun_command, success_condition: concat(head.as_str(), " findings reported") }
    }
}

} // verus!
