//! Scanner descriptors: how to check, install and run a scanner tool.
use vstd::prelude::*;

use crate::errors::DescriptorError;
use crate::scanner::ScanMode;
use crate::strmap::StrMap;
use crate::text::owned;

verus! {

/// A scanner tool (Semgrep, Trivy, Gitleaks, jscpd, scc).
pub struct ScannerDescriptor {
    /// Canonical tool name.
    pub name: String,
    /// Semver requirement, e.g. `">=1.60"`.
    pub version: String,
    /// Languages this scanner covers.
    pub languages: Vec<String>,
    /// How to check / install the tool.
    pub install: ScannerInstall,
    /// Scan commands for the different modes.
    pub commands: ScannerCommands,
    /// Raw output format: `"sarif"` or `"json"`.
    pub output_format: String,
    /// Maps scanner-native severity labels to rguard severities.
    pub severity_map: StrMap<String>,
}

/// Install / availability metadata for a scanner.
pub struct ScannerInstall {
    /// Command used to verify the tool is installed.
    pub check: String,
    /// Install commands keyed by package manager.
    pub methods: StrMap<String>,
}

/// Available scan command variants.
pub struct ScannerCommands {
    /// Full scan command.
    pub scan: ScannerCommand,
    /// Security-focused subset.
    pub security: Option<ScannerCommand>,
    /// Quick subset.
    pub quick: Option<ScannerCommand>,
}

/// A single scanner invocation template.
pub struct ScannerCommand {
    /// Command template (placeholders `{{output_dir}}`, `{{target}}`).
    pub cmd: String,
    /// Timeout in seconds.
    pub timeout: u32,
}

/// The first empty field among the name, the install check and the scan
/// command is reported; with none empty the descriptor is valid.
pub open spec fn validation_outcome(
    name: Seq<char>,
    check: Seq<char>,
    cmd: Seq<char>,
    r: Result<(), DescriptorError>,
) -> bool {
    if name.len() == 0 {
        r matches Err(DescriptorError::ValidationError { name: n, reason }) && n@ == "(unnamed)"@
            && reason@ == "name is empty"@
    } else if check.len() == 0 {
        r matches Err(DescriptorError::ValidationError { name: n, reason }) && n@ == name
            && reason@ == "install.check is empty"@
    } else if cmd.len() == 0 {
        r matches Err(DescriptorError::ValidationError { name: n, reason }) && n@ == name
            && reason@ == "commands.scan.cmd is empty"@
    } else {
        r is Ok
    }
}

impl ScannerCommands {
    /// The command a scan mode runs: the full scan, or the quick or
    /// security subset, which a scanner may not have.
    pub fn for_mode(&self, mode: ScanMode) -> (c: Option<&ScannerCommand>)
        ensures
            c == match mode {
                ScanMode::Full => Some(&self.scan),
                ScanMode::Quick => match &self.quick {
                    Some(q) => Some(q),
                    None => None,
                },
                ScanMode::Security => match &self.security {
                    Some(q) => Some(q),
                    None => None,
                },
            },
    {
        match mode {
            ScanMode::Full => Some(&self.scan),
            ScanMode::Quick => self.quick.as_ref(),
            ScanMode::Security => self.security.as_ref(),
        }
    }
}

impl ScannerDescriptor {
    /// Checks that the name, the install check and the scan command are
    /// non-empty, reporting the first that is empty.
    pub fn validate(&self) -> (r: Result<(), DescriptorError>)
        ensures
            validation_outcome(self.name@, self.install.check@, self.commands.scan.cmd@, r),
    {
        if self.name.as_str().is_empty() {
            return Err(
                DescriptorError::ValidationError {
                    name: owned("(unnamed)"),
                    reason: owned("name is empty"),
                },
            );
        }
        if self.install.check.as_str().is_empty() {
            return Err(
                DescriptorError::ValidationError {
                    name: self.name.clone(),
                    reason: owned("install.check is empty"),
                },
            );
        }
        if self.commands.scan.cmd.as_str().is_empty() {
            return Err(
                DescriptorError::ValidationError {
                    name: self.name.clone(),
                    reason: owned("commands.scan.cmd is empty"),
                },
            );
        }
        Ok(())
    }
}

} // verus!
