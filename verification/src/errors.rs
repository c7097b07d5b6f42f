//! Error types for configuration, descriptors, init and tool probing, each
//! with its human-readable message.
use vstd::prelude::*;

use crate::text::concat;

verus! {

/// Errors when loading or validating the project config file.
#[derive(Debug, Clone)]
pub enum ConfigError {
    /// Config file does not exist at the given path.
    NotFound { path: String },
    /// I/O error while reading the config file (`source` is its message).
    IoError { path: String, source: String },
    /// YAML parse error.
    ParseError { path: String, reason: String },
    /// Semantic validation error.
    ValidationError { message: String },
}

/// Errors when loading or validating scanner/fixer descriptors.
#[derive(Debug, Clone)]
pub enum DescriptorError {
    /// I/O error while reading a descriptor file (`source` is its message).
    IoError { path: String, source: String },
    /// YAML parse error in a descriptor file.
    ParseError { path: String, reason: String },
    /// Semantic validation error in a descriptor.
    ValidationError { name: String, reason: String },
    /// A command template string is syntactically invalid.
    InvalidCommandTemplate(String),
    /// A descriptor defines an empty command.
    EmptyCommand,
}

/// Errors of the `init` flow.
#[derive(Debug, Clone)]
pub enum InitError {
    /// `scc` executable not found in PATH.
    SccNotFound,
    /// `scc` failed or produced unparseable output.
    SccFailed(String),
    /// Interactive prompts requested but stdin is not a terminal.
    NotInteractive { hint: String },
    /// A prompt failed.
    WizardFailed(String),
    /// Failed to write a generated file.
    GenerationFailed { path: String, reason: String },
    /// Descriptor error encountered during init.
    DescriptorError(DescriptorError),
}

/// Errors when probing whether an external tool is available.
#[derive(Debug, Clone)]
pub enum ProbeError {
    /// Tool binary not found in PATH.
    NotFound { tool: String },
    /// Tool found but its version does not satisfy the constraint.
    VersionMismatch { tool: String, found: String, required: String },
    /// Probe command failed or produced unparseable output.
    ProbeFailed { tool: String, reason: String },
}

fn join3(a: &str, b: &str, c: &str) -> (r: String)
    ensures
        r@ == a@ + b@ + c@,
{
    let ab = concat(a, b);
    concat(ab.as_str(), c)
}

fn join5(a: &str, b: &str, c: &str, d: &str, e: &str) -> (r: String)
    ensures
        r@ == a@ + b@ + c@ + d@ + e@,
{
    let abc = join3(a, b, c);
    join3(abc.as_str(), d, e)
}

/// The message of a config error.
pub open spec fn config_error_text(e: ConfigError) -> Seq<char> {
    match e {
        ConfigError::NotFound { path } => "Config file not found at "@ + path@,
        ConfigError::IoError { path, source } => "Failed to read config at "@ + path@ + ": "@
            + source@,
        ConfigError::ParseError { path, reason } => "Failed to parse config at "@ + path@ + ": "@
            + reason@,
        ConfigError::ValidationError { message } => "Invalid config: "@ + message@,
    }
}

/// The message of a descriptor error.
pub open spec fn descriptor_error_text(e: DescriptorError) -> Seq<char> {
    match e {
        DescriptorError::IoError { path, source } => "Failed to read descriptor at "@ + path@
            + ": "@ + source@,
        DescriptorError::ParseError { path, reason } => "Failed to parse descriptor at "@ + path@
            + ": "@ + reason@,
        DescriptorError::ValidationError { name, reason } => "Invalid descriptor '"@ + name@
            + "': "@ + reason@,
        DescriptorError::InvalidCommandTemplate(t) => "Invalid command template: "@ + t@,
        DescriptorError::EmptyCommand => "Empty command in descriptor"@,
    }
}

/// The message of an init error.
pub open spec fn init_error_text(e: InitError) -> Seq<char> {
    match e {
        InitError::SccNotFound => "scc not found in PATH — install scc to enable language detection"@,
        InitError::SccFailed(m) => "scc failed: "@ + m@,
        InitError::NotInteractive { .. } => "Not an interactive terminal — use --yes for non-interactive mode"@,
        InitError::WizardFailed(m) => "Wizard prompt failed: "@ + m@,
        InitError::GenerationFailed { path, reason } => "Failed to generate file at "@ + path@
            + ": "@ + reason@,
        InitError::DescriptorError(d) => "Descriptor error during init: "@ + descriptor_error_text(
            d,
        ),
    }
}

/// The message of a probe error.
pub open spec fn probe_error_text(e: ProbeError) -> Seq<char> {
    match e {
        ProbeError::NotFound { tool } => "Tool '"@ + tool@ + "' not found in PATH"@,
        ProbeError::VersionMismatch { tool, found, required } => "Tool '"@ + tool@ + "' version "@
            + found@ + " does not satisfy "@ + required@,
        ProbeError::ProbeFailed { tool, reason } => "Failed to probe '"@ + tool@ + "': "@ + reason@,
    }
}

impl ConfigError {
    /// The human-readable message.
    pub fn message(&self) -> (m: String)
        ensures
            m@ == config_error_text(*self),
    {
        match self {
            ConfigError::NotFound { path } => concat("Config file not found at ", path.as_str()),
            ConfigError::IoError { path, source } => join3(
                concat("Failed to read config at ", path.as_str()).as_str(),
                ": ",
                source.as_str(),
            ),
            ConfigError::ParseError { path, reason } => join3(
                concat("Failed to parse config at ", path.as_str()).as_str(),
                ": ",
                reason.as_str(),
            ),
            ConfigError::ValidationError { message } => concat("Invalid config: ", message.as_str()),
        }
    }
}

impl DescriptorError {
    /// The human-readable message.
    pub fn message(&self) -> (m: String)
        ensures
            m@ == descriptor_error_text(*self),
    {
        match self {
            DescriptorError::IoError { path, source } => join3(
                concat("Failed to read descriptor at ", path.as_str()).as_str(),
                ": ",
                source.as_str(),
            ),
            DescriptorError::ParseError { path, reason } => join3(
                concat("Failed to parse descriptor at ", path.as_str()).as_str(),
                ": ",
                reason.as_str(),
            ),
            DescriptorError::ValidationError { name, reason } => join3(
                concat("Invalid descriptor '", name.as_str()).as_str(),
                "': ",
                reason.as_str(),
            ),
            DescriptorError::InvalidCommandTemplate(t) => concat(
                "Invalid command template: ",
                t.as_str(),
            ),
            DescriptorError::EmptyCommand => crate::text::owned("Empty command in descriptor"),
        }
    }
}

impl InitError {
    /// The human-readable message.
    pub fn message(&self) -> (m: String)
        ensures
            m@ == init_error_text(*self),
    {
        match self {
            InitError::SccNotFound => crate::text::owned(
                "scc not found in PATH — install scc to enable language detection",
            ),
            InitError::SccFailed(m) => concat("scc failed: ", m.as_str()),
            InitError::NotInteractive { .. } => crate::text::owned(
                "Not an interactive terminal — use --yes for non-interactive mode",
            ),
            InitError::WizardFailed(m) => concat("Wizard prompt failed: ", m.as_str()),
            InitError::GenerationFailed { path, reason } => join3(
                concat("Failed to generate file at ", path.as_str()).as_str(),
                ": ",
                reason.as_str(),
            ),
            InitError::DescriptorError(d) => {
                let inner = d.message();
                concat("Descriptor error during init: ", inner.as_str())
            },
        }
    }
}

impl ProbeError {
    /// The human-readable message.
    pub fn message(&self) -> (m: String)
        ensures
            m@ == probe_error_text(*self),
    {
        match self {
            ProbeError::NotFound { tool } => join3("Tool '", tool.as_str(), "' not found in PATH"),
            ProbeError::VersionMismatch { tool, found, required } => {
                let head = join5("Tool '", tool.as_str(), "' version ", found.as_str(), " does not satisfy ");
                concat(head.as_str(), required.as_str())
            },
            ProbeError::ProbeFailed { tool, reason } => join3(
                concat("Failed to probe '", tool.as_str()).as_str(),
                "': ",
                reason.as_str(),
            ),
        }
    }
}

} // verus!
