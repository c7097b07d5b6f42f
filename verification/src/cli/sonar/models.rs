//! SonarQube API responses and the Generic Issue Data import format.
use vstd::prelude::*;

use crate::strmap::StrMap;

verus! {

/// Top-level wrapper of SonarQube Generic Issue Data.
#[derive(Debug, Clone)]
pub struct SonarGenericIssuesFile {
    pub issues: Vec<SonarGenericIssue>,
}

/// One issue in SonarQube Generic Issue Data.
#[derive(Debug, Clone)]
pub struct SonarGenericIssue {
    pub engine_id: String,
    pub rule_id: String,
    pub severity: String,
    pub issue_type: String,
    pub primary_location: PrimaryLocation,
}

/// Primary location of a generic issue.
#[derive(Debug, Clone)]
pub struct PrimaryLocation {
    pub message: String,
    pub file_path: String,
    pub text_range: TextRange,
}

/// Line and column range of an issue location.
#[derive(Debug, Clone, Copy, PartialEq, Eq, Structural)]
pub struct TextRange {
    pub start_line: u32,
    pub end_line: u32,
    pub start_column: u32,
    pub end_column: u32,
}

/// A SonarQube API response that may carry errors even with HTTP 200.
#[derive(Debug, Clone)]
pub struct SonarResponse<T> {
    pub data: Option<T>,
    pub errors: Option<Vec<SonarError>>,
}

/// An error entry inside a SonarQube response body.
#[derive(Debug, Clone)]
pub struct SonarError {
    pub msg: String,
}

/// Response of `GET /api/projects/search`.
#[derive(Debug, Clone)]
pub struct ProjectsSearchResponse {
    pub components: Vec<SonarProject>,
}

/// A project in a projects search response.
#[derive(Debug, Clone)]
pub struct SonarProject {
    pub key: String,
    pub name: String,
}

/// Response of `GET /api/qualitygates/project_status`.
#[derive(Debug, Clone)]
pub struct QualityGateStatus {
    pub project_status: ProjectStatus,
}

/// The project status block of a quality gate response.
#[derive(Debug, Clone)]
pub struct ProjectStatus {
    pub status: String,
    pub conditions: Vec<QualityGateCondition>,
}

/// One quality gate condition.
#[derive(Debug, Clone)]
pub struct QualityGateCondition {
    pub status: String,
    pub metric_key: String,
    pub comparator: String,
    pub actual_value: Option<String>,
    pub error_threshold: Option<String>,
}

/// Response of `GET /api/measures/component`.
#[derive(Debug, Clone)]
pub struct MeasuresResponse {
    pub component: ComponentMeasures,
}

/// The component measures block.
#[derive(Debug, Clone)]
pub struct ComponentMeasures {
    pub measures: Vec<Measure>,
}

/// One measure: a metric and its value.
#[derive(Debug, Clone)]
pub struct Measure {
    pub metric: String,
    pub value: Option<String>,
}

/// Response of `GET /api/issues/search`.
#[derive(Debug, Clone)]
pub struct SonarIssuesSearchResponse {
    pub issues: Vec<SonarIssue>,
    pub total: u32,
}

/// One issue of a SonarQube issues search.
#[derive(Debug, Clone)]
pub struct SonarIssue {
    pub key: String,
    pub rule: String,
    pub severity: String,
    pub component: String,
    pub message: String,
    pub issue_type: Option<String>,
}

/// The combined SonarQube status written to `sonar-status.json`.
pub struct SonarStatusReport {
    /// Quality gate status: `"OK"`, `"ERROR"`, `"NONE"` or `"UNKNOWN"`.
    pub quality_gate_status: String,
    /// Metric key to value.
    pub metrics: StrMap<String>,
    /// Critical and blocker issues.
    pub critical_issues: Vec<SonarIssue>,
    /// Total count of critical and blocker issues.
    pub total_critical: u32,
}

} // verus!
