//! SonarQube integration: the Generic Issue Data format, the SARIF
//! conversion into it, and the report and enrollment decisions.
pub mod converter;
pub mod models;
pub mod report;
