//! The decisions of the command-line front end: argument sets, scan and
//! fix outcomes, and the SonarQube integration.
pub mod args;
pub mod fix;
pub mod scan;
pub mod sonar;
