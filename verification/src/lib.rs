//! Verified core of rguard: scanning, fixing and reporting rules.
pub mod text;
pub mod paths;
pub mod strmap;
pub mod json;
pub mod issue;
pub mod scanner;
pub mod output;
pub mod errors;
pub mod registry;
pub mod config;
pub mod fixer;
pub mod ignore;
pub mod init;
pub mod cli;
