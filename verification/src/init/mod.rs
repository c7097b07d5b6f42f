//! `rguard init`: language detection results, the wizard's choices and the
//! generated project configuration.
pub mod detector;
pub mod generator;
pub mod wizard;
