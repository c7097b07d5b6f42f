//! Ignore rules: the layered ignore engine, the tool-native exclude flags
//! derived from active patterns, and the ignore file names.
pub mod engine;
pub mod external;
pub mod sources;
