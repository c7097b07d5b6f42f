//! The project-level ignore file names.
use vstd::prelude::*;

verus! {

/// The primary project-level ignore file name.
pub const RGUARDIGNORE: &'static str = ".rguardignore";

/// The secondary project-level ignore file name, read when the primary one
/// is absent.
pub const RGIGNORE: &'static str = ".rgignore";

} // verus!
