//! Scanner and fixer descriptors, and the command templates they carry.
pub mod fixer_descriptor;
pub mod probe;
pub mod scanner_descriptor;

use vstd::prelude::*;

use crate::registry::fixer_descriptor::FixerDescriptor;

verus! {

/// The fixer descriptors available to the fix pipeline.
pub struct DescriptorRegistry {
    /// All fixer descriptors (built-in and user-provided).
    pub fixers: Vec<FixerDescriptor>,
}

impl DescriptorRegistry {
    /// A registry holding the given fixer descriptors.
    pub fn new(fixers: Vec<FixerDescriptor>) -> (r: Self)
        ensures
            r.fixers == fixers,
    {
        DescriptorRegistry { fixers }
    }
}

} // verus!
