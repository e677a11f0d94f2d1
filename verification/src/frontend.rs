//! Front-end boundary helpers: module metadata used while resolving
//! hierarchy during netlist import.

use vstd::prelude::*;

verus! {

/// Sums two counters.
pub fn add(left: usize, right: usize) -> (r: usize)
    requires
        left + right <= usize::MAX,
    ensures
        r == left + right,
{
    left + right
}

/// What the importer knows about one module of the input design.
#[derive(Debug, Clone)]
pub struct ModuleInfo {
    pub is_top: bool,
    pub is_blackbox: bool,
    pub is_whitebox: bool,
    /// The cell types this module instantiates, if recorded.
    pub instantiated_celltypes: Option<String>,
}

impl ModuleInfo {
    /// A module that is neither top nor a box.
    pub fn new() -> (r: Self)
        ensures
            !r.is_top,
            !r.is_blackbox,
            !r.is_whitebox,
            r.instantiated_celltypes is None,
    {
        Self { is_top: false, is_blackbox: false, is_whitebox: false, instantiated_celltypes: None }
    }

    /// Whether this module is a black or white box.
    pub fn is_box(&self) -> (r: bool)
        ensures
            r == (self.is_blackbox || self.is_whitebox),
    {
        self.is_blackbox || self.is_whitebox
    }
}

} // verus!
