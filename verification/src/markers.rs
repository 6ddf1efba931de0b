//! Type-level marks that record, in a builder's type, which of its required
//! parameters have been supplied.

use vstd::prelude::*;

verus! {

/// A mark for one required parameter: either `Yes` or `No`.
pub trait ToAssign {
    /// Whether the mark stands for a supplied parameter.
    spec fn is_set() -> bool;
}

/// The parameter has been supplied.
#[derive(Debug, Clone, Copy)]
pub struct Yes;

/// The parameter has not been supplied yet.
#[derive(Debug, Clone, Copy)]
pub struct No;

impl ToAssign for Yes {
    open spec fn is_set() -> bool {
        true
    }
}

impl ToAssign for No {
    open spec fn is_set() -> bool {
        false
    }
}

} // verus!
