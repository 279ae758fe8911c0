use vstd::prelude::*;

verus! {

/// Errors that the terminal operations of this library report.
#[derive(Clone, Copy, Debug, PartialEq, Eq, Structural)]
pub enum TermError {
    /// The terminal description lacks a capability the operation needs,
    /// or the operation has no meaning for the given value.
    NotSupported,
    /// Expanding a parametrized capability string failed.
    Expand,
    /// A parametrized capability string was not expanded: it does not parse
    /// item by item, or its arithmetic could overflow with the given
    /// parameters (see `template`).
    Refused,
}

} // verus!
