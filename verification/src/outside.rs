//! Outside types that pass through the library.
use vstd::prelude::*;

verus! {

/// The error of a terminfo operation.
#[verifier::external_type_specification]
#[verifier::external_body]
pub struct ExTerminfoError(terminfo::Error);

} // verus!
