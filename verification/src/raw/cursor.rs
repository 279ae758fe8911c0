//! Showing and hiding the cursor on a bare output.
use vstd::prelude::*;

use crate::error::TermError;
use crate::info::{emitted, expand_cap, expand_into, refused, write_bytes, Capabilities, Capability, Emission};

verus! {

/// Expanding `cap` as a whole: its bytes where the expansion succeeds,
/// nothing and the error where it fails.
pub open spec fn whole_expansion(info: &Capabilities, cap: Capability) -> Emission {
    let e = expand_cap(info, cap, Seq::empty());
    match e.1 {
        Ok(()) => emitted(e.0),
        Err(error) => refused(error),
    }
}

/// Appends the expansion of `cap` as a whole to `output`.
fn write_whole(info: &Capabilities, output: &mut Vec<u8>, cap: Capability) -> (r: Result<(), TermError>)
    requires
        info.string(cap) is Some,
    ensures
        final(output)@ == old(output)@ + whole_expansion(info, cap).0,
        r == whole_expansion(info, cap).1,
{
    let mut expanded: Vec<u8> = Vec::new();
    let params: Vec<i32> = Vec::new();
    assert(params@ =~= Seq::<i32>::empty());
    let r = expand_into(info, &mut expanded, cap, params.as_slice());
    assert(expanded@ =~= Seq::<u8>::empty() + expand_cap(info, cap, Seq::empty()).0);
    match r {
        Ok(()) => {
            write_bytes(output, expanded.as_slice());
            Ok(())
        },
        Err(error) => {
            assert(output@ =~= output@ + Seq::<u8>::empty());
            Err(error)
        },
    }
}

/// Show the cursor (`cursor_normal`) on `output`.
pub fn show(info: &Capabilities, output: &mut Vec<u8>) -> (r: Result<(), TermError>)
    requires
        info.string(Capability::CursorNormal) is Some,
    ensures
        final(output)@ == old(output)@ + whole_expansion(info, Capability::CursorNormal).0,
        r == whole_expansion(info, Capability::CursorNormal).1,
{
    write_whole(info, output, Capability::CursorNormal)
}

/// Hide the cursor (`cursor_invisible`) on `output`.
pub fn conceal(info: &Capabilities, output: &mut Vec<u8>) -> (r: Result<(), TermError>)
    requires
        info.string(Capability::CursorInvisible) is Some,
    ensures
        final(output)@ == old(output)@ + whole_expansion(info, Capability::CursorInvisible).0,
        r == whole_expansion(info, Capability::CursorInvisible).1,
{
    write_whole(info, output, Capability::CursorInvisible)
}

} // verus!
