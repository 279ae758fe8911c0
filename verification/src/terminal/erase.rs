//! Erasing to an edge of the line or of the display.
use vstd::prelude::*;

use crate::error::TermError;
use crate::info::{capability_expansion, lemma_expand_cap, expand_cap, expand_plain, refused, Capabilities, Capability, Emission};

verus! {

/// Edge to erase to.
#[derive(Clone, Copy, Debug, PartialEq, Eq, Structural)]
pub enum To {
    Start,
    End,
}

/// What erasing the line to an edge writes.
pub open spec fn line_emission(info: &Capabilities, value: To) -> Emission {
    match value {
        To::Start => expand_cap(info, Capability::ClrBol, Seq::empty()),
        To::End => expand_cap(info, Capability::ClrEol, Seq::empty()),
    }
}

/// What erasing the display to an edge writes: erasing to its start is
/// not supported.
pub open spec fn screen_emission(info: &Capabilities, value: To) -> Emission {
    match value {
        To::Start => refused(TermError::NotSupported),
        To::End => expand_cap(info, Capability::ClrEos, Seq::empty()),
    }
}

/// Erasing the line to its start uses `clr_bol`, to its end `clr_eol`;
/// erasing the display to its end uses `clr_eos`, and to its start is
/// refused without writing.
pub proof fn lemma_erase_capabilities(info: &Capabilities)
    ensures
        line_emission(info, To::Start) == capability_expansion(info, Capability::ClrBol, Seq::empty()),
        line_emission(info, To::End) == capability_expansion(info, Capability::ClrEol, Seq::empty()),
        screen_emission(info, To::End) == capability_expansion(info, Capability::ClrEos, Seq::empty()),
        screen_emission(info, To::Start) == (Seq::<u8>::empty(), Err::<(), TermError>(TermError::NotSupported)),
{
    lemma_expand_cap(info, Capability::ClrBol, Seq::empty());
    lemma_expand_cap(info, Capability::ClrEol, Seq::empty());
    lemma_expand_cap(info, Capability::ClrEos, Seq::empty());
}

/// Erasure on a terminal with the description `info`; what its operations
/// write is appended to `output`.
pub struct Erase<'a> {
    pub info: &'a Capabilities,
    pub output: Vec<u8>,
}

impl<'a> Erase<'a> {
    /// Erasure on a terminal with the description `info`.
    pub fn new(info: &'a Capabilities) -> (r: Erase<'a>)
        ensures
            r.info == info,
            r.output@ == Seq::<u8>::empty(),
    {
        Erase { info, output: Vec::new() }
    }

    /// Erase the line to an edge.
    pub fn line(&mut self, value: To) -> (r: Result<(), TermError>)
        ensures
            final(self).info == old(self).info,
            final(self).output@ == old(self).output@ + line_emission(old(self).info, value).0,
            r == line_emission(old(self).info, value).1,
    {
        match value {
            To::Start => expand_plain(self.info, &mut self.output, Capability::ClrBol),
            To::End => expand_plain(self.info, &mut self.output, Capability::ClrEol),
        }
    }

    /// Erase the display to an edge.
    pub fn screen(&mut self, value: To) -> (r: Result<(), TermError>)
        ensures
            final(self).info == old(self).info,
            final(self).output@ == old(self).output@ + screen_emission(old(self).info, value).0,
            r == screen_emission(old(self).info, value).1,
    {
        match value {
            To::Start => {
                assert(self.output@ =~= self.output@ + Seq::<u8>::empty());
                Err(TermError::NotSupported)
            },
            To::End => expand_plain(self.info, &mut self.output, Capability::ClrEos),
        }
    }
}

} // verus!
