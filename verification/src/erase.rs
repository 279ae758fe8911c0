//! Erasing parts of the line or of the display.
use vstd::prelude::*;

use crate::error::TermError;
use crate::info::{capability_expansion, lemma_expand_cap, emitted, expand_cap, expand_plain, refused, then, Capabilities, Capability, Emission};

verus! {

/// Edge to erase to.
#[derive(Clone, Copy, Debug, PartialEq, Eq, Structural)]
pub enum To {
    Start,
    End,
}

/// What erasing the line writes: to its start, to its end, or (`None`) both.
pub open spec fn line_emission(info: &Capabilities, value: Option<To>) -> Emission {
    match value {
        None => then(expand_cap(info, Capability::ClrBol, Seq::empty()), expand_cap(info, Capability::ClrEol, Seq::empty())),
        Some(To::Start) => expand_cap(info, Capability::ClrBol, Seq::empty()),
        Some(To::End) => expand_cap(info, Capability::ClrEol, Seq::empty()),
    }
}

/// What erasing the display writes: all of it (`None`) or to its end;
/// erasing to its start is not supported.
pub open spec fn screen_emission(info: &Capabilities, value: Option<To>) -> Emission {
    match value {
        None => expand_cap(info, Capability::ClearScreen, Seq::empty()),
        Some(To::End) => expand_cap(info, Capability::ClrEos, Seq::empty()),
        Some(To::Start) => refused(TermError::NotSupported),
    }
}

/// Erasing the line to its start uses `clr_bol`, to its end `clr_eol`, the
/// whole line `clr_bol` and then `clr_eol`; erasing the display uses
/// `clear_screen`, to its end `clr_eos`, and erasing it to its start is
/// refused without writing.
pub proof fn lemma_erase_capabilities(info: &Capabilities)
    ensures
        line_emission(info, Some(To::Start)) == capability_expansion(info, Capability::ClrBol, Seq::empty()),
        line_emission(info, Some(To::End)) == capability_expansion(info, Capability::ClrEol, Seq::empty()),
        line_emission(info, None) == ({
            let a = capability_expansion(info, Capability::ClrBol, Seq::empty());
            let b = capability_expansion(info, Capability::ClrEol, Seq::empty());
            if a.1 is Ok { (a.0 + b.0, b.1) } else { a }
        }),
        screen_emission(info, None) == capability_expansion(info, Capability::ClearScreen, Seq::empty()),
        screen_emission(info, Some(To::End)) == capability_expansion(info, Capability::ClrEos, Seq::empty()),
        screen_emission(info, Some(To::Start)) == (Seq::<u8>::empty(), Err::<(), TermError>(TermError::NotSupported)),
{
    lemma_expand_cap(info, Capability::ClrBol, Seq::empty());
    lemma_expand_cap(info, Capability::ClrEol, Seq::empty());
    lemma_expand_cap(info, Capability::ClearScreen, Seq::empty());
    lemma_expand_cap(info, Capability::ClrEos, Seq::empty());
}

/// Erasure on a terminal with the description `info`; what its operations
/// write is appended to `output`.
pub struct Erase<'a> {
    pub info: &'a Capabilities,
    pub output: Vec<u8>,
}

impl<'a> Erase<'a> {
    /// Erasure on a terminal with the description `info`.
    pub fn new(info: &'a Capabilities) -> (r: Erase<'a>)
        ensures
            r.info == info,
            r.output@ == Seq::<u8>::empty(),
    {
        Erase { info, output: Vec::new() }
    }

    /// Erase the line.
    pub fn line(&mut self, value: Option<To>) -> (r: Result<(), TermError>)
        ensures
            final(self).info == old(self).info,
            final(self).output@ == old(self).output@ + line_emission(old(self).info, value).0,
            r == line_emission(old(self).info, value).1,
    {
        match value {
            None => {
                let ghost start = self.output@;
                let r = expand_plain(self.info, &mut self.output, Capability::ClrBol);
                if r.is_err() {
                    return r;
                }
                let r2 = expand_plain(self.info, &mut self.output, Capability::ClrEol);
                assert(self.output@ =~= start + (expand_cap(self.info, Capability::ClrBol, Seq::empty()).0
                    + expand_cap(self.info, Capability::ClrEol, Seq::empty()).0));
                r2
            },
            Some(To::Start) => expand_plain(self.info, &mut self.output, Capability::ClrBol),
            Some(To::End) => expand_plain(self.info, &mut self.output, Capability::ClrEol),
        }
    }

    /// Erase the display.
    pub fn screen(&mut self, value: Option<To>) -> (r: Result<(), TermError>)
        ensures
            final(self).info == old(self).info,
            final(self).output@ == old(self).output@ + screen_emission(old(self).info, value).0,
            r == screen_emission(old(self).info, value).1,
    {
        match value {
            None => expand_plain(self.info, &mut self.output, Capability::ClearScreen),
            Some(To::End) => expand_plain(self.info, &mut self.output, Capability::ClrEos),
            Some(To::Start) => {
                assert(self.output@ =~= self.output@ + Seq::<u8>::empty());
                Err(TermError::NotSupported)
            },
        }
    }
}

} // verus!
