//! Operations on the whole display.
use vstd::prelude::*;

use crate::error::TermError;
use crate::info::{expand_cap, expand_plain, Capabilities, Capability};

verus! {

/// The display of a terminal with the description `info`; what its
/// operations write is appended to `output`.
pub struct Screen<'a> {
    pub info: &'a Capabilities,
    pub output: Vec<u8>,
}

impl<'a> Screen<'a> {
    /// The display of a terminal with the description `info`.
    pub fn new(info: &'a Capabilities) -> (r: Screen<'a>)
        ensures
            r.info == info,
            r.output@ == Seq::<u8>::empty(),
    {
        Screen { info, output: Vec::new() }
    }

    /// Clear the display.
    pub fn clear(&mut self) -> (r: Result<(), TermError>)
        ensures
            final(self).info == old(self).info,
            final(self).output@ == old(self).output@ + expand_cap(old(self).info, Capability::ClearScreen, Seq::empty()).0,
            r == expand_cap(old(self).info, Capability::ClearScreen, Seq::empty()).1,
    {
        expand_plain(self.info, &mut self.output, Capability::ClearScreen)
    }
}

} // verus!
