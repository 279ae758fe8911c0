//! Text attributes and colors, in the form where attributes are only
//! turned on and colors come from the description alone.
use vstd::prelude::*;

use crate::error::TermError;
use crate::info::{capability_expansion, lemma_expand_cap, emitted, expand_cap, expand_into, expand_or, expand_plain, refused, write_bytes, Capabilities, Capability, Emission};
use crate::text::{has_colors, sgr, switch, triple, write_sgr, write_sgr_rgb};

verus! {

/// Text colors.
#[derive(Clone, Copy, Debug, PartialEq, Eq, Structural)]
pub enum Color {
    Default,
    Transparent,
    Index(u8),
    Cmy(u8, u8, u8),
    Cmyk(u8, u8, u8, u8),
    Rgb(u8, u8, u8),
}

impl Default for Color {
    fn default() -> (r: Color)
        ensures
            r == Color::Default,
    {
        Color::Default
    }
}

/// An attribute turned on by `cap`; turning it off is not supported.
pub open spec fn enable(info: &Capabilities, value: bool, cap: Capability) -> Emission {
    if value {
        expand_cap(info, cap, Seq::empty())
    } else {
        refused(TermError::NotSupported)
    }
}

/// An attribute turns on with its capability and nothing else, and turning
/// it off is refused without writing.
pub proof fn lemma_enable_capability(info: &Capabilities, cap: Capability)
    ensures
        enable(info, true, cap) == capability_expansion(info, cap, Seq::empty()),
        enable(info, false, cap) == (Seq::<u8>::empty(), Err::<(), TermError>(TermError::NotSupported)),
{
    lemma_expand_cap(info, cap, Seq::empty());
}

/// What setting a color writes: `base` is the code of the default color,
/// `cap` and `plain` the capabilities for indexed colors, `rgb` the one for
/// true colors.
pub open spec fn color_emission(
    info: &Capabilities,
    value: Color,
    default: Seq<u8>,
    transparent: Seq<u8>,
    cap: Capability,
    plain: Capability,
    rgb: Capability,
    lead: Seq<u8>,
) -> Emission {
    match value {
        Color::Default => emitted(sgr(default)),
        Color::Transparent => emitted(sgr(transparent)),
        Color::Index(id) => if id < 8 {
            expand_or(info, cap, seq![id as i32], expand_cap(info, plain, seq![id as i32]))
        } else if id < 16 {
            if has_colors(info, 16) {
                expand_cap(info, cap, seq![id as i32])
            } else {
                refused(TermError::NotSupported)
            }
        } else {
            if has_colors(info, 256) {
                expand_cap(info, cap, seq![id as i32])
            } else {
                refused(TermError::NotSupported)
            }
        },
        Color::Rgb(r, g, b) => expand_or(
            info,
            rgb,
            seq![r as i32, g as i32, b as i32],
            emitted(sgr(lead + triple(r, g, b))),
        ),
        _ => refused(TermError::NotSupported),
    }
}

/// What setting the foreground color writes.
pub open spec fn foreground_emission(info: &Capabilities, value: Color) -> Emission {
    color_emission(info, value, seq![0x33u8, 0x39u8], seq![0x33u8, 0x38u8, 0x3Bu8, 0x31u8], Capability::SetAForeground, Capability::SetForeground,
        Capability::SetTrueColorForeground, seq![0x33u8, 0x38u8, 0x3Bu8, 0x32u8, 0x3Bu8])
}

/// What setting the background color writes.
pub open spec fn background_emission(info: &Capabilities, value: Color) -> Emission {
    color_emission(info, value, seq![0x34u8, 0x39u8], seq![0x34u8, 0x38u8, 0x3Bu8, 0x31u8], Capability::SetABackground, Capability::SetBackground,
        Capability::SetTrueColorBackground, seq![0x34u8, 0x38u8, 0x3Bu8, 0x32u8, 0x3Bu8])
}

/// Appends what setting a color writes (see `color_emission`).
fn write_color(
    info: &Capabilities,
    output: &mut Vec<u8>,
    value: Color,
    default: &[u8],
    transparent: &[u8],
    cap: Capability,
    plain: Capability,
    rgb: Capability,
    lead: &[u8],
) -> (r: Result<(), TermError>)
    ensures
        final(output)@ == old(output)@ + color_emission(info, value, default@, transparent@, cap, plain, rgb, lead@).0,
        r == color_emission(info, value, default@, transparent@, cap, plain, rgb, lead@).1,
{
    match value {
        Color::Default => {
            write_sgr(output, default);
            Ok(())
        },
        Color::Transparent => {
            write_sgr(output, transparent);
            Ok(())
        },
        Color::Index(id) => {
            let params: Vec<i32> = vec![id as i32];
            assert(params@ =~= seq![id as i32]);
            if id < 8 {
                if info.get(cap).is_some() {
                    expand_into(info, output, cap, params.as_slice())
                } else {
                    expand_into(info, output, plain, params.as_slice())
                }
            } else {
                let colors: i16 = if id < 16 { 16 } else { 256 };
                let enough = match info.max_colors {
                    Some(m) => m >= colors,
                    None => false,
                };
                if enough {
                    expand_into(info, output, cap, params.as_slice())
                } else {
                    assert(output@ =~= output@ + Seq::<u8>::empty());
                    Err(TermError::NotSupported)
                }
            }
        },
        Color::Rgb(r, g, b) => {
            if info.get(rgb).is_some() {
                let params: Vec<i32> = vec![r as i32, g as i32, b as i32];
                assert(params@ =~= seq![r as i32, g as i32, b as i32]);
                expand_into(info, output, rgb, params.as_slice())
            } else {
                write_sgr_rgb(output, lead, r, g, b);
                Ok(())
            }
        },
        _ => {
            assert(output@ =~= output@ + Seq::<u8>::empty());
            Err(TermError::NotSupported)
        },
    }
}

/// Text attributes and colors on a terminal with the description `info`;
/// what its operations write is appended to `output`.
pub struct Text<'a> {
    pub info: &'a Capabilities,
    pub output: Vec<u8>,
}

impl<'a> Text<'a> {
    /// Text attributes on a terminal with the description `info`.
    pub fn new(info: &'a Capabilities) -> (r: Text<'a>)
        ensures
            r.info == info,
            r.output@ == Seq::<u8>::empty(),
    {
        Text { info, output: Vec::new() }
    }

    /// Reset every attribute.
    pub fn default(&mut self) -> (r: Result<(), TermError>)
        ensures
            final(self).info == old(self).info,
            final(self).output@ == old(self).output@ + expand_cap(old(self).info, Capability::ExitAttributeMode, Seq::empty()).0,
            r == expand_cap(old(self).info, Capability::ExitAttributeMode, Seq::empty()).1,
    {
        expand_plain(self.info, &mut self.output, Capability::ExitAttributeMode)
    }

    /// Make the text bold; turning it off (`false`) is not supported.
    pub fn bold(&mut self, value: bool) -> (r: Result<(), TermError>)
        ensures
            final(self).info == old(self).info,
            final(self).output@ == old(self).output@ + enable(old(self).info, value, Capability::EnterBoldMode).0,
            r == enable(old(self).info, value, Capability::EnterBoldMode).1,
    {
        if value {
            expand_plain(self.info, &mut self.output, Capability::EnterBoldMode)
        } else {
            assert(self.output@ =~= self.output@ + Seq::<u8>::empty());
            Err(TermError::NotSupported)
        }
    }

    /// Make the text dim; turning it off (`false`) is not supported.
    pub fn dim(&mut self, value: bool) -> (r: Result<(), TermError>)
        ensures
            final(self).info == old(self).info,
            final(self).output@ == old(self).output@ + enable(old(self).info, value, Capability::EnterDimMode).0,
            r == enable(old(self).info, value, Capability::EnterDimMode).1,
    {
        if value {
            expand_plain(self.info, &mut self.output, Capability::EnterDimMode)
        } else {
            assert(self.output@ =~= self.output@ + Seq::<u8>::empty());
            Err(TermError::NotSupported)
        }
    }

    /// Make the text with reversed colors; turning it off (`false`) is not supported.
    pub fn reverse(&mut self, value: bool) -> (r: Result<(), TermError>)
        ensures
            final(self).info == old(self).info,
            final(self).output@ == old(self).output@ + enable(old(self).info, value, Capability::EnterReverseMode).0,
            r == enable(old(self).info, value, Capability::EnterReverseMode).1,
    {
        if value {
            expand_plain(self.info, &mut self.output, Capability::EnterReverseMode)
        } else {
            assert(self.output@ =~= self.output@ + Seq::<u8>::empty());
            Err(TermError::NotSupported)
        }
    }

    /// Make the text blinking; turning it off (`false`) is not supported.
    pub fn blink(&mut self, value: bool) -> (r: Result<(), TermError>)
        ensures
            final(self).info == old(self).info,
            final(self).output@ == old(self).output@ + enable(old(self).info, value, Capability::EnterBlinkMode).0,
            r == enable(old(self).info, value, Capability::EnterBlinkMode).1,
    {
        if value {
            expand_plain(self.info, &mut self.output, Capability::EnterBlinkMode)
        } else {
            assert(self.output@ =~= self.output@ + Seq::<u8>::empty());
            Err(TermError::NotSupported)
        }
    }

    /// Make the text invisible; turning it off (`false`) is not supported.
    pub fn invisible(&mut self, value: bool) -> (r: Result<(), TermError>)
        ensures
            final(self).info == old(self).info,
            final(self).output@ == old(self).output@ + enable(old(self).info, value, Capability::EnterSecureMode).0,
            r == enable(old(self).info, value, Capability::EnterSecureMode).1,
    {
        if value {
            expand_plain(self.info, &mut self.output, Capability::EnterSecureMode)
        } else {
            assert(self.output@ =~= self.output@ + Seq::<u8>::empty());
            Err(TermError::NotSupported)
        }
    }

    /// Turn the alternate character set on (`true`) or off.
    pub fn alternative(&mut self, value: bool) -> (r: Result<(), TermError>)
        ensures
            final(self).info == old(self).info,
            final(self).output@ == old(self).output@ + switch(old(self).info, value, Capability::EnterAltCharsetMode, Capability::ExitAltCharsetMode).0,
            r == switch(old(self).info, value, Capability::EnterAltCharsetMode, Capability::ExitAltCharsetMode).1,
    {
        if value {
            expand_plain(self.info, &mut self.output, Capability::EnterAltCharsetMode)
        } else {
            expand_plain(self.info, &mut self.output, Capability::ExitAltCharsetMode)
        }
    }

    /// Turn italics on (`true`) or off.
    pub fn italic(&mut self, value: bool) -> (r: Result<(), TermError>)
        ensures
            final(self).info == old(self).info,
            final(self).output@ == old(self).output@ + switch(old(self).info, value, Capability::EnterItalicsMode, Capability::ExitItalicsMode).0,
            r == switch(old(self).info, value, Capability::EnterItalicsMode, Capability::ExitItalicsMode).1,
    {
        if value {
            expand_plain(self.info, &mut self.output, Capability::EnterItalicsMode)
        } else {
            expand_plain(self.info, &mut self.output, Capability::ExitItalicsMode)
        }
    }

    /// Turn standout mode on (`true`) or off.
    pub fn standout(&mut self, value: bool) -> (r: Result<(), TermError>)
        ensures
            final(self).info == old(self).info,
            final(self).output@ == old(self).output@ + switch(old(self).info, value, Capability::EnterStandoutMode, Capability::ExitStandoutMode).0,
            r == switch(old(self).info, value, Capability::EnterStandoutMode, Capability::ExitStandoutMode).1,
    {
        if value {
            expand_plain(self.info, &mut self.output, Capability::EnterStandoutMode)
        } else {
            expand_plain(self.info, &mut self.output, Capability::ExitStandoutMode)
        }
    }

    /// Turn underlining on (`true`) or off.
    pub fn underline(&mut self, value: bool) -> (r: Result<(), TermError>)
        ensures
            final(self).info == old(self).info,
            final(self).output@ == old(self).output@ + switch(old(self).info, value, Capability::EnterUnderlineMode, Capability::ExitUnderlineMode).0,
            r == switch(old(self).info, value, Capability::EnterUnderlineMode, Capability::ExitUnderlineMode).1,
    {
        if value {
            expand_plain(self.info, &mut self.output, Capability::EnterUnderlineMode)
        } else {
            expand_plain(self.info, &mut self.output, Capability::ExitUnderlineMode)
        }
    }

    /// Set the foreground color.
    pub fn foreground(&mut self, value: Color) -> (r: Result<(), TermError>)
        ensures
            final(self).info == old(self).info,
            final(self).output@ == old(self).output@ + foreground_emission(old(self).info, value).0,
            r == foreground_emission(old(self).info, value).1,
    {
        let default: Vec<u8> = vec![0x33u8, 0x39u8];
        let transparent: Vec<u8> = vec![0x33u8, 0x38u8, 0x3Bu8, 0x31u8];
        let lead: Vec<u8> = vec![0x33u8, 0x38u8, 0x3Bu8, 0x32u8, 0x3Bu8];
        assert(default@ =~= seq![0x33u8, 0x39u8]);
        assert(transparent@ =~= seq![0x33u8, 0x38u8, 0x3Bu8, 0x31u8]);
        assert(lead@ =~= seq![0x33u8, 0x38u8, 0x3Bu8, 0x32u8, 0x3Bu8]);
        write_color(self.info, &mut self.output, value, default.as_slice(), transparent.as_slice(), Capability::SetAForeground,
            Capability::SetForeground, Capability::SetTrueColorForeground, lead.as_slice())
    }

    /// Set the background color.
    pub fn background(&mut self, value: Color) -> (r: Result<(), TermError>)
        ensures
            final(self).info == old(self).info,
            final(self).output@ == old(self).output@ + background_emission(old(self).info, value).0,
            r == background_emission(old(self).info, value).1,
    {
        let default: Vec<u8> = vec![0x34u8, 0x39u8];
        let transparent: Vec<u8> = vec![0x34u8, 0x38u8, 0x3Bu8, 0x31u8];
        let lead: Vec<u8> = vec![0x34u8, 0x38u8, 0x3Bu8, 0x32u8, 0x3Bu8];
        assert(default@ =~= seq![0x34u8, 0x39u8]);
        assert(transparent@ =~= seq![0x34u8, 0x38u8, 0x3Bu8, 0x31u8]);
        assert(lead@ =~= seq![0x34u8, 0x38u8, 0x3Bu8, 0x32u8, 0x3Bu8]);
        write_color(self.info, &mut self.output, value, default.as_slice(), transparent.as_slice(), Capability::SetABackground,
            Capability::SetBackground, Capability::SetTrueColorBackground, lead.as_slice())
    }

    /// Write text.
    pub fn write(&mut self, value: &str) -> (r: Result<(), TermError>)
        ensures
            final(self).info == old(self).info,
            final(self).output@ == old(self).output@ + vstd::utf8::encode_utf8(value@),
            r is Ok,
    {
        write_bytes(&mut self.output, value.as_bytes());
        Ok(())
    }
}

} // verus!
