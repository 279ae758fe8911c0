//! Text attributes and colors.
use vstd::prelude::*;

use crate::error::TermError;
use crate::info::{capability_expansion, lemma_expand_cap, 
    decimal, emitted, expand_cap, expand_into, expand_plain, or_else, refused, write_bytes, write_decimal,
    Capabilities, Capability, Emission,
};

verus! {

/// Text weights.
#[derive(Clone, Copy, Debug, PartialEq, Eq, Structural)]
pub enum Weight {
    Default,
    Bold,
    Faint,
}

impl Default for Weight {
    fn default() -> (r: Weight)
        ensures
            r == Weight::Default,
    {
        Weight::Default
    }
}

/// Text colors.
#[derive(Clone, Copy, Debug, PartialEq, Eq, Structural)]
pub enum Color {
    Default,
    Transparent,
    Index(u8),
    Cmy(u8, u8, u8),
    Cmyk(u8, u8, u8, u8),
    Rgb(u8, u8, u8),
}

impl Default for Color {
    fn default() -> (r: Color)
        ensures
            r == Color::Default,
    {
        Color::Default
    }
}

/// A Select Graphic Rendition sequence: `ESC [`, `params`, `m`.
pub open spec fn sgr(params: Seq<u8>) -> Seq<u8> {
    seq![0x1Bu8, 0x5Bu8] + params + seq![0x6Du8]
}

/// The decimal numbers `a`, `b`, `c`, separated by `;`.
pub open spec fn triple(a: u8, b: u8, c: u8) -> Seq<u8> {
    decimal(a as nat) + seq![0x3Bu8] + decimal(b as nat) + seq![0x3Bu8] + decimal(c as nat)
}

/// An attribute turned on by `cap`, or by the sequence `fallback` where
/// expanding `cap` fails.
pub open spec fn attribute(info: &Capabilities, cap: Capability, fallback: Seq<u8>) -> Emission {
    or_else(expand_cap(info, cap, Seq::empty()), emitted(fallback))
}

/// Whether the description reports at least `n` colors.
pub open spec fn has_colors(info: &Capabilities, n: int) -> bool {
    info.max_colors matches Some(m) && m >= n
}

/// An attribute turned on by `cap` (or the sequence `ESC [ on m` where
/// expanding `cap` fails), or turned off by `ESC [ off m`.
pub open spec fn flag(info: &Capabilities, value: bool, cap: Capability, on: Seq<u8>, off: Seq<u8>) -> Emission {
    if value {
        attribute(info, cap, sgr(on))
    } else {
        emitted(sgr(off))
    }
}

/// An attribute turned on by `on` or off by `off`.
pub open spec fn switch(info: &Capabilities, value: bool, on: Capability, off: Capability) -> Emission {
    expand_cap(info, if value { on } else { off }, Seq::empty())
}

/// What setting the weight writes.
pub open spec fn weight_emission(info: &Capabilities, value: Weight) -> Emission {
    match value {
        Weight::Default => emitted(sgr(seq![0x32u8, 0x32u8])),
        Weight::Bold => attribute(info, Capability::EnterBoldMode, sgr(seq![0x31u8])),
        Weight::Faint => attribute(info, Capability::EnterDimMode, sgr(seq![0x32u8])),
    }
}

/// What setting the foreground color writes.
pub open spec fn foreground_emission(info: &Capabilities, value: Color) -> Emission {
    match value {
        Color::Default => emitted(sgr(seq![0x33u8, 0x39u8])),
        Color::Transparent => emitted(sgr(seq![0x33u8, 0x38u8, 0x3Bu8, 0x31u8])),
        Color::Index(id) => if id < 8 {
            or_else(
                expand_cap(info, Capability::SetAForeground, seq![id as i32]),
                or_else(
                    expand_cap(info, Capability::SetForeground, seq![id as i32]),
                    if has_colors(info, 8) {
                        emitted(sgr(seq![0x33u8] + decimal(id as nat)))
                    } else {
                        refused(TermError::NotSupported)
                    },
                ),
            )
        } else if id < 16 {
            if has_colors(info, 16) {
                or_else(
                    expand_cap(info, Capability::SetAForeground, seq![id as i32]),
                    emitted(sgr(seq![0x39u8] + decimal((id - 8) as nat))),
                )
            } else {
                refused(TermError::NotSupported)
            }
        } else {
            if has_colors(info, 256) {
                or_else(
                    expand_cap(info, Capability::SetAForeground, seq![id as i32]),
                    emitted(sgr(seq![0x33u8, 0x38u8, 0x3Bu8, 0x35u8, 0x3Bu8] + decimal(id as nat))),
                )
            } else {
                refused(TermError::NotSupported)
            }
        },
        Color::Rgb(r, g, b) => or_else(
            expand_cap(info, Capability::SetTrueColorForeground, seq![r as i32, g as i32, b as i32]),
            emitted(sgr(seq![0x33u8, 0x38u8, 0x3Bu8, 0x32u8, 0x3Bu8] + triple(r, g, b))),
        ),
        _ => refused(TermError::NotSupported),
    }
}

/// What setting the background color writes.
pub open spec fn background_emission(info: &Capabilities, value: Color) -> Emission {
    match value {
        Color::Default => emitted(sgr(seq![0x34u8, 0x39u8])),
        Color::Transparent => emitted(sgr(seq![0x34u8, 0x38u8, 0x3Bu8, 0x31u8])),
        Color::Index(id) => if id < 8 {
            or_else(
                expand_cap(info, Capability::SetABackground, seq![id as i32]),
                or_else(
                    expand_cap(info, Capability::SetBackground, seq![id as i32]),
                    if has_colors(info, 8) {
                        emitted(sgr(seq![0x34u8] + decimal(id as nat)))
                    } else {
                        refused(TermError::NotSupported)
                    },
                ),
            )
        } else if id < 16 {
            if has_colors(info, 16) {
                or_else(
                    expand_cap(info, Capability::SetABackground, seq![id as i32]),
                    emitted(sgr(seq![0x31u8, 0x30u8] + decimal((id - 8) as nat))),
                )
            } else {
                refused(TermError::NotSupported)
            }
        } else {
            if has_colors(info, 256) {
                or_else(
                    expand_cap(info, Capability::SetABackground, seq![id as i32]),
                    emitted(sgr(seq![0x34u8, 0x38u8, 0x3Bu8, 0x35u8, 0x3Bu8] + decimal(id as nat))),
                )
            } else {
                refused(TermError::NotSupported)
            }
        },
        Color::Rgb(r, g, b) => or_else(
            expand_cap(info, Capability::SetTrueColorBackground, seq![r as i32, g as i32, b as i32]),
            emitted(sgr(seq![0x34u8, 0x38u8, 0x3Bu8, 0x32u8, 0x3Bu8] + triple(r, g, b))),
        ),
        _ => refused(TermError::NotSupported),
    }
}

/// `ESC [`, `code` and `m`, written out.
pub open spec fn escape_code(code: Seq<u8>) -> Seq<u8> {
    seq![0x1Bu8, 0x5Bu8] + code + seq![0x6Du8]
}

/// What turning an attribute on with capability `cap`, or with the bytes
/// `fallback` where that fails, writes: the expansion of `cap` where the
/// description has it and terminfo expands it; what terminfo wrote of it
/// and then `fallback` where it fails; `fallback` alone where the
/// description lacks `cap` or its string is not accepted. It never fails.
pub open spec fn cap_or_fallback(info: &Capabilities, cap: Capability, fallback: Seq<u8>, e: Emission) -> bool {
    let c = capability_expansion(info, cap, Seq::empty());
    &&& e.1 is Ok
    &&& e.0 == (if c.1 is Ok { c.0 } else { c.0 + fallback })
}

/// The weight: bold turns on with `enter_bold_mode` or `ESC [ 1 m`, faint
/// with `enter_dim_mode` or `ESC [ 2 m`, and the default weight is
/// `ESC [ 22 m`.
pub proof fn lemma_weight_capabilities(info: &Capabilities)
    ensures
        cap_or_fallback(info, Capability::EnterBoldMode, seq![0x1Bu8, 0x5Bu8, 0x31u8, 0x6Du8], weight_emission(info, Weight::Bold)),
        cap_or_fallback(info, Capability::EnterDimMode, seq![0x1Bu8, 0x5Bu8, 0x32u8, 0x6Du8], weight_emission(info, Weight::Faint)),
        weight_emission(info, Weight::Default) == (seq![0x1Bu8, 0x5Bu8, 0x32u8, 0x32u8, 0x6Du8], Ok::<(), TermError>(())),
{
    lemma_expand_cap(info, Capability::EnterBoldMode, Seq::empty());
    lemma_expand_cap(info, Capability::EnterDimMode, Seq::empty());
    assert(sgr(seq![0x31u8]) =~= seq![0x1Bu8, 0x5Bu8, 0x31u8, 0x6Du8]);
    assert(sgr(seq![0x32u8]) =~= seq![0x1Bu8, 0x5Bu8, 0x32u8, 0x6Du8]);
    assert(sgr(seq![0x32u8, 0x32u8]) =~= seq![0x1Bu8, 0x5Bu8, 0x32u8, 0x32u8, 0x6Du8]);
}

/// A flag attribute turns on with its capability, or `ESC [ on m` where
/// that fails, and off with `ESC [ off m`.
pub proof fn lemma_flag_capability(info: &Capabilities, cap: Capability, on: Seq<u8>, off: Seq<u8>)
    ensures
        cap_or_fallback(info, cap, escape_code(on), flag(info, true, cap, on, off)),
        flag(info, false, cap, on, off) == (escape_code(off), Ok::<(), TermError>(())),
{
    lemma_expand_cap(info, cap, Seq::empty());
    assert(sgr(on) =~= escape_code(on));
    assert(sgr(off) =~= escape_code(off));
}

/// A switched attribute turns on with its `on` capability and off with its
/// `off` capability, and nothing else.
pub proof fn lemma_switch_capability(info: &Capabilities, value: bool, on: Capability, off: Capability)
    ensures
        value ==> switch(info, value, on, off) == capability_expansion(info, on, Seq::empty()),
        !value ==> switch(info, value, on, off) == capability_expansion(info, off, Seq::empty()),
{
    lemma_expand_cap(info, on, Seq::empty());
    lemma_expand_cap(info, off, Seq::empty());
}

/// What setting a color writes, for the capabilities and codes of one
/// plane: `first` and `second` expand the eight basic colors, `first` the
/// others, `rgb` true colors; `low`, `high` and `indexed` lead the codes
/// written without those capabilities for the basic, the bright and the
/// other indexed colors, `rgb_lead` that of a true color.
pub open spec fn plane_emission(
    info: &Capabilities,
    value: Color,
    first: Capability,
    second: Capability,
    rgb: Capability,
    default: Seq<u8>,
    transparent: Seq<u8>,
    low: Seq<u8>,
    high: Seq<u8>,
    indexed: Seq<u8>,
    rgb_lead: Seq<u8>,
) -> Emission {
    match value {
        Color::Default => emitted(sgr(default)),
        Color::Transparent => emitted(sgr(transparent)),
        Color::Index(id) => if id < 8 {
            or_else(
                expand_cap(info, first, seq![id as i32]),
                or_else(
                    expand_cap(info, second, seq![id as i32]),
                    if has_colors(info, 8) {
                        emitted(sgr(low + decimal(id as nat)))
                    } else {
                        refused(TermError::NotSupported)
                    },
                ),
            )
        } else if id < 16 {
            if has_colors(info, 16) {
                or_else(expand_cap(info, first, seq![id as i32]), emitted(sgr(high + decimal((id - 8) as nat))))
            } else {
                refused(TermError::NotSupported)
            }
        } else {
            if has_colors(info, 256) {
                or_else(expand_cap(info, first, seq![id as i32]), emitted(sgr(indexed + decimal(id as nat))))
            } else {
                refused(TermError::NotSupported)
            }
        },
        Color::Rgb(r, g, b) => or_else(
            expand_cap(info, rgb, seq![r as i32, g as i32, b as i32]),
            emitted(sgr(rgb_lead + triple(r, g, b))),
        ),
        _ => refused(TermError::NotSupported),
    }
}

/// The background answers as the foreground does, each with the
/// capabilities and codes of its plane: the foreground with `setaf`,
/// `setf`, `8f` and the codes 39, 38;1, 3n, 9n, 38;5;n and 38;2;r;g;b, the
/// background with `setab`, `setb`, `8b` and 49, 48;1, 4n, 10n, 48;5;n and
/// 48;2;r;g;b.
pub proof fn lemma_planes_alike(info: &Capabilities, value: Color)
    ensures
        foreground_emission(info, value) == plane_emission(
            info,
            value,
            Capability::SetAForeground,
            Capability::SetForeground,
            Capability::SetTrueColorForeground,
            seq![0x33u8, 0x39u8],
            seq![0x33u8, 0x38u8, 0x3Bu8, 0x31u8],
            seq![0x33u8],
            seq![0x39u8],
            seq![0x33u8, 0x38u8, 0x3Bu8, 0x35u8, 0x3Bu8],
            seq![0x33u8, 0x38u8, 0x3Bu8, 0x32u8, 0x3Bu8],
        ),
        background_emission(info, value) == plane_emission(
            info,
            value,
            Capability::SetABackground,
            Capability::SetBackground,
            Capability::SetTrueColorBackground,
            seq![0x34u8, 0x39u8],
            seq![0x34u8, 0x38u8, 0x3Bu8, 0x31u8],
            seq![0x34u8],
            seq![0x31u8, 0x30u8],
            seq![0x34u8, 0x38u8, 0x3Bu8, 0x35u8, 0x3Bu8],
            seq![0x34u8, 0x38u8, 0x3Bu8, 0x32u8, 0x3Bu8],
        ),
{
}

/// Colors, with the capabilities and codes of each plane named: an indexed
/// color below 8 by `setaf`, else `setf`, else `ESC [ 3n m` (`4n` for the
/// background) where the description reports 8 colors; 8 to 15 by `setaf`
/// (`setab`) or `ESC [ 9n m` (`10n`) with 16 colors; from 16 on by `setaf`
/// (`setab`) or `ESC [ 38;5;n m` (`48;5;n`) with 256 colors; a true color by
/// `8f` (`8b`) or `ESC [ 38;2;r;g;b m` (`48;2;r;g;b`); the default color
/// `ESC [ 39 m` (`49`), transparency `ESC [ 38;1 m` (`48;1`); CMY and CMYK are
/// refused.
#[verifier::rlimit(40)]
pub proof fn lemma_foreground_colors(info: &Capabilities, id: u8, r: u8, g: u8, bl: u8)
    ensures
        foreground_emission(info, Color::Default) == (seq![0x1Bu8, 0x5Bu8] + seq![0x33u8, 0x39u8] + seq![0x6Du8], Ok::<(), TermError>(())),
        foreground_emission(info, Color::Transparent) == (seq![0x1Bu8, 0x5Bu8] + seq![0x33u8, 0x38u8, 0x3Bu8, 0x31u8] + seq![0x6Du8], Ok::<(), TermError>(())),
        id < 8 && capability_expansion(info, Capability::SetAForeground, seq![id as i32]).1 is Ok ==> foreground_emission(info, Color::Index(id))
            == capability_expansion(info, Capability::SetAForeground, seq![id as i32]),
        id < 8 && info.string(Capability::SetAForeground) is None && capability_expansion(info, Capability::SetForeground, seq![id as i32]).1 is Ok
            ==> foreground_emission(info, Color::Index(id)) == capability_expansion(info, Capability::SetForeground, seq![id as i32]),
        id < 8 && info.string(Capability::SetAForeground) is None && info.string(Capability::SetForeground) is None ==> foreground_emission(info, Color::Index(id))
            == (if (info.max_colors is Some && info.max_colors.unwrap() >= 8) { (seq![0x1Bu8, 0x5Bu8] + seq![0x33u8] + seq![(0x30 + id) as u8] + seq![0x6Du8], Ok::<(), TermError>(())) } else { (Seq::<u8>::empty(), Err::<(), TermError>(TermError::NotSupported)) }),
        8 <= id < 16 && !((info.max_colors is Some && info.max_colors.unwrap() >= 16)) ==> foreground_emission(info, Color::Index(id)) == (Seq::<u8>::empty(), Err::<(), TermError>(TermError::NotSupported)),
        8 <= id < 16 && (info.max_colors is Some && info.max_colors.unwrap() >= 16) && info.string(Capability::SetAForeground) is None
            ==> foreground_emission(info, Color::Index(id)) == (seq![0x1Bu8, 0x5Bu8] + seq![0x39u8] + seq![(0x30 + id - 8) as u8] + seq![0x6Du8], Ok::<(), TermError>(())),
        16 <= id && !((info.max_colors is Some && info.max_colors.unwrap() >= 256)) ==> foreground_emission(info, Color::Index(id)) == (Seq::<u8>::empty(), Err::<(), TermError>(TermError::NotSupported)),
        16 <= id && (info.max_colors is Some && info.max_colors.unwrap() >= 256) && info.string(Capability::SetAForeground) is None
            ==> foreground_emission(info, Color::Index(id)) == (seq![0x1Bu8, 0x5Bu8] + seq![0x33u8, 0x38u8, 0x3Bu8, 0x35u8, 0x3Bu8] + decimal(id as nat) + seq![0x6Du8], Ok::<(), TermError>(())),
        8 <= id && (info.max_colors is Some && info.max_colors.unwrap() >= 256) && capability_expansion(info, Capability::SetAForeground, seq![id as i32]).1 is Ok
            ==> foreground_emission(info, Color::Index(id)) == capability_expansion(info, Capability::SetAForeground, seq![id as i32]),
        capability_expansion(info, Capability::SetTrueColorForeground, seq![r as i32, g as i32, bl as i32]).1 is Ok ==> foreground_emission(info, Color::Rgb(r, g, bl))
            == capability_expansion(info, Capability::SetTrueColorForeground, seq![r as i32, g as i32, bl as i32]),
        info.string(Capability::SetTrueColorForeground) is None ==> foreground_emission(info, Color::Rgb(r, g, bl)) == (seq![0x1Bu8, 0x5Bu8] + seq![0x33u8, 0x38u8, 0x3Bu8, 0x32u8, 0x3Bu8] + decimal(r as nat) + seq![0x3Bu8] + decimal(g as nat) + seq![0x3Bu8] + decimal(bl as nat) + seq![0x6Du8], Ok::<(), TermError>(())),
        foreground_emission(info, Color::Cmy(r, g, bl)) == (Seq::<u8>::empty(), Err::<(), TermError>(TermError::NotSupported)),
        foreground_emission(info, Color::Cmyk(r, g, bl, id)) == (Seq::<u8>::empty(), Err::<(), TermError>(TermError::NotSupported)),
{
    lemma_expand_cap(info, Capability::SetAForeground, seq![id as i32]);
    lemma_expand_cap(info, Capability::SetForeground, seq![id as i32]);
    lemma_expand_cap(info, Capability::SetTrueColorForeground, seq![r as i32, g as i32, bl as i32]);
    if id < 10 {
        assert(decimal(id as nat) =~= seq![(0x30 + id) as u8]);
    }
    if 8 <= id < 16 {
        assert(decimal((id - 8) as nat) =~= seq![(0x30 + id - 8) as u8]);
    }
    assert(sgr(seq![0x33u8, 0x39u8]) =~= seq![0x1Bu8, 0x5Bu8] + seq![0x33u8, 0x39u8] + seq![0x6Du8]);
    assert(sgr(seq![0x33u8, 0x38u8, 0x3Bu8, 0x31u8]) =~= seq![0x1Bu8, 0x5Bu8] + seq![0x33u8, 0x38u8, 0x3Bu8, 0x31u8] + seq![0x6Du8]);
    assert(sgr(seq![0x33u8] + decimal(id as nat)) =~= seq![0x1Bu8, 0x5Bu8] + seq![0x33u8] + decimal(id as nat) + seq![0x6Du8]);
    assert(sgr(seq![0x39u8] + decimal((id - 8) as nat)) =~= seq![0x1Bu8, 0x5Bu8] + seq![0x39u8] + decimal((id - 8) as nat) + seq![0x6Du8]);
    assert(sgr(seq![0x33u8, 0x38u8, 0x3Bu8, 0x35u8, 0x3Bu8] + decimal(id as nat)) =~= seq![0x1Bu8, 0x5Bu8] + seq![0x33u8, 0x38u8, 0x3Bu8, 0x35u8, 0x3Bu8] + decimal(id as nat) + seq![0x6Du8]);
    assert(sgr(seq![0x33u8, 0x38u8, 0x3Bu8, 0x32u8, 0x3Bu8] + triple(r, g, bl)) =~= seq![0x1Bu8, 0x5Bu8] + seq![0x33u8, 0x38u8, 0x3Bu8, 0x32u8, 0x3Bu8] + triple(r, g, bl) + seq![0x6Du8]);
}

/// The background colors, with their capabilities and codes named (see
/// `lemma_foreground_colors`).
#[verifier::rlimit(40)]
pub proof fn lemma_background_colors(info: &Capabilities, id: u8, r: u8, g: u8, bl: u8)
    ensures
        background_emission(info, Color::Default) == (seq![0x1Bu8, 0x5Bu8] + seq![0x34u8, 0x39u8] + seq![0x6Du8], Ok::<(), TermError>(())),
        background_emission(info, Color::Transparent) == (seq![0x1Bu8, 0x5Bu8] + seq![0x34u8, 0x38u8, 0x3Bu8, 0x31u8] + seq![0x6Du8], Ok::<(), TermError>(())),
        id < 8 && capability_expansion(info, Capability::SetABackground, seq![id as i32]).1 is Ok ==> background_emission(info, Color::Index(id))
            == capability_expansion(info, Capability::SetABackground, seq![id as i32]),
        id < 8 && info.string(Capability::SetABackground) is None && capability_expansion(info, Capability::SetBackground, seq![id as i32]).1 is Ok
            ==> background_emission(info, Color::Index(id)) == capability_expansion(info, Capability::SetBackground, seq![id as i32]),
        id < 8 && info.string(Capability::SetABackground) is None && info.string(Capability::SetBackground) is None ==> background_emission(info, Color::Index(id))
            == (if (info.max_colors is Some && info.max_colors.unwrap() >= 8) { (seq![0x1Bu8, 0x5Bu8] + seq![0x34u8] + seq![(0x30 + id) as u8] + seq![0x6Du8], Ok::<(), TermError>(())) } else { (Seq::<u8>::empty(), Err::<(), TermError>(TermError::NotSupported)) }),
        8 <= id < 16 && !((info.max_colors is Some && info.max_colors.unwrap() >= 16)) ==> background_emission(info, Color::Index(id)) == (Seq::<u8>::empty(), Err::<(), TermError>(TermError::NotSupported)),
        8 <= id < 16 && (info.max_colors is Some && info.max_colors.unwrap() >= 16) && info.string(Capability::SetABackground) is None
            ==> background_emission(info, Color::Index(id)) == (seq![0x1Bu8, 0x5Bu8] + seq![0x31u8, 0x30u8] + seq![(0x30 + id - 8) as u8] + seq![0x6Du8], Ok::<(), TermError>(())),
        16 <= id && !((info.max_colors is Some && info.max_colors.unwrap() >= 256)) ==> background_emission(info, Color::Index(id)) == (Seq::<u8>::empty(), Err::<(), TermError>(TermError::NotSupported)),
        16 <= id && (info.max_colors is Some && info.max_colors.unwrap() >= 256) && info.string(Capability::SetABackground) is None
            ==> background_emission(info, Color::Index(id)) == (seq![0x1Bu8, 0x5Bu8] + seq![0x34u8, 0x38u8, 0x3Bu8, 0x35u8, 0x3Bu8] + decimal(id as nat) + seq![0x6Du8], Ok::<(), TermError>(())),
        8 <= id && (info.max_colors is Some && info.max_colors.unwrap() >= 256) && capability_expansion(info, Capability::SetABackground, seq![id as i32]).1 is Ok
            ==> background_emission(info, Color::Index(id)) == capability_expansion(info, Capability::SetABackground, seq![id as i32]),
        capability_expansion(info, Capability::SetTrueColorBackground, seq![r as i32, g as i32, bl as i32]).1 is Ok ==> background_emission(info, Color::Rgb(r, g, bl))
            == capability_expansion(info, Capability::SetTrueColorBackground, seq![r as i32, g as i32, bl as i32]),
        info.string(Capability::SetTrueColorBackground) is None ==> background_emission(info, Color::Rgb(r, g, bl)) == (seq![0x1Bu8, 0x5Bu8] + seq![0x34u8, 0x38u8, 0x3Bu8, 0x32u8, 0x3Bu8] + decimal(r as nat) + seq![0x3Bu8] + decimal(g as nat) + seq![0x3Bu8] + decimal(bl as nat) + seq![0x6Du8], Ok::<(), TermError>(())),
        background_emission(info, Color::Cmy(r, g, bl)) == (Seq::<u8>::empty(), Err::<(), TermError>(TermError::NotSupported)),
        background_emission(info, Color::Cmyk(r, g, bl, id)) == (Seq::<u8>::empty(), Err::<(), TermError>(TermError::NotSupported)),
{
    lemma_expand_cap(info, Capability::SetABackground, seq![id as i32]);
    lemma_expand_cap(info, Capability::SetBackground, seq![id as i32]);
    lemma_expand_cap(info, Capability::SetTrueColorBackground, seq![r as i32, g as i32, bl as i32]);
    if id < 10 {
        assert(decimal(id as nat) =~= seq![(0x30 + id) as u8]);
    }
    if 8 <= id < 16 {
        assert(decimal((id - 8) as nat) =~= seq![(0x30 + id - 8) as u8]);
    }
    assert(sgr(seq![0x34u8, 0x39u8]) =~= seq![0x1Bu8, 0x5Bu8] + seq![0x34u8, 0x39u8] + seq![0x6Du8]);
    assert(sgr(seq![0x34u8, 0x38u8, 0x3Bu8, 0x31u8]) =~= seq![0x1Bu8, 0x5Bu8] + seq![0x34u8, 0x38u8, 0x3Bu8, 0x31u8] + seq![0x6Du8]);
    assert(sgr(seq![0x34u8] + decimal(id as nat)) =~= seq![0x1Bu8, 0x5Bu8] + seq![0x34u8] + decimal(id as nat) + seq![0x6Du8]);
    assert(sgr(seq![0x31u8, 0x30u8] + decimal((id - 8) as nat)) =~= seq![0x1Bu8, 0x5Bu8] + seq![0x31u8, 0x30u8] + decimal((id - 8) as nat) + seq![0x6Du8]);
    assert(sgr(seq![0x34u8, 0x38u8, 0x3Bu8, 0x35u8, 0x3Bu8] + decimal(id as nat)) =~= seq![0x1Bu8, 0x5Bu8] + seq![0x34u8, 0x38u8, 0x3Bu8, 0x35u8, 0x3Bu8] + decimal(id as nat) + seq![0x6Du8]);
    assert(sgr(seq![0x34u8, 0x38u8, 0x3Bu8, 0x32u8, 0x3Bu8] + triple(r, g, bl)) =~= seq![0x1Bu8, 0x5Bu8] + seq![0x34u8, 0x38u8, 0x3Bu8, 0x32u8, 0x3Bu8] + triple(r, g, bl) + seq![0x6Du8]);
}

/// Text attributes and colors on a terminal with the description `info`;
/// what its operations write is appended to `output`.
pub struct Text<'a> {
    pub info: &'a Capabilities,
    pub output: Vec<u8>,
}

/// Appends `ESC [`, `params` and `m` to `output`.
pub(crate) fn write_sgr(output: &mut Vec<u8>, params: &[u8])
    ensures
        final(output)@ == old(output)@ + sgr(params@),
{
    let ghost start = output@;
    write_bytes(output, &[0x1Bu8, 0x5Bu8]);
    write_bytes(output, params);
    write_bytes(output, &[0x6Du8]);
    assert(output@ =~= start + sgr(params@));
}

/// Appends the expansion of `cap`, or `fallback` where it fails.
fn write_attribute(info: &Capabilities, output: &mut Vec<u8>, cap: Capability, fallback: &[u8]) -> (r: Result<(), TermError>)
    ensures
        final(output)@ == old(output)@ + attribute(info, cap, fallback@).0,
        r == attribute(info, cap, fallback@).1,
{
    let ghost start = output@;
    if expand_plain(info, output, cap).is_err() {
        write_bytes(output, fallback);
        assert(output@ =~= start + (expand_cap(info, cap, Seq::empty()).0 + fallback@));
    }
    Ok(())
}

/// Appends `ESC [`, `lead`, the decimal digits of `n` and `m` to `output`.
fn write_sgr_number(output: &mut Vec<u8>, lead: &[u8], n: u8)
    ensures
        final(output)@ == old(output)@ + sgr(lead@ + decimal(n as nat)),
{
    let ghost start = output@;
    write_bytes(output, &[0x1Bu8, 0x5Bu8]);
    write_bytes(output, lead);
    write_decimal(output, n);
    write_bytes(output, &[0x6Du8]);
    assert(output@ =~= start + sgr(lead@ + decimal(n as nat)));
}

/// Appends `ESC [`, `lead`, the decimal numbers `r;g;b` and `m` to `output`.
pub(crate) fn write_sgr_rgb(output: &mut Vec<u8>, lead: &[u8], r: u8, g: u8, b: u8)
    ensures
        final(output)@ == old(output)@ + sgr(lead@ + triple(r, g, b)),
{
    let ghost start = output@;
    write_bytes(output, &[0x1Bu8, 0x5Bu8]);
    write_bytes(output, lead);
    write_decimal(output, r);
    write_bytes(output, &[0x3Bu8]);
    write_decimal(output, g);
    write_bytes(output, &[0x3Bu8]);
    write_decimal(output, b);
    write_bytes(output, &[0x6Du8]);
    assert(output@ =~= start + sgr(lead@ + triple(r, g, b)));
}

/// Appends the expansion of `first`, then where it fails that of `second`,
/// then where that fails too `ESC [ lead id m` where the description reports
/// at least eight colors; refused otherwise.
fn write_basic_color(
    info: &Capabilities,
    output: &mut Vec<u8>,
    first: Capability,
    second: Capability,
    lead: &[u8],
    id: u8,
) -> (r: Result<(), TermError>)
    ensures
        ({
            let e = or_else(
                expand_cap(info, first, seq![id as i32]),
                or_else(
                    expand_cap(info, second, seq![id as i32]),
                    if has_colors(info, 8) {
                        emitted(sgr(lead@ + decimal(id as nat)))
                    } else {
                        refused(TermError::NotSupported)
                    },
                ),
            );
            final(output)@ == old(output)@ + e.0 && r == e.1
        }),
{
    let ghost start = output@;
    let params: Vec<i32> = vec![id as i32];
    assert(params@ =~= seq![id as i32]);
    if expand_into(info, output, first, params.as_slice()).is_err() {
        if expand_into(info, output, second, params.as_slice()).is_err() {
            match info.max_colors {
                Some(n) => {
                    if n >= 8 {
                        write_sgr_number(output, lead, id);
                        assert(output@ =~= start + (expand_cap(info, first, seq![id as i32]).0 + (expand_cap(info, second, seq![id as i32]).0 + sgr(lead@ + decimal(id as nat)))));
                        return Ok(());
                    }
                },
                None => {},
            }
            assert(output@ =~= start + (expand_cap(info, first, seq![id as i32]).0 + (expand_cap(info, second, seq![id as i32]).0 + Seq::<u8>::empty())));
            return Err(TermError::NotSupported);
        }
        assert(output@ =~= start + (expand_cap(info, first, seq![id as i32]).0 + expand_cap(info, second, seq![id as i32]).0));
    }
    Ok(())
}

/// Appends the expansion of `cap` where the description reports at least
/// `colors` colors, or where it fails `ESC [ lead n m`; refused where the
/// description reports fewer colors.
fn write_rich_color(
    info: &Capabilities,
    output: &mut Vec<u8>,
    cap: Capability,
    colors: i16,
    lead: &[u8],
    id: u8,
    n: u8,
) -> (r: Result<(), TermError>)
    ensures
        ({
            let e = if has_colors(info, colors as int) {
                or_else(expand_cap(info, cap, seq![id as i32]), emitted(sgr(lead@ + decimal(n as nat))))
            } else {
                refused(TermError::NotSupported)
            };
            final(output)@ == old(output)@ + e.0 && r == e.1
        }),
{
    let ghost start = output@;
    let enough = match info.max_colors {
        Some(m) => m >= colors,
        None => false,
    };
    if !enough {
        assert(output@ =~= start + Seq::<u8>::empty());
        return Err(TermError::NotSupported);
    }
    let params: Vec<i32> = vec![id as i32];
    assert(params@ =~= seq![id as i32]);
    if expand_into(info, output, cap, params.as_slice()).is_err() {
        write_sgr_number(output, lead, n);
        assert(output@ =~= start + (expand_cap(info, cap, seq![id as i32]).0 + sgr(lead@ + decimal(n as nat))));
    }
    Ok(())
}

/// Appends the expansion of `cap` with a true color, or where it fails
/// `ESC [ lead r;g;b m`.
fn write_true_color(info: &Capabilities, output: &mut Vec<u8>, cap: Capability, lead: &[u8], r: u8, g: u8, b: u8) -> (res: Result<(), TermError>)
    ensures
        ({
            let e = or_else(expand_cap(info, cap, seq![r as i32, g as i32, b as i32]), emitted(sgr(lead@ + triple(r, g, b))));
            final(output)@ == old(output)@ + e.0 && res == e.1
        }),
{
    let ghost start = output@;
    let params: Vec<i32> = vec![r as i32, g as i32, b as i32];
    assert(params@ =~= seq![r as i32, g as i32, b as i32]);
    if expand_into(info, output, cap, params.as_slice()).is_err() {
        write_sgr_rgb(output, lead, r, g, b);
        assert(output@ =~= start + (expand_cap(info, cap, seq![r as i32, g as i32, b as i32]).0 + sgr(lead@ + triple(r, g, b))));
    }
    Ok(())
}

/// Appends the flag sequence (see `flag`).
fn write_flag(info: &Capabilities, output: &mut Vec<u8>, value: bool, cap: Capability, on: &[u8], off: &[u8]) -> (r: Result<(), TermError>)
    ensures
        final(output)@ == old(output)@ + flag(info, value, cap, on@, off@).0,
        r == flag(info, value, cap, on@, off@).1,
{
    if value {
        let ghost start = output@;
        let ghost e = expand_cap(info, cap, Seq::empty());
        if expand_plain(info, output, cap).is_err() {
            write_sgr(output, on);
            assert(output@ =~= start + (e.0 + sgr(on@)));
        }
        Ok(())
    } else {
        write_sgr(output, off);
        Ok(())
    }
}

impl<'a> Text<'a> {
    /// Text attributes on a terminal with the description `info`.
    pub fn new(info: &'a Capabilities) -> (r: Text<'a>)
        ensures
            r.info == info,
            r.output@ == Seq::<u8>::empty(),
    {
        Text { info, output: Vec::new() }
    }

    /// Reset every attribute.
    pub fn default(&mut self) -> (r: Result<(), TermError>)
        ensures
            final(self).info == old(self).info,
            final(self).output@ == old(self).output@ + expand_cap(old(self).info, Capability::ExitAttributeMode, Seq::empty()).0,
            r == expand_cap(old(self).info, Capability::ExitAttributeMode, Seq::empty()).1,
    {
        expand_plain(self.info, &mut self.output, Capability::ExitAttributeMode)
    }

    /// Set the weight.
    pub fn weight(&mut self, value: Weight) -> (r: Result<(), TermError>)
        ensures
            final(self).info == old(self).info,
            final(self).output@ == old(self).output@ + weight_emission(old(self).info, value).0,
            r == weight_emission(old(self).info, value).1,
    {
        match value {
            Weight::Default => {
                write_sgr(&mut self.output, &[0x32u8, 0x32u8]);
                Ok(())
            },
            Weight::Bold => {
                let fallback: Vec<u8> = vec![0x1Bu8, 0x5Bu8, 0x31u8, 0x6Du8];
                assert(fallback@ =~= sgr(seq![0x31u8]));
                write_attribute(self.info, &mut self.output, Capability::EnterBoldMode, fallback.as_slice())
            },
            Weight::Faint => {
                let fallback: Vec<u8> = vec![0x1Bu8, 0x5Bu8, 0x32u8, 0x6Du8];
                assert(fallback@ =~= sgr(seq![0x32u8]));
                write_attribute(self.info, &mut self.output, Capability::EnterDimMode, fallback.as_slice())
            },
        }
    }

    /// Turn on (`true`) or off the attribute that makes the text reverse the colors.
    pub fn reverse(&mut self, value: bool) -> (r: Result<(), TermError>)
        ensures
            final(self).info == old(self).info,
            final(self).output@ == old(self).output@ + flag(old(self).info, value, Capability::EnterReverseMode, seq![0x37u8], seq![0x32u8, 0x37u8]).0,
            r == flag(old(self).info, value, Capability::EnterReverseMode, seq![0x37u8], seq![0x32u8, 0x37u8]).1,
    {
        let on: Vec<u8> = vec![0x37u8];
        let off: Vec<u8> = vec![0x32u8, 0x37u8];
        assert(on@ =~= seq![0x37u8]);
        assert(off@ =~= seq![0x32u8, 0x37u8]);
        write_flag(self.info, &mut self.output, value, Capability::EnterReverseMode, on.as_slice(), off.as_slice())
    }

    /// Turn on (`true`) or off the attribute that makes the text blink.
    pub fn blink(&mut self, value: bool) -> (r: Result<(), TermError>)
        ensures
            final(self).info == old(self).info,
            final(self).output@ == old(self).output@ + flag(old(self).info, value, Capability::EnterBlinkMode, seq![0x35u8], seq![0x32u8, 0x35u8]).0,
            r == flag(old(self).info, value, Capability::EnterBlinkMode, seq![0x35u8], seq![0x32u8, 0x35u8]).1,
    {
        let on: Vec<u8> = vec![0x35u8];
        let off: Vec<u8> = vec![0x32u8, 0x35u8];
        assert(on@ =~= seq![0x35u8]);
        assert(off@ =~= seq![0x32u8, 0x35u8]);
        write_flag(self.info, &mut self.output, value, Capability::EnterBlinkMode, on.as_slice(), off.as_slice())
    }

    /// Turn on (`true`) or off the attribute that makes the text hide the text.
    pub fn invisible(&mut self, value: bool) -> (r: Result<(), TermError>)
        ensures
            final(self).info == old(self).info,
            final(self).output@ == old(self).output@ + flag(old(self).info, value, Capability::EnterSecureMode, seq![0x38u8], seq![0x32u8, 0x38u8]).0,
            r == flag(old(self).info, value, Capability::EnterSecureMode, seq![0x38u8], seq![0x32u8, 0x38u8]).1,
    {
        let on: Vec<u8> = vec![0x38u8];
        let off: Vec<u8> = vec![0x32u8, 0x38u8];
        assert(on@ =~= seq![0x38u8]);
        assert(off@ =~= seq![0x32u8, 0x38u8]);
        write_flag(self.info, &mut self.output, value, Capability::EnterSecureMode, on.as_slice(), off.as_slice())
    }

    /// Turn the alternate character set on (`true`) or off.
    pub fn alternative(&mut self, value: bool) -> (r: Result<(), TermError>)
        ensures
            final(self).info == old(self).info,
            final(self).output@ == old(self).output@ + switch(old(self).info, value, Capability::EnterAltCharsetMode, Capability::ExitAltCharsetMode).0,
            r == switch(old(self).info, value, Capability::EnterAltCharsetMode, Capability::ExitAltCharsetMode).1,
    {
        if value {
            expand_plain(self.info, &mut self.output, Capability::EnterAltCharsetMode)
        } else {
            expand_plain(self.info, &mut self.output, Capability::ExitAltCharsetMode)
        }
    }

    /// Turn italics on (`true`) or off.
    pub fn italic(&mut self, value: bool) -> (r: Result<(), TermError>)
        ensures
            final(self).info == old(self).info,
            final(self).output@ == old(self).output@ + switch(old(self).info, value, Capability::EnterItalicsMode, Capability::ExitItalicsMode).0,
            r == switch(old(self).info, value, Capability::EnterItalicsMode, Capability::ExitItalicsMode).1,
    {
        if value {
            expand_plain(self.info, &mut self.output, Capability::EnterItalicsMode)
        } else {
            expand_plain(self.info, &mut self.output, Capability::ExitItalicsMode)
        }
    }

    /// Turn standout mode on (`true`) or off.
    pub fn standout(&mut self, value: bool) -> (r: Result<(), TermError>)
        ensures
            final(self).info == old(self).info,
            final(self).output@ == old(self).output@ + switch(old(self).info, value, Capability::EnterStandoutMode, Capability::ExitStandoutMode).0,
            r == switch(old(self).info, value, Capability::EnterStandoutMode, Capability::ExitStandoutMode).1,
    {
        if value {
            expand_plain(self.info, &mut self.output, Capability::EnterStandoutMode)
        } else {
            expand_plain(self.info, &mut self.output, Capability::ExitStandoutMode)
        }
    }

    /// Turn underlining on (`true`) or off.
    pub fn underline(&mut self, value: bool) -> (r: Result<(), TermError>)
        ensures
            final(self).info == old(self).info,
            final(self).output@ == old(self).output@ + switch(old(self).info, value, Capability::EnterUnderlineMode, Capability::ExitUnderlineMode).0,
            r == switch(old(self).info, value, Capability::EnterUnderlineMode, Capability::ExitUnderlineMode).1,
    {
        if value {
            expand_plain(self.info, &mut self.output, Capability::EnterUnderlineMode)
        } else {
            expand_plain(self.info, &mut self.output, Capability::ExitUnderlineMode)
        }
    }

    /// Turn strike-through on (`true`) or off.
    pub fn struck(&mut self, value: bool) -> (r: Result<(), TermError>)
        ensures
            final(self).info == old(self).info,
            final(self).output@ == old(self).output@ + sgr(if value { seq![0x39u8] } else { seq![0x32u8, 0x39u8] }),
            r is Ok,
    {
        if value {
            write_sgr(&mut self.output, &[0x39u8]);
        } else {
            write_sgr(&mut self.output, &[0x32u8, 0x39u8]);
        }
        Ok(())
    }

    /// Set the foreground color.
    pub fn foreground(&mut self, value: Color) -> (r: Result<(), TermError>)
        ensures
            final(self).info == old(self).info,
            final(self).output@ == old(self).output@ + foreground_emission(old(self).info, value).0,
            r == foreground_emission(old(self).info, value).1,
    {
        match value {
            Color::Default => {
                write_sgr(&mut self.output, &[0x33u8, 0x39u8]);
                Ok(())
            },
            Color::Transparent => {
                write_sgr(&mut self.output, &[0x33u8, 0x38u8, 0x3Bu8, 0x31u8]);
                Ok(())
            },
            Color::Index(id) => {
                if id < 8 {
                    write_basic_color(self.info, &mut self.output, Capability::SetAForeground, Capability::SetForeground, &[0x33u8], id)
                } else if id < 16 {
                    write_rich_color(self.info, &mut self.output, Capability::SetAForeground, 16, &[0x39u8], id, id - 8)
                } else {
                    write_rich_color(self.info, &mut self.output, Capability::SetAForeground, 256, &[0x33u8, 0x38u8, 0x3Bu8, 0x35u8, 0x3Bu8], id, id)
                }
            },
            Color::Rgb(r, g, b) => write_true_color(self.info, &mut self.output, Capability::SetTrueColorForeground, &[0x33u8, 0x38u8, 0x3Bu8, 0x32u8, 0x3Bu8], r, g, b),
            _ => {
                assert(self.output@ =~= self.output@ + Seq::<u8>::empty());
                Err(TermError::NotSupported)
            },
        }
    }

    /// Set the background color.
    pub fn background(&mut self, value: Color) -> (r: Result<(), TermError>)
        ensures
            final(self).info == old(self).info,
            final(self).output@ == old(self).output@ + background_emission(old(self).info, value).0,
            r == background_emission(old(self).info, value).1,
    {
        match value {
            Color::Default => {
                write_sgr(&mut self.output, &[0x34u8, 0x39u8]);
                Ok(())
            },
            Color::Transparent => {
                write_sgr(&mut self.output, &[0x34u8, 0x38u8, 0x3Bu8, 0x31u8]);
                Ok(())
            },
            Color::Index(id) => {
                if id < 8 {
                    write_basic_color(self.info, &mut self.output, Capability::SetABackground, Capability::SetBackground, &[0x34u8], id)
                } else if id < 16 {
                    write_rich_color(self.info, &mut self.output, Capability::SetABackground, 16, &[0x31u8, 0x30u8], id, id - 8)
                } else {
                    write_rich_color(self.info, &mut self.output, Capability::SetABackground, 256, &[0x34u8, 0x38u8, 0x3Bu8, 0x35u8, 0x3Bu8], id, id)
                }
            },
            Color::Rgb(r, g, b) => write_true_color(self.info, &mut self.output, Capability::SetTrueColorBackground, &[0x34u8, 0x38u8, 0x3Bu8, 0x32u8, 0x3Bu8], r, g, b),
            _ => {
                assert(self.output@ =~= self.output@ + Seq::<u8>::empty());
                Err(TermError::NotSupported)
            },
        }
    }

    /// Write text.
    pub fn write(&mut self, value: &str) -> (r: Result<(), TermError>)
        ensures
            final(self).info == old(self).info,
            final(self).output@ == old(self).output@ + vstd::utf8::encode_utf8(value@),
            r is Ok,
    {
        write_bytes(&mut self.output, value.as_bytes());
        Ok(())
    }
}

} // verus!
