//! The control sequences that set a terminal up, formatted by the
//! control-code crate.
use vstd::prelude::*;

use control_code::{CSI, DEC};

use crate::info::decimal;

verus! {

/// A DEC private mode.
#[derive(Clone, Copy, Debug, PartialEq, Eq, Structural)]
pub enum DecMode {
    /// Cursor keys send application sequences (mode 1).
    ApplicationCursor,
}

/// A control sequence.
#[derive(Clone, Debug, PartialEq, Eq)]
pub enum ControlCode {
    /// Sets a DEC private mode.
    DecSet(DecMode),
    /// Resets a DEC private mode.
    DecReset(DecMode),
    /// Turns the application keypad on or off.
    ApplicationKeypad(bool),
    /// A private control sequence with the final byte and the numeric
    /// arguments given.
    Private(u8, Vec<u32>),
}

/// The number of a DEC private mode.
pub open spec fn dec_mode_number(mode: DecMode) -> u32 {
    match mode {
        DecMode::ApplicationCursor => 1,
    }
}

/// The decimal numbers of `args`, separated by `;`.
pub open spec fn joined_decimals(args: Seq<u32>) -> Seq<u8>
    decreases args.len(),
{
    if args.len() == 0 {
        Seq::empty()
    } else if args.len() == 1 {
        decimal(args[0] as nat)
    } else {
        joined_decimals(args.drop_last()) + seq![0x3Bu8] + decimal(args.last() as nat)
    }
}

/// A private control sequence: `ESC [ ?`, the arguments, the final byte.
pub open spec fn csi_private(id: u8, args: Seq<u32>) -> Seq<u8> {
    seq![0x1Bu8, 0x5Bu8, 0x3Fu8] + joined_decimals(args) + seq![id]
}

/// The bytes of a control sequence.
pub open spec fn control_bytes(code: ControlCode) -> Seq<u8> {
    match code {
        ControlCode::DecSet(mode) => csi_private(0x68, seq![dec_mode_number(mode)]),
        ControlCode::DecReset(mode) => csi_private(0x6C, seq![dec_mode_number(mode)]),
        ControlCode::ApplicationKeypad(on) => if on {
            seq![0x1Bu8, 0x3Du8]
        } else {
            seq![0x1Bu8, 0x3Eu8]
        },
        ControlCode::Private(id, args) => csi_private(id, args@),
    }
}

/// Formats a control sequence with `control_code::format`. As control-code's
/// `Format` impls for `DEC` and `CSI` show, a DEC mode change is the private
/// sequence of the mode's number with the final byte `h` or `l`, the
/// application keypad is `ESC =` or `ESC >`, and a private sequence is
/// `ESC [ ?` followed by the decimal arguments separated by `;` and the
/// final byte.
#[verifier::external_body]
pub(crate) fn format_control(code: &ControlCode) -> (r: Vec<u8>)
    ensures
        r@ == control_bytes(*code),
{
    match code {
        ControlCode::DecSet(DecMode::ApplicationCursor) =>
            control_code::format(&DEC::Set(CSI::values(&[DEC::Mode::ApplicationCursor]))),
        ControlCode::DecReset(DecMode::ApplicationCursor) =>
            control_code::format(&DEC::Reset(CSI::values(&[DEC::Mode::ApplicationCursor]))),
        ControlCode::ApplicationKeypad(on) => control_code::format(&DEC::ApplicationKeypad(*on)),
        ControlCode::Private(id, args) => control_code::format(&CSI::Private(*id, None, CSI::args(args.iter()))),
    }
}

} // verus!
