//! Cursor visibility and movement, in the form where an absolute move
//! without `cursor_address` sets the column before the row.
use vstd::prelude::*;

use crate::cursor::{direction_law, steps};
use crate::error::TermError;
use crate::info::{capability_expansion, lemma_expand_cap, lemma_repeat_times, emitted, expand_cap, expand_into, expand_or, expand_plain, then, Capabilities, Capability, Emission};

verus! {

/// Cursor movements.
#[derive(Clone, Copy, Debug, PartialEq, Eq, Structural)]
pub enum Travel {
    Up(u32),
    Down(u32),
    Left(u32),
    Right(u32),
    /// To the given column and row, each where given.
    To(Option<u32>, Option<u32>),
}

/// What a cursor movement writes.
pub open spec fn travel_emission(info: &Capabilities, value: Travel) -> Emission {
    match value {
        Travel::Up(n) => steps(info, Capability::CursorUp, Capability::ParmUpCursor, n),
        Travel::Down(n) => steps(info, Capability::CursorDown, Capability::ParmDownCursor, n),
        Travel::Left(n) => steps(info, Capability::CursorLeft, Capability::ParmLeftCursor, n),
        Travel::Right(n) => steps(info, Capability::CursorRight, Capability::ParmRightCursor, n),
        Travel::To(Some(x), Some(y)) => expand_or(
            info,
            Capability::CursorAddress,
            seq![y as i32, x as i32],
            then(expand_cap(info, Capability::ColumnAddress, seq![x as i32]), expand_cap(info, Capability::RowAddress, seq![y as i32])),
        ),
        Travel::To(Some(x), None) => expand_cap(info, Capability::ColumnAddress, seq![x as i32]),
        Travel::To(None, Some(y)) => expand_cap(info, Capability::RowAddress, seq![y as i32]),
        Travel::To(None, None) => emitted(Seq::empty()),
    }
}

/// Each direction moves by its own capabilities: up by `cursor_up` and
/// `parm_up_cursor`, down by `cursor_down` and `parm_down_cursor`, left by
/// `cursor_left` and `parm_left_cursor`, right by `cursor_right` and
/// `parm_right_cursor` (see `direction_law`).
pub proof fn lemma_travel_directions(info: &Capabilities, n: u32)
    ensures
        direction_law(info, travel_emission(info, Travel::Up(n)), Capability::CursorUp, Capability::ParmUpCursor, n),
        direction_law(info, travel_emission(info, Travel::Down(n)), Capability::CursorDown, Capability::ParmDownCursor, n),
        direction_law(info, travel_emission(info, Travel::Left(n)), Capability::CursorLeft, Capability::ParmLeftCursor, n),
        direction_law(info, travel_emission(info, Travel::Right(n)), Capability::CursorRight, Capability::ParmRightCursor, n),
{
    lemma_expand_cap(info, Capability::CursorUp, Seq::empty());
    lemma_expand_cap(info, Capability::CursorDown, Seq::empty());
    lemma_expand_cap(info, Capability::CursorLeft, Seq::empty());
    lemma_expand_cap(info, Capability::CursorRight, Seq::empty());
    lemma_expand_cap(info, Capability::ParmUpCursor, seq![1i32]);
    lemma_expand_cap(info, Capability::ParmDownCursor, seq![1i32]);
    lemma_expand_cap(info, Capability::ParmLeftCursor, seq![1i32]);
    lemma_expand_cap(info, Capability::ParmRightCursor, seq![1i32]);
    lemma_expand_cap(info, Capability::ParmUpCursor, seq![n as i32]);
    lemma_expand_cap(info, Capability::ParmDownCursor, seq![n as i32]);
    lemma_expand_cap(info, Capability::ParmLeftCursor, seq![n as i32]);
    lemma_expand_cap(info, Capability::ParmRightCursor, seq![n as i32]);
    lemma_repeat_times(expand_cap(info, Capability::CursorUp, Seq::empty()), n as nat);
    lemma_repeat_times(expand_cap(info, Capability::CursorDown, Seq::empty()), n as nat);
    lemma_repeat_times(expand_cap(info, Capability::CursorLeft, Seq::empty()), n as nat);
    lemma_repeat_times(expand_cap(info, Capability::CursorRight, Seq::empty()), n as nat);
}

/// A move to a position uses `cursor_address` with the row and the column
/// where the description has it, else `column_address` with the column and then `row_address` with the row; a move to a column
/// alone uses `column_address`, to a row alone `row_address`, and a move to
/// nowhere writes nothing.
pub proof fn lemma_travel_to(info: &Capabilities, x: u32, y: u32)
    ensures
        travel_emission(info, Travel::To(Some(x), Some(y))) == (if info.string(Capability::CursorAddress) is Some {
            capability_expansion(info, Capability::CursorAddress, seq![y as i32, x as i32])
        } else {
            let a = capability_expansion(info, Capability::ColumnAddress, seq![x as i32]);
            let b = capability_expansion(info, Capability::RowAddress, seq![y as i32]);
            if a.1 is Ok { (a.0 + b.0, b.1) } else { a }
        }),
        travel_emission(info, Travel::To(Some(x), None)) == capability_expansion(info, Capability::ColumnAddress, seq![x as i32]),
        travel_emission(info, Travel::To(None, Some(y))) == capability_expansion(info, Capability::RowAddress, seq![y as i32]),
        travel_emission(info, Travel::To(None, None)) == (Seq::<u8>::empty(), Ok::<(), TermError>(())),
{
    lemma_expand_cap(info, Capability::CursorAddress, seq![y as i32, x as i32]);
    lemma_expand_cap(info, Capability::RowAddress, seq![y as i32]);
    lemma_expand_cap(info, Capability::ColumnAddress, seq![x as i32]);
}

/// The cursor of a terminal with the description `info`; what its
/// operations write is appended to `output`.
pub struct Cursor<'a> {
    pub info: &'a Capabilities,
    pub output: Vec<u8>,
}

impl<'a> Cursor<'a> {
    /// The cursor of a terminal with the description `info`.
    pub fn new(info: &'a Capabilities) -> (r: Cursor<'a>)
        ensures
            r.info == info,
            r.output@ == Seq::<u8>::empty(),
    {
        Cursor { info, output: Vec::new() }
    }

    /// Make the cursor invisible.
    pub fn invisible(&mut self) -> (r: Result<(), TermError>)
        ensures
            final(self).info == old(self).info,
            final(self).output@ == old(self).output@ + expand_cap(old(self).info, Capability::CursorInvisible, Seq::empty()).0,
            r == expand_cap(old(self).info, Capability::CursorInvisible, Seq::empty()).1,
    {
        expand_plain(self.info, &mut self.output, Capability::CursorInvisible)
    }

    /// Make the cursor visible (`cursor_normal`).
    pub fn visible(&mut self) -> (r: Result<(), TermError>)
        ensures
            final(self).info == old(self).info,
            final(self).output@ == old(self).output@ + expand_cap(old(self).info, Capability::CursorNormal, Seq::empty()).0,
            r == expand_cap(old(self).info, Capability::CursorNormal, Seq::empty()).1,
    {
        expand_plain(self.info, &mut self.output, Capability::CursorNormal)
    }

    /// Move the cursor.
    pub fn travel(&mut self, value: Travel) -> (r: Result<(), TermError>)
        ensures
            final(self).info == old(self).info,
            final(self).output@ == old(self).output@ + travel_emission(old(self).info, value).0,
            r == travel_emission(old(self).info, value).1,
    {
        let mut moved = crate::cursor::Cursor::new(self.info);
        match value {
            Travel::To(Some(x), Some(y)) => {
                if self.info.get(Capability::CursorAddress).is_some() {
                    let params: Vec<i32> = vec![y as i32, x as i32];
                    assert(params@ =~= seq![y as i32, x as i32]);
                    expand_into(self.info, &mut self.output, Capability::CursorAddress, params.as_slice())
                } else {
                    let column: Vec<i32> = vec![x as i32];
                    assert(column@ =~= seq![x as i32]);
                    let ghost start = self.output@;
                    let r = expand_into(self.info, &mut self.output, Capability::ColumnAddress, column.as_slice());
                    if r.is_err() {
                        return r;
                    }
                    let row: Vec<i32> = vec![y as i32];
                    assert(row@ =~= seq![y as i32]);
                    let r2 = expand_into(self.info, &mut self.output, Capability::RowAddress, row.as_slice());
                    assert(self.output@ =~= start + (expand_cap(self.info, Capability::ColumnAddress, seq![x as i32]).0
                        + expand_cap(self.info, Capability::RowAddress, seq![y as i32]).0));
                    r2
                }
            },
            _ => {
                let same = match value {
                    Travel::Up(n) => crate::cursor::Travel::Up(n),
                    Travel::Down(n) => crate::cursor::Travel::Down(n),
                    Travel::Left(n) => crate::cursor::Travel::Left(n),
                    Travel::Right(n) => crate::cursor::Travel::Right(n),
                    Travel::To(x, y) => crate::cursor::Travel::To(x, y),
                };
                let r = moved.travel(same);
                let ghost start = self.output@;
                crate::info::write_bytes(&mut self.output, moved.output.as_slice());
                assert(self.output@ =~= start + crate::cursor::travel_emission(self.info, same).0);
                r
            },
        }
    }
}

} // verus!
