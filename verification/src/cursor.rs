//! Cursor visibility and movement.
use vstd::prelude::*;

use crate::error::TermError;
use crate::info::{capability_expansion, lemma_expand_cap, lemma_repeat_times, times, emitted, expand_cap, expand_into, expand_or, expand_plain, lemma_repeat_failed, repeat, then, Capabilities, Capability, Emission};

verus! {

/// Cursor movements.
#[derive(Clone, Copy, Debug, PartialEq, Eq, Structural)]
pub enum Travel {
    Up(u32),
    Down(u32),
    Left(u32),
    Right(u32),
    /// To the given column and row, each where given.
    To(Option<u32>, Option<u32>),
}

/// Moving `n` cells with the one-cell capability `single` and the
/// parametrized capability `parm`: one cell by `single` where the description
/// has it, else by `parm`; more cells (or none) by `parm` where the
/// description has it, else by `single` repeated.
pub open spec fn steps(info: &Capabilities, single: Capability, parm: Capability, n: u32) -> Emission {
    if n == 1 {
        expand_or(info, single, Seq::empty(), expand_cap(info, parm, seq![1i32]))
    } else {
        expand_or(info, parm, seq![n as i32], repeat(expand_cap(info, single, Seq::empty()), n as nat))
    }
}

/// What a cursor movement writes.
pub open spec fn travel_emission(info: &Capabilities, value: Travel) -> Emission {
    match value {
        Travel::Up(n) => steps(info, Capability::CursorUp, Capability::ParmUpCursor, n),
        Travel::Down(n) => steps(info, Capability::CursorDown, Capability::ParmDownCursor, n),
        Travel::Left(n) => steps(info, Capability::CursorLeft, Capability::ParmLeftCursor, n),
        Travel::Right(n) => steps(info, Capability::CursorRight, Capability::ParmRightCursor, n),
        Travel::To(Some(x), Some(y)) => expand_or(
            info,
            Capability::CursorAddress,
            seq![y as i32, x as i32],
            then(expand_cap(info, Capability::RowAddress, seq![y as i32]), expand_cap(info, Capability::ColumnAddress, seq![x as i32])),
        ),
        Travel::To(Some(x), None) => expand_cap(info, Capability::ColumnAddress, seq![x as i32]),
        Travel::To(None, Some(y)) => expand_cap(info, Capability::RowAddress, seq![y as i32]),
        Travel::To(None, None) => emitted(Seq::empty()),
    }
}

/// What a movement of `n` cells writes, with the one-cell capability
/// `single` and the parametrized capability `parm` of its direction: one cell
/// by `single` where the description has it, else by `parm` with 1; any
/// other number of cells by `parm` with `n` where the description has it,
/// else by `single` `n` times over.
pub open spec fn direction_law(info: &Capabilities, e: Emission, single: Capability, parm: Capability, n: u32) -> bool {
    if n == 1 {
        e == (if info.string(single) is Some {
            capability_expansion(info, single, Seq::empty())
        } else {
            capability_expansion(info, parm, seq![1i32])
        })
    } else {
        e == (if info.string(parm) is Some {
            capability_expansion(info, parm, seq![n as i32])
        } else {
            times(capability_expansion(info, single, Seq::empty()), n as nat)
        })
    }
}

/// Each direction moves by its own capabilities: up by `cursor_up` and
/// `parm_up_cursor`, down by `cursor_down` and `parm_down_cursor`, left by
/// `cursor_left` and `parm_left_cursor`, right by `cursor_right` and
/// `parm_right_cursor` (see `direction_law`).
pub proof fn lemma_travel_directions(info: &Capabilities, n: u32)
    ensures
        direction_law(info, travel_emission(info, Travel::Up(n)), Capability::CursorUp, Capability::ParmUpCursor, n),
        direction_law(info, travel_emission(info, Travel::Down(n)), Capability::CursorDown, Capability::ParmDownCursor, n),
        direction_law(info, travel_emission(info, Travel::Left(n)), Capability::CursorLeft, Capability::ParmLeftCursor, n),
        direction_law(info, travel_emission(info, Travel::Right(n)), Capability::CursorRight, Capability::ParmRightCursor, n),
{
    lemma_expand_cap(info, Capability::CursorUp, Seq::empty());
    lemma_expand_cap(info, Capability::CursorDown, Seq::empty());
    lemma_expand_cap(info, Capability::CursorLeft, Seq::empty());
    lemma_expand_cap(info, Capability::CursorRight, Seq::empty());
    lemma_expand_cap(info, Capability::ParmUpCursor, seq![1i32]);
    lemma_expand_cap(info, Capability::ParmDownCursor, seq![1i32]);
    lemma_expand_cap(info, Capability::ParmLeftCursor, seq![1i32]);
    lemma_expand_cap(info, Capability::ParmRightCursor, seq![1i32]);
    lemma_expand_cap(info, Capability::ParmUpCursor, seq![n as i32]);
    lemma_expand_cap(info, Capability::ParmDownCursor, seq![n as i32]);
    lemma_expand_cap(info, Capability::ParmLeftCursor, seq![n as i32]);
    lemma_expand_cap(info, Capability::ParmRightCursor, seq![n as i32]);
    lemma_repeat_times(expand_cap(info, Capability::CursorUp, Seq::empty()), n as nat);
    lemma_repeat_times(expand_cap(info, Capability::CursorDown, Seq::empty()), n as nat);
    lemma_repeat_times(expand_cap(info, Capability::CursorLeft, Seq::empty()), n as nat);
    lemma_repeat_times(expand_cap(info, Capability::CursorRight, Seq::empty()), n as nat);
}

/// A move to a position uses `cursor_address` with the row and the column
/// where the description has it, else `row_address` with the row and then `column_address` with the column; a move to a column
/// alone uses `column_address`, to a row alone `row_address`, and a move to
/// nowhere writes nothing.
pub proof fn lemma_travel_to(info: &Capabilities, x: u32, y: u32)
    ensures
        travel_emission(info, Travel::To(Some(x), Some(y))) == (if info.string(Capability::CursorAddress) is Some {
            capability_expansion(info, Capability::CursorAddress, seq![y as i32, x as i32])
        } else {
            let a = capability_expansion(info, Capability::RowAddress, seq![y as i32]);
            let b = capability_expansion(info, Capability::ColumnAddress, seq![x as i32]);
            if a.1 is Ok { (a.0 + b.0, b.1) } else { a }
        }),
        travel_emission(info, Travel::To(Some(x), None)) == capability_expansion(info, Capability::ColumnAddress, seq![x as i32]),
        travel_emission(info, Travel::To(None, Some(y))) == capability_expansion(info, Capability::RowAddress, seq![y as i32]),
        travel_emission(info, Travel::To(None, None)) == (Seq::<u8>::empty(), Ok::<(), TermError>(())),
{
    lemma_expand_cap(info, Capability::CursorAddress, seq![y as i32, x as i32]);
    lemma_expand_cap(info, Capability::RowAddress, seq![y as i32]);
    lemma_expand_cap(info, Capability::ColumnAddress, seq![x as i32]);
}

/// The cursor of a terminal with the description `info`; what its
/// operations write is appended to `output`.
pub struct Cursor<'a> {
    pub info: &'a Capabilities,
    pub output: Vec<u8>,
}

impl<'a> Cursor<'a> {
    /// The cursor of a terminal with the description `info`.
    pub fn new(info: &'a Capabilities) -> (r: Cursor<'a>)
        ensures
            r.info == info,
            r.output@ == Seq::<u8>::empty(),
    {
        Cursor { info, output: Vec::new() }
    }

    /// Make the cursor invisible.
    pub fn invisible(&mut self) -> (r: Result<(), TermError>)
        ensures
            final(self).info == old(self).info,
            final(self).output@ == old(self).output@ + expand_cap(old(self).info, Capability::CursorInvisible, Seq::empty()).0,
            r == expand_cap(old(self).info, Capability::CursorInvisible, Seq::empty()).1,
    {
        expand_plain(self.info, &mut self.output, Capability::CursorInvisible)
    }

    /// Make the cursor normal.
    pub fn normal(&mut self) -> (r: Result<(), TermError>)
        ensures
            final(self).info == old(self).info,
            final(self).output@ == old(self).output@ + expand_cap(old(self).info, Capability::CursorNormal, Seq::empty()).0,
            r == expand_cap(old(self).info, Capability::CursorNormal, Seq::empty()).1,
    {
        expand_plain(self.info, &mut self.output, Capability::CursorNormal)
    }

    /// Make the cursor very visible.
    pub fn visible(&mut self) -> (r: Result<(), TermError>)
        ensures
            final(self).info == old(self).info,
            final(self).output@ == old(self).output@ + expand_cap(old(self).info, Capability::CursorVisible, Seq::empty()).0,
            r == expand_cap(old(self).info, Capability::CursorVisible, Seq::empty()).1,
    {
        expand_plain(self.info, &mut self.output, Capability::CursorVisible)
    }

    /// Move the cursor.
    pub fn travel(&mut self, value: Travel) -> (r: Result<(), TermError>)
        ensures
            final(self).info == old(self).info,
            final(self).output@ == old(self).output@ + travel_emission(old(self).info, value).0,
            r == travel_emission(old(self).info, value).1,
    {
        match value {
            Travel::Up(n) => steps_into(self.info, &mut self.output, Capability::CursorUp, Capability::ParmUpCursor, n),
            Travel::Down(n) => steps_into(self.info, &mut self.output, Capability::CursorDown, Capability::ParmDownCursor, n),
            Travel::Left(n) => steps_into(self.info, &mut self.output, Capability::CursorLeft, Capability::ParmLeftCursor, n),
            Travel::Right(n) => steps_into(self.info, &mut self.output, Capability::CursorRight, Capability::ParmRightCursor, n),
            Travel::To(Some(x), Some(y)) => {
                if self.info.get(Capability::CursorAddress).is_some() {
                    let params: Vec<i32> = vec![y as i32, x as i32];
                    assert(params@ =~= seq![y as i32, x as i32]);
                    expand_into(self.info, &mut self.output, Capability::CursorAddress, params.as_slice())
                } else {
                    let row: Vec<i32> = vec![y as i32];
                    assert(row@ =~= seq![y as i32]);
                    let ghost start = self.output@;
                    let r = expand_into(self.info, &mut self.output, Capability::RowAddress, row.as_slice());
                    if r.is_err() {
                        return r;
                    }
                    let column: Vec<i32> = vec![x as i32];
                    assert(column@ =~= seq![x as i32]);
                    let r2 = expand_into(self.info, &mut self.output, Capability::ColumnAddress, column.as_slice());
                    assert(self.output@ =~= start + (expand_cap(self.info, Capability::RowAddress, seq![y as i32]).0
                        + expand_cap(self.info, Capability::ColumnAddress, seq![x as i32]).0));
                    r2
                }
            },
            Travel::To(Some(x), None) => {
                let column: Vec<i32> = vec![x as i32];
                assert(column@ =~= seq![x as i32]);
                expand_into(self.info, &mut self.output, Capability::ColumnAddress, column.as_slice())
            },
            Travel::To(None, Some(y)) => {
                let row: Vec<i32> = vec![y as i32];
                assert(row@ =~= seq![y as i32]);
                expand_into(self.info, &mut self.output, Capability::RowAddress, row.as_slice())
            },
            Travel::To(None, None) => {
                assert(self.output@ =~= self.output@ + Seq::<u8>::empty());
                Ok(())
            },
        }
    }
}

/// Appends the movement of `n` cells (see `steps`) to `output`.
fn steps_into(info: &Capabilities, output: &mut Vec<u8>, single: Capability, parm: Capability, n: u32) -> (r: Result<(), TermError>)
    ensures
        final(output)@ == old(output)@ + steps(info, single, parm, n).0,
        r == steps(info, single, parm, n).1,
{
    if n == 1 {
        if info.get(single).is_some() {
            expand_plain(info, output, single)
        } else {
            let params: Vec<i32> = vec![1i32];
            assert(params@ =~= seq![1i32]);
            expand_into(info, output, parm, params.as_slice())
        }
    } else if info.get(parm).is_some() {
        let params: Vec<i32> = vec![n as i32];
        assert(params@ =~= seq![n as i32]);
        expand_into(info, output, parm, params.as_slice())
    } else {
        let ghost start = output@;
        let ghost e = expand_cap(info, single, Seq::empty());
        let mut k: u32 = 0;
        assert(start + repeat(e, 0).0 =~= start);
        while k < n
            invariant
                k <= n,
                n != 1,
                info.string(parm) is None,
                start == old(output)@,
                e == expand_cap(info, single, Seq::empty()),
                output@ == start + repeat(e, k as nat).0,
                repeat(e, k as nat).1 is Ok,
            decreases n - k,
        {
            let r = expand_plain(info, output, single);
            assert(output@ =~= start + repeat(e, (k + 1) as nat).0);
            if r.is_err() {
                proof {
                    lemma_repeat_failed(e, (k + 1) as nat, n as nat);
                }
                return r;
            }
            k = k + 1;
        }
        r_ok()
    }
}

/// Success.
fn r_ok() -> (r: Result<(), TermError>)
    ensures
        r == Ok::<(), TermError>(()),
{
    Ok(())
}

} // verus!
