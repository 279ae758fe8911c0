//! The part of a terminal description (a terminfo entry) that the library
//! reads, and the expansion of its parametrized strings.
use vstd::prelude::*;

use crate::error::TermError;
use crate::template::{tame, tame_template};
use terminfo::Expand;

verus! {

/// The string capabilities of a terminal description that the library uses.
#[derive(Clone, Copy, Debug, PartialEq, Eq, Structural)]
pub enum Capability {
    CursorInvisible,
    CursorNormal,
    CursorVisible,
    CursorUp,
    CursorDown,
    CursorLeft,
    CursorRight,
    ParmUpCursor,
    ParmDownCursor,
    ParmLeftCursor,
    ParmRightCursor,
    CursorAddress,
    RowAddress,
    ColumnAddress,
    ClrBol,
    ClrEol,
    ClrEos,
    ClearScreen,
    ExitAttributeMode,
    EnterBoldMode,
    EnterDimMode,
    EnterReverseMode,
    EnterBlinkMode,
    EnterSecureMode,
    EnterAltCharsetMode,
    ExitAltCharsetMode,
    EnterItalicsMode,
    ExitItalicsMode,
    EnterStandoutMode,
    ExitStandoutMode,
    EnterUnderlineMode,
    ExitUnderlineMode,
    SetAForeground,
    SetForeground,
    SetABackground,
    SetBackground,
    SetTrueColorForeground,
    SetTrueColorBackground,
    KeyEnter,
    CarriageReturn,
    KeyDown,
    KeyUp,
    KeyLeft,
    KeyRight,
    KeyNpage,
    KeyPpage,
    KeyBackspace,
    KeyBtab,
    Tab,
    /// The function key `key_f<n>`.
    KeyF(u8),
}

/// The value of capability `cap` among `entries`: the last entry for it wins.
pub open spec fn lookup(entries: Seq<(Capability, Vec<u8>)>, cap: Capability) -> Option<Seq<u8>>
    decreases entries.len(),
{
    if entries.len() == 0 {
        None
    } else if entries.last().0 == cap {
        Some(entries.last().1@)
    } else {
        lookup(entries.drop_last(), cap)
    }
}

/// What the library reads of a terminal description: its string
/// capabilities, the number of colors and the true color flag.
pub struct Capabilities {
    /// The string capabilities; where one occurs more than once, the last
    /// entry for it counts.
    pub strings: Vec<(Capability, Vec<u8>)>,
    /// The `max_colors` number, where the description has one.
    pub max_colors: Option<i16>,
    /// The `Tc` flag as the description reports it, where it reports one.
    pub true_color: Option<bool>,
}

impl Capabilities {
    /// The value of a string capability, `None` where the description lacks it.
    pub open spec fn string(&self, cap: Capability) -> Option<Seq<u8>> {
        lookup(self.strings@, cap)
    }

    /// A description without string capabilities.
    pub fn new(max_colors: Option<i16>, true_color: Option<bool>) -> (r: Self)
        ensures
            forall|c: Capability| r.string(c) is None,
            r.max_colors == max_colors,
            r.true_color == true_color,
    {
        Capabilities { strings: Vec::new(), max_colors, true_color }
    }

    /// Give capability `cap` the string `value`.
    pub fn set(&mut self, cap: Capability, value: Vec<u8>)
        ensures
            final(self).string(cap) == Some(value@),
            forall|c: Capability| c != cap ==> final(self).string(c) == old(self).string(c),
            final(self).max_colors == old(self).max_colors,
            final(self).true_color == old(self).true_color,
    {
        let ghost before = self.strings@;
        self.strings.push((cap, value));
        assert(self.strings@.drop_last() =~= before);
    }

    /// The string of capability `cap`, `None` where the description lacks it.
    pub fn get(&self, cap: Capability) -> (r: Option<&Vec<u8>>)
        ensures
            match r {
                Some(v) => self.string(cap) == Some(v@),
                None => self.string(cap) is None,
            },
    {
        let mut i = self.strings.len();
        assert(self.strings@.take(i as int) =~= self.strings@);
        while i > 0
            invariant
                i <= self.strings@.len(),
                lookup(self.strings@, cap) == lookup(self.strings@.take(i as int), cap),
            decreases i,
        {
            let ghost prefix = self.strings@.take(i as int);
            assert(prefix.drop_last() =~= self.strings@.take(i - 1));
            if self.strings[i - 1].0 == cap {
                return Some(&self.strings[i - 1].1);
            }
            i = i - 1;
        }
        assert(self.strings@.take(0).len() == 0);
        None
    }
}

/// What an outside expansion of the parametrized string `template` with the
/// numeric parameters `params` writes, and whether it succeeds.
pub uninterp spec fn expansion(template: Seq<u8>, params: Seq<i32>) -> (Seq<u8>, bool);

/// Expands `template` with `params` through terminfo's `Expand` impl for
/// `[u8]`, with a fresh expansion context (terminfo 0.2's context type is not
/// public, so no caller can keep one between expansions), appending what it
/// writes to `output`.
/// The contract claims that what is appended and whether it succeeds are
/// a function of the template and the parameters alone (named `expansion`),
/// and, as terminfo's parser shows, that a template without a `%` byte is
/// written out unchanged. terminfo's expansion loops forever on a `%` that
/// starts no item it can parse, and panics where its `i32` arithmetic
/// overflows (`i32::MIN / -1` included); `tame` (see `template`) admits only
/// strings that parse item by item and, where they hold `+ - * / m`, whose
/// values stay within `[-i32::MAX, i32::MAX]` by a bound grown from the
/// parameters and the numbers of the string, or, where they hold none of
/// these, whose `%i` meets first parameters below `i32::MAX`. Outputs are not
/// bounded: a large print width makes terminfo write that many bytes.
#[verifier::external_body]
fn expand_template(template: &[u8], params: &[i32], output: &mut Vec<u8>) -> (r: Result<(), terminfo::Error>)
    requires
        tame(template@, params@),
    ensures
        final(output)@ == old(output)@ + expansion(template@, params@).0,
        r is Ok <==> expansion(template@, params@).1,
        !template@.contains(37u8) ==> r is Ok && final(output)@ == old(output)@ + template@,
{
    let parameters: Vec<terminfo::Parameter> =
        params.iter().map(|&p| terminfo::Parameter::Number(p)).collect();
    template.expand(output, &parameters, &mut Default::default())
}

/// The bytes written by an operation and how it ended.
pub type Emission = (Seq<u8>, Result<(), TermError>);

/// An operation that wrote `bytes` and succeeded.
pub open spec fn emitted(bytes: Seq<u8>) -> Emission {
    (bytes, Ok(()))
}

/// An operation that wrote nothing and failed with `e`.
pub open spec fn refused(e: TermError) -> Emission {
    (Seq::empty(), Err(e))
}

/// `a`, then `b` when `a` succeeded.
pub open spec fn then(a: Emission, b: Emission) -> Emission {
    if a.1 is Ok {
        (a.0 + b.0, b.1)
    } else {
        a
    }
}

/// `a`, then `b` when `a` failed.
pub open spec fn or_else(a: Emission, b: Emission) -> Emission {
    if a.1 is Ok {
        a
    } else {
        (a.0 + b.0, b.1)
    }
}

/// Expanding capability `cap` with `params`: refused where the description
/// lacks it, or where its string is not accepted for expansion.
pub open spec fn expand_cap(info: &Capabilities, cap: Capability, params: Seq<i32>) -> Emission {
    match info.string(cap) {
        None => refused(TermError::NotSupported),
        Some(t) => if !tame(t, params) {
            refused(TermError::Refused)
        } else {
            (expansion(t, params).0, if expansion(t, params).1 {
                Ok(())
            } else {
                Err(TermError::Expand)
            })
        },
    }
}

/// What expanding capability `cap` with `params` gives, told from the
/// description, the acceptance check and terminfo's expansion alone: nothing
/// and `NotSupported` where the description lacks `cap`, nothing and
/// `Refused` where its string is not accepted, else what terminfo writes and
/// `Ok`, or `Expand` where terminfo fails.
pub open spec fn capability_expansion(info: &Capabilities, cap: Capability, params: Seq<i32>) -> Emission {
    if info.string(cap) is None {
        (Seq::empty(), Err(TermError::NotSupported))
    } else if !tame(info.string(cap).unwrap(), params) {
        (Seq::empty(), Err(TermError::Refused))
    } else if expansion(info.string(cap).unwrap(), params).1 {
        (expansion(info.string(cap).unwrap(), params).0, Ok(()))
    } else {
        (expansion(info.string(cap).unwrap(), params).0, Err(TermError::Expand))
    }
}

/// `e`, `n` times over, stopping at the first failure; told without `then`.
pub open spec fn times(e: Emission, n: nat) -> Emission
    decreases n,
{
    if n == 0 {
        (Seq::empty(), Ok(()))
    } else {
        let before = times(e, (n - 1) as nat);
        if before.1 is Ok {
            (before.0 + e.0, e.1)
        } else {
            before
        }
    }
}

/// Expanding a capability is what the description says it is.
pub proof fn lemma_expand_cap(info: &Capabilities, cap: Capability, params: Seq<i32>)
    ensures
        expand_cap(info, cap, params) == capability_expansion(info, cap, params),
{
}

/// Repeating an emission is doing it `n` times over.
pub proof fn lemma_repeat_times(e: Emission, n: nat)
    ensures
        repeat(e, n) == times(e, n),
    decreases n,
{
    if n > 0 {
        lemma_repeat_times(e, (n - 1) as nat);
    }
}

/// Expanding `cap` where the description has it, `fallback` where it lacks it.
pub open spec fn expand_or(
    info: &Capabilities,
    cap: Capability,
    params: Seq<i32>,
    fallback: Emission,
) -> Emission {
    if info.string(cap) is Some {
        expand_cap(info, cap, params)
    } else {
        fallback
    }
}

/// Appends the expansion of capability `cap` with `params` to `output`.
pub fn expand_into(info: &Capabilities, output: &mut Vec<u8>, cap: Capability, params: &[i32]) -> (r:
    Result<(), TermError>)
    ensures
        final(output)@ == old(output)@ + expand_cap(info, cap, params@).0,
        r == expand_cap(info, cap, params@).1,
{
    match info.get(cap) {
        None => {
            assert(old(output)@ + Seq::<u8>::empty() =~= old(output)@);
            Err(TermError::NotSupported)
        },
        Some(template) => {
            if !tame_template(template.as_slice(), params) {
                assert(old(output)@ + Seq::<u8>::empty() =~= old(output)@);
                return Err(TermError::Refused);
            }
            match expand_template(template.as_slice(), params, output) {
                Ok(()) => Ok(()),
                Err(_) => Err(TermError::Expand),
            }
        },
    }
}

/// Appends `bytes` to `output`.
pub fn write_bytes(output: &mut Vec<u8>, bytes: &[u8])
    ensures
        final(output)@ == old(output)@ + bytes@,
{
    let mut i: usize = 0;
    while i < bytes.len()
        invariant
            i <= bytes@.len(),
            output@ == old(output)@ + bytes@.take(i as int),
        decreases bytes@.len() - i,
    {
        assert(bytes@.take(i + 1) =~= bytes@.take(i as int).push(bytes@[i as int]));
        output.push(bytes[i]);
        i = i + 1;
    }
    assert(bytes@.take(i as int) =~= bytes@);
}

/// The decimal digits of `n`, most significant first, without leading zeros.
pub open spec fn decimal(n: nat) -> Seq<u8>
    decreases n,
{
    if n < 10 {
        seq![(48 + n) as u8]
    } else {
        decimal(n / 10) + seq![(48 + n % 10) as u8]
    }
}

/// Appends the decimal digits of `n` to `output`.
pub fn write_decimal(output: &mut Vec<u8>, n: u8)
    ensures
        final(output)@ == old(output)@ + decimal(n as nat),
{
    if n >= 100 {
        output.push(48 + n / 100);
        output.push(48 + (n / 10) % 10);
        output.push(48 + n % 10);
        assert(decimal(n as nat) =~= seq![(48 + n / 100) as u8, (48 + (n / 10) % 10) as u8, (48 + n % 10) as u8]) by {
            assert(decimal((n / 10) as nat) == decimal(((n / 10) / 10) as nat) + seq![(48 + (n / 10) % 10) as u8]);
        }
    } else if n >= 10 {
        output.push(48 + n / 10);
        output.push(48 + n % 10);
        assert(decimal(n as nat) =~= seq![(48 + n / 10) as u8, (48 + n % 10) as u8]) by {
            assert(decimal((n / 10) as nat) == seq![(48 + n / 10) as u8]);
        }
    } else {
        output.push(48 + n);
        assert(decimal(n as nat) =~= seq![(48 + n) as u8]);
    }
}

/// Appends the expansion of capability `cap`, without parameters, to `output`.
pub fn expand_plain(info: &Capabilities, output: &mut Vec<u8>, cap: Capability) -> (r: Result<(), TermError>)
    ensures
        final(output)@ == old(output)@ + expand_cap(info, cap, Seq::empty()).0,
        r == expand_cap(info, cap, Seq::empty()).1,
{
    let params: Vec<i32> = Vec::new();
    assert(params@ =~= Seq::<i32>::empty());
    expand_into(info, output, cap, params.as_slice())
}

/// `e` repeated `n` times, stopping at the first failure.
pub open spec fn repeat(e: Emission, n: nat) -> Emission
    decreases n,
{
    if n == 0 {
        emitted(Seq::empty())
    } else {
        then(repeat(e, (n - 1) as nat), e)
    }
}

/// Once a repetition has failed, more repetitions change nothing.
pub proof fn lemma_repeat_failed(e: Emission, m: nat, n: nat)
    requires
        m <= n,
        repeat(e, m).1 is Err,
    ensures
        repeat(e, n) == repeat(e, m),
    decreases n - m,
{
    if n > m {
        lemma_repeat_failed(e, m, (n - 1) as nat);
    }
}

} // verus!
