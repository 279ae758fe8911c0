//! Keys, their modifiers, and the table that decodes byte sequences into keys.
use vstd::prelude::*;
use vstd::utf8::*;

use crate::bindings::{binding_views, default_bindings, default_table, lemma_defaults_nonempty};
use crate::info::{Capabilities, Capability};

verus! {

/// A set of key modifiers, kept as bits: Alt is bit 0, Control bit 1, Logo
/// bit 2 and Shift bit 3.
#[derive(Clone, Copy, Debug, PartialEq, Eq, Structural)]
pub struct Modifier {
    pub bits: u8,
}

impl Modifier {
    /// No modifier.
    pub fn none() -> (r: Modifier)
        ensures
            r.bits == 0,
    {
        Modifier { bits: 0 }
    }

    /// The Alt (Meta) modifier.
    pub fn alt() -> (r: Modifier)
        ensures
            r.bits == 1,
    {
        Modifier { bits: 1 }
    }

    /// The Control modifier.
    pub fn ctrl() -> (r: Modifier)
        ensures
            r.bits == 2,
    {
        Modifier { bits: 2 }
    }

    /// The Logo (Super) modifier.
    pub fn logo() -> (r: Modifier)
        ensures
            r.bits == 4,
    {
        Modifier { bits: 4 }
    }

    /// The Shift modifier.
    pub fn shift() -> (r: Modifier)
        ensures
            r.bits == 8,
    {
        Modifier { bits: 8 }
    }

    /// The modifier set without any modifier.
    pub fn empty() -> (r: Modifier)
        ensures
            r.bits == 0,
    {
        Modifier { bits: 0 }
    }

    /// The modifier set with every modifier.
    pub fn all() -> (r: Modifier)
        ensures
            r.bits == 15,
    {
        Modifier { bits: 15 }
    }

    /// The set with exactly `bits`, `None` where `bits` holds a bit that
    /// stands for no modifier.
    pub fn from_bits(bits: u8) -> (r: Option<Modifier>)
        ensures
            match r {
                Some(m) => bits & 0xf0 == 0 && m.bits == bits,
                None => bits & 0xf0 != 0,
            },
    {
        if bits & 0xf0 == 0 {
            Some(Modifier { bits })
        } else {
            None
        }
    }

    /// The set of the modifiers among `bits`, the other bits dropped.
    pub fn from_bits_truncate(bits: u8) -> (r: Modifier)
        ensures
            r.bits == bits & 15,
    {
        Modifier { bits: bits & 15 }
    }

    /// Whether the set is empty.
    pub fn is_empty(&self) -> (r: bool)
        ensures
            r == (self.bits == 0),
    {
        self.bits == 0
    }

    /// Whether every modifier of `other` is in the set.
    pub fn contains(&self, other: Modifier) -> (r: bool)
        ensures
            r == (self.bits & other.bits == other.bits),
    {
        self.bits & other.bits == other.bits
    }

    /// The union of two sets.
    pub fn union(self, other: Modifier) -> (r: Modifier)
        ensures
            r.bits == self.bits | other.bits,
    {
        Modifier { bits: self.bits | other.bits }
    }

    /// Adds the modifiers of `other` to the set.
    pub fn insert(&mut self, other: Modifier)
        ensures
            final(self).bits == old(self).bits | other.bits,
    {
        self.bits = self.bits | other.bits;
    }

    /// Removes the modifiers of `other` from the set.
    pub fn remove(&mut self, other: Modifier)
        ensures
            final(self).bits == old(self).bits & !other.bits,
    {
        self.bits = self.bits & !other.bits;
    }
}

/// A set holds every modifier inserted into it and none removed from it,
/// and a union does not depend on the order of its operands.
pub proof fn lemma_modifier_sets(m: Modifier, other: Modifier)
    ensures
        (m.bits | other.bits) & other.bits == other.bits,
        (m.bits & !other.bits) & other.bits == 0,
        m.bits | other.bits == other.bits | m.bits,
{
    let (a, b) = (m.bits, other.bits);
    assert((a | b) & b == b) by (bit_vector);
    assert((a & !b) & b == 0) by (bit_vector);
    assert(a | b == b | a) by (bit_vector);
}

impl Default for Modifier {
    fn default() -> (r: Modifier)
        ensures
            r.bits == 0,
    {
        Modifier::empty()
    }
}

/// The key a byte sequence stands for.
#[derive(Clone, Copy, Debug, PartialEq, Eq, Structural)]
pub enum Value {
    Escape,
    Enter,
    Down,
    Up,
    Left,
    Right,
    PageUp,
    PageDown,
    BackSpace,
    BackTab,
    Tab,
    Delete,
    Insert,
    Home,
    End,
    Begin,
    F(u8),
    Char(char),
}

/// A key with its modifiers.
#[derive(Clone, Copy, Debug, PartialEq, Eq, Structural)]
pub struct Key {
    pub modifier: Modifier,
    pub value: Value,
}

/// The table a list of bindings stands for: each sequence maps to the key
/// bound to it.
pub open spec fn table_of(b: Seq<(Vec<u8>, Key)>) -> Map<Seq<u8>, Key> {
    Map::new(
        |s: Seq<u8>| exists|i: int| 0 <= i < b.len() && b[i].0@ == s,
        |s: Seq<u8>| b[choose|i: int| 0 <= i < b.len() && b[i].0@ == s].1,
    )
}

/// No sequence is bound twice.
pub open spec fn distinct(b: Seq<(Vec<u8>, Key)>) -> bool {
    forall|i: int, j: int| 0 <= i < b.len() && 0 <= j < b.len() && i != j ==> b[i].0@ != b[j].0@
}

proof fn lemma_table_entry(b: Seq<(Vec<u8>, Key)>, i: int)
    requires
        distinct(b),
        0 <= i < b.len(),
    ensures
        table_of(b).contains_key(b[i].0@),
        table_of(b)[b[i].0@] == b[i].1,
{
    let s = b[i].0@;
    assert(exists|k: int| 0 <= k < b.len() && b[k].0@ == s);
    let j = choose|k: int| 0 <= k < b.len() && b[k].0@ == s;
    assert(j == i);
}

/// Whether `n` bytes of `input` form a sequence bound in `table`.
pub open spec fn matches_at(table: Map<Seq<u8>, Key>, input: Seq<u8>, n: int) -> bool {
    0 <= n <= input.len() && table.contains_key(input.take(n))
}

/// The length of the longest sequence of `table` that starts `input` and
/// is at most `n` bytes long.
pub open spec fn longest_up_to(table: Map<Seq<u8>, Key>, input: Seq<u8>, n: int) -> Option<int>
    decreases n + 1,
{
    if n < 0 {
        None
    } else if matches_at(table, input, n) {
        Some(n)
    } else {
        longest_up_to(table, input, n - 1)
    }
}

/// The length of the longest sequence of `table` that starts `input`.
pub open spec fn longest_match(table: Map<Seq<u8>, Key>, input: Seq<u8>) -> Option<int> {
    longest_up_to(table, input, input.len() as int)
}

/// Where `k` bytes of `input` match and no longer part up to `n` bytes
/// does, `k` is the longest match up to `n`.
pub proof fn lemma_longest_up_to(table: Map<Seq<u8>, Key>, input: Seq<u8>, n: int, k: int)
    requires
        k <= n,
        matches_at(table, input, k),
        forall|m: int| k < m <= n ==> !matches_at(table, input, m),
    ensures
        longest_up_to(table, input, n) == Some(k),
    decreases n + 1,
{
    if n > k {
        lemma_longest_up_to(table, input, n - 1, k);
    }
}

/// Where `k` bytes of `input` match, some match up to any `n` from `k` on.
proof fn lemma_some_match(table: Map<Seq<u8>, Key>, input: Seq<u8>, n: int, k: int)
    requires
        k <= n,
        matches_at(table, input, k),
    ensures
        longest_up_to(table, input, n) is Some,
    decreases n + 1,
{
    if n > k && !matches_at(table, input, n) {
        lemma_some_match(table, input, n - 1, k);
    }
}

/// Where no part up to `n` bytes of `input` matches, nothing matches up to `n`.
pub proof fn lemma_no_match_up_to(table: Map<Seq<u8>, Key>, input: Seq<u8>, n: int)
    requires
        forall|m: int| 0 <= m <= n ==> !matches_at(table, input, m),
    ensures
        longest_up_to(table, input, n) is None,
    decreases n + 1,
{
    if n >= 0 {
        lemma_no_match_up_to(table, input, n - 1);
    }
}

/// A match up to `n` bytes is one, of at most `n` bytes.
pub proof fn lemma_longest_bounds(table: Map<Seq<u8>, Key>, input: Seq<u8>, n: int)
    ensures
        longest_up_to(table, input, n) matches Some(k) ==> k <= n && matches_at(table, input, k),
    decreases n + 1,
{
    if n >= 0 && !matches_at(table, input, n) {
        lemma_longest_bounds(table, input, n - 1);
    }
}

/// A sequence, once bound to a key, decodes as a whole to that key: the
/// table `Keys::bind` leaves decodes the sequence in one step.
pub proof fn lemma_bound_sequence_decodes(table: Map<Seq<u8>, Key>, s: Seq<u8>, k: Key)
    requires
        s.len() > 0,
    ensures
        decode(table.insert(s, k), s) == Some((s.len() as int, Some(k))),
{
    reveal(decode);
    let t = table.insert(s, k);
    assert(s.take(s.len() as int) =~= s);
    assert(matches_at(t, s, s.len() as int));
}

/// Once a sequence is unbound, no match of its full length remains: the
/// table `Keys::unbind` leaves decodes the sequence by shorter matches only.
pub proof fn lemma_unbound_sequence_not_matched(table: Map<Seq<u8>, Key>, s: Seq<u8>)
    ensures
        longest_match(table.remove(s), s) matches Some(n) ==> n < s.len(),
{
    let t = table.remove(s);
    lemma_longest_bounds(t, s, s.len() as int);
    assert(s.take(s.len() as int) =~= s);
}

/// An escape before bytes adds Alt to the key those bytes decode to, one
/// more byte consumed, whatever the key and however many bytes its
/// character's encoding takes: where no bound sequence starts either input
/// and the bytes do not start with an escape themselves, decoding
/// `ESC` + `s` gives what decoding `s` gives with the Alt bit added.
pub proof fn lemma_alt_prefix(table: Map<Seq<u8>, Key>, s: Seq<u8>)
    requires
        s.len() > 0,
        s[0] != 0x1Bu8,
        longest_match(table, s) is None,
        longest_match(table, seq![0x1Bu8] + s) is None,
    ensures
        decode(table, seq![0x1Bu8] + s) == match decode(table, s) {
            Some((n, Some(k))) => Some((n + 1, Some(Key { modifier: Modifier { bits: k.modifier.bits | 1u8 }, value: k.value }))),
            Some((n, None)) => Some((n + 1, None::<Key>)),
            None => None,
        },
{
    reveal(decode);
    let e = seq![0x1Bu8] + s;
    assert(e.skip(1) =~= s);
    assert(e[0] == 0x1Bu8);
    assert(!(e =~= seq![0x1Bu8])) by {
        if e =~= seq![0x1Bu8] {
            assert(e.len() == 1);
        }
    }
    assert(!(s =~= seq![0x1Bu8])) by {
        if s =~= seq![0x1Bu8] {
            assert(s[0] == 0x1Bu8);
        }
    }
    assert((0u8 | 2u8) | 1u8 == 1u8 | 2u8) by (bit_vector);
    assert(0u8 | 1u8 == 1u8) by (bit_vector);
}

/// The longest bound sequence that starts the input wins: where `n` bytes
/// of the input are bound and no longer start of it is, decoding consumes
/// those `n` bytes and gives the key they are bound to.
pub proof fn lemma_longest_wins(table: Map<Seq<u8>, Key>, input: Seq<u8>, n: int)
    requires
        0 <= n <= input.len(),
        table.contains_key(input.take(n)),
        forall|m: int| n < m <= input.len() ==> !table.contains_key(#[trigger] input.take(m)),
    ensures
        decode(table, input) == Some((n, Some(table[input.take(n)]))),
{
    reveal(decode);
    lemma_longest_up_to(table, input, input.len() as int, n);
}

/// Input that no bound sequence starts decodes byte by byte: a lone escape
/// is Escape; a byte without the character bits (`0x60`) is Control and the
/// character with bit `0x40` added.
pub proof fn lemma_unbound_bytes(table: Map<Seq<u8>, Key>, b: u8, rest: Seq<u8>)
    requires
        longest_match(table, seq![b] + rest) is None,
    ensures
        b == 0x1Bu8 && rest.len() == 0 ==> decode(table, seq![b] + rest) == Some((1int, Some(Key { modifier: Modifier { bits: 0 }, value: Value::Escape }))),
        b != 0x1Bu8 && b & 0x60u8 == 0 ==> decode(table, seq![b] + rest) == Some((1int, Some(Key { modifier: Modifier { bits: 2 }, value: Value::Char((b | 0x40u8) as char) }))),
{
    reveal(decode);
    let input = seq![b] + rest;
    assert(input[0] == b);
    if b == 0x1Bu8 && rest.len() == 0 {
        assert(input =~= seq![0x1Bu8]);
    }
    if b != 0x1Bu8 {
        assert(!(input =~= seq![0x1Bu8])) by {
            if input =~= seq![0x1Bu8] {
                assert(input[0] == 0x1Bu8);
            }
        }
        assert(0u8 | 2u8 == 2u8) by (bit_vector);
        assert(input.skip(1) =~= rest);
    }
}

/// A decoding never consumes more than the input holds.
pub proof fn lemma_decode_within(table: Map<Seq<u8>, Key>, input: Seq<u8>)
    requires
        decode(table, input) is Some,
    ensures
        0 <= decode(table, input).unwrap().0 <= input.len(),
{
    reveal(decode);
    lemma_longest_bounds(table, input, input.len() as int);
}

/// Where no empty sequence is bound, every decoding consumes at least one
/// byte, and never more than the input holds.
pub proof fn lemma_decode_progress(table: Map<Seq<u8>, Key>, input: Seq<u8>)
    requires
        !table.contains_key(Seq::empty()),
        decode(table, input) is Some,
    ensures
        0 < decode(table, input).unwrap().0 <= input.len(),
{
    reveal(decode);
    lemma_longest_bounds(table, input, input.len() as int);
    if let Some(n) = longest_match(table, input) {
        if n == 0 {
            assert(input.take(0) =~= Seq::<u8>::empty());
        }
    }
}

/// The number of bytes of the UTF-8 sequence that a leading byte `b` opens,
/// 0 for a byte that opens none.
pub open spec fn utf8_width(b: u8) -> int {
    if b < 0x80 {
        1
    } else if b < 0xC2 {
        0
    } else if b < 0xE0 {
        2
    } else if b < 0xF0 {
        3
    } else if b < 0xF5 {
        4
    } else {
        0
    }
}

/// How `input` decodes when no bound sequence starts it: the number of bytes
/// consumed and the key, `None` where decoding would index past the input.
pub open spec fn decode_unbound(input: Seq<u8>) -> Option<(int, Option<Key>)> {
    if input =~= seq![0x1Bu8] {
        Some((1, Some(Key { modifier: Modifier { bits: 0 }, value: Value::Escape })))
    } else if input.len() == 0 {
        None
    } else {
        let alt = input[0] == 0x1B;
        let rest = if alt {
            input.skip(1)
        } else {
            input
        };
        let skipped: int = if alt {
            1
        } else {
            0
        };
        let mods = Modifier { bits: if alt { 1u8 } else { 0u8 } };
        if rest[0] & 0x60 == 0 {
            Some(
                (
                    skipped + 1,
                    Some(
                        Key {
                            modifier: Modifier { bits: mods.bits | 2u8 },
                            value: Value::Char((rest[0] | 0x40) as char),
                        },
                    ),
                ),
            )
        } else if utf8_width(rest[0]) > rest.len() {
            None
        } else if utf8_width(rest[0]) == rest.len() && valid_utf8(rest) {
            Some((skipped + rest.len(), Some(Key { modifier: mods, value: Value::Char(decode_utf8(rest)[0]) })))
        } else {
            Some((skipped + 1, None))
        }
    }
}

/// How `input` decodes against `table`: the number of bytes consumed and the
/// key, if any; `None` where decoding would index past the input.
#[verifier::opaque]
pub open spec fn decode(table: Map<Seq<u8>, Key>, input: Seq<u8>) -> Option<(int, Option<Key>)> {
    match longest_match(table, input) {
        Some(n) => Some((n, Some(table[input.take(n)]))),
        None => decode_unbound(input),
    }
}

/// `table` with the bindings of `s` added in order, each only where its
/// sequence is not bound yet: where a sequence occurs twice, the first wins.
pub open spec fn add_absent(table: Map<Seq<u8>, Key>, s: Seq<(Seq<u8>, Key)>) -> Map<Seq<u8>, Key>
    decreases s.len(),
{
    if s.len() == 0 {
        table
    } else {
        let t = add_absent(table, s.drop_last());
        if t.contains_key(s.last().0) {
            t
        } else {
            t.insert(s.last().0, s.last().1)
        }
    }
}

/// Adding bindings of sequences that hold a byte leaves the empty sequence
/// unbound where it was.
proof fn lemma_add_absent_no_empty(table: Map<Seq<u8>, Key>, s: Seq<(Seq<u8>, Key)>)
    requires
        !table.contains_key(Seq::empty()),
        forall|i: int| 0 <= i < s.len() ==> #[trigger] s[i].0.len() > 0,
    ensures
        !add_absent(table, s).contains_key(Seq::empty()),
    decreases s.len(),
{
    if s.len() > 0 {
        assert forall|i: int| 0 <= i < s.drop_last().len() implies #[trigger] s.drop_last()[i].0.len() > 0 by {
            assert(s.drop_last()[i] == s[i]);
        }
        lemma_add_absent_no_empty(table, s.drop_last());
        assert(s.last().0.len() > 0);
        assert(s.last().0 != Seq::<u8>::empty());
    }
}

/// The bindings a description gives hold a byte each where its key strings do.
proof fn lemma_described_nonempty(info: &Capabilities, caps: Seq<(Capability, Value)>)
    requires
        forall|i: int| 0 <= i < caps.len() ==> (#[trigger] info.string(caps[i].0) matches Some(v) ==> v.len() > 0),
    ensures
        forall|i: int| 0 <= i < terminfo_bindings(info, caps).len() ==> #[trigger] terminfo_bindings(info, caps)[i].0.len() > 0,
    decreases caps.len(),
{
    if caps.len() > 0 {
        let rest = caps.drop_last();
        assert forall|i: int| 0 <= i < rest.len() implies (#[trigger] info.string(rest[i].0) matches Some(v) ==> v.len() > 0) by {
            assert(rest[i] == caps[i]);
        }
        lemma_described_nonempty(info, rest);
        assert(info.string(caps[caps.len() - 1].0) matches Some(v) ==> v.len() > 0);
        let prev = terminfo_bindings(info, rest);
        let all = terminfo_bindings(info, caps);
        assert forall|i: int| 0 <= i < all.len() implies #[trigger] all[i].0.len() > 0 by {
            if i < prev.len() {
                assert(all[i] == prev[i]);
            }
        }
    }
}

/// Where no key string of the description is empty, the table `Keys::new`
/// builds leaves the empty sequence unbound, so that decoding with it
/// always consumes a byte.
pub proof fn lemma_new_binds_no_empty(info: &Capabilities)
    requires
        forall|i: int| 0 <= i < terminfo_keys().len() ==> (#[trigger] info.string(terminfo_keys()[i].0) matches Some(v) ==> v.len() > 0),
    ensures
        !initial_table(info).contains_key(Seq::empty()),
{
    lemma_described_nonempty(info, terminfo_keys());
    lemma_defaults_nonempty();
    let all = terminfo_bindings(info, terminfo_keys()) + default_bindings();
    assert forall|i: int| 0 <= i < all.len() implies #[trigger] all[i].0.len() > 0 by {
        if i < terminfo_bindings(info, terminfo_keys()).len() {
            assert(all[i] == terminfo_bindings(info, terminfo_keys())[i]);
        } else {
            assert(all[i] == default_bindings()[i - terminfo_bindings(info, terminfo_keys()).len()]);
        }
    }
    lemma_add_absent_no_empty(Map::empty(), all);
}

/// Binding and unbinding keep the empty sequence unbound: `Keys::bind`
/// ignores the empty sequence and `Keys::unbind` only removes.
pub proof fn lemma_bind_unbind_keep_empty_unbound(table: Map<Seq<u8>, Key>, value: Seq<u8>, key: Key)
    requires
        !table.contains_key(Seq::empty()),
    ensures
        !(if value.len() == 0 { table } else { table.insert(value, key) }).contains_key(Seq::empty()),
        !table.remove(value).contains_key(Seq::empty()),
{
    if value.len() > 0 {
        assert(value != Seq::<u8>::empty());
    }
}

/// The key capabilities of a terminal description and the keys they stand
/// for, in the order they are bound.
pub open spec fn terminfo_keys() -> Seq<(Capability, Value)> {
    seq![
        (Capability::KeyEnter, Value::Enter),
        (Capability::CarriageReturn, Value::Enter),
        (Capability::KeyDown, Value::Down),
        (Capability::KeyUp, Value::Up),
        (Capability::KeyLeft, Value::Left),
        (Capability::KeyRight, Value::Right),
        (Capability::KeyNpage, Value::PageDown),
        (Capability::KeyPpage, Value::PageUp),
        (Capability::KeyBackspace, Value::BackSpace),
        (Capability::KeyBtab, Value::BackTab),
        (Capability::Tab, Value::Tab),
    ] + Seq::new(63, |i: int| (Capability::KeyF((i + 1) as u8), Value::F((i + 1) as u8)))
}

/// The bindings that the description `info` gives the capabilities of
/// `caps`: the sequence of each capability it has, bound without modifier.
pub open spec fn terminfo_bindings(info: &Capabilities, caps: Seq<(Capability, Value)>) -> Seq<(Seq<u8>, Key)>
    decreases caps.len(),
{
    if caps.len() == 0 {
        Seq::empty()
    } else {
        let prev = terminfo_bindings(info, caps.drop_last());
        match info.string(caps.last().0) {
            Some(s) => prev.push((s, Key { modifier: Modifier { bits: 0 }, value: caps.last().1 })),
            None => prev,
        }
    }
}

/// The table `Keys::new` builds from the description `info`.
pub open spec fn initial_table(info: &Capabilities) -> Map<Seq<u8>, Key> {
    add_absent(Map::empty(), terminfo_bindings(info, terminfo_keys()) + default_bindings())
}

/// The key capabilities of a terminal description and their keys.
fn terminfo_key_table() -> (r: Vec<(Capability, Value)>)
    ensures
        r@ == terminfo_keys(),
{
    let mut r: Vec<(Capability, Value)> = Vec::new();
    r.push((Capability::KeyEnter, Value::Enter));
    r.push((Capability::CarriageReturn, Value::Enter));
    r.push((Capability::KeyDown, Value::Down));
    r.push((Capability::KeyUp, Value::Up));
    r.push((Capability::KeyLeft, Value::Left));
    r.push((Capability::KeyRight, Value::Right));
    r.push((Capability::KeyNpage, Value::PageDown));
    r.push((Capability::KeyPpage, Value::PageUp));
    r.push((Capability::KeyBackspace, Value::BackSpace));
    r.push((Capability::KeyBtab, Value::BackTab));
    r.push((Capability::Tab, Value::Tab));
    let ghost named = r@;
    assert(named =~= terminfo_keys().take(11));
    let mut n: u8 = 1;
    while n <= 63
        invariant
            1 <= n <= 64,
            r@ == named + Seq::new((n - 1) as nat, |i: int| (Capability::KeyF((i + 1) as u8), Value::F((i + 1) as u8))),
        decreases 64 - n,
    {
        r.push((Capability::KeyF(n), Value::F(n)));
        assert(r@ =~= named + Seq::new(n as nat, |i: int| (Capability::KeyF((i + 1) as u8), Value::F((i + 1) as u8))));
        n = n + 1;
    }
    assert(r@ =~= terminfo_keys());
    r
}

/// The table of byte sequences that terminal input is decoded with.
///
/// The bindings are kept as a vector of pairs in which no sequence occurs
/// twice (`wf`), viewed as a map from sequences to keys. A map keyed by byte
/// vectors, as a hash map or a map of hash maps filed by length would be,
/// has no specification in vstd that lookups can be proved against: vstd's
/// hash map specifications hold only for keys its hashing model covers
/// (integers and `bool`; byte vectors only under an assumption this crate
/// does not make) and say little for a custom hasher such as FNV. So the
/// vector stands in for the map; `find` scans it for the longest
/// bound sequence that starts the input.
pub struct Keys {
    bindings: Vec<(Vec<u8>, Key)>,
}

impl View for Keys {
    type V = Map<Seq<u8>, Key>;

    closed spec fn view(&self) -> Map<Seq<u8>, Key> {
        table_of(self.bindings@)
    }
}

/// Whether `a` and `b` hold the same bytes.
fn same_bytes(a: &[u8], b: &[u8]) -> (r: bool)
    ensures
        r == (a@ == b@),
{
    if a.len() != b.len() {
        return false;
    }
    let mut i: usize = 0;
    while i < a.len()
        invariant
            a@.len() == b@.len(),
            i <= a@.len(),
            forall|k: int| 0 <= k < i ==> a@[k] == b@[k],
        decreases a@.len() - i,
    {
        if a[i] != b[i] {
            return false;
        }
        i = i + 1;
    }
    assert(a@ =~= b@);
    true
}

/// Whether `prefix` starts `input`.
fn starts_with(input: &[u8], prefix: &[u8]) -> (r: bool)
    ensures
        r == (prefix@.len() <= input@.len() && input@.take(prefix@.len() as int) == prefix@),
{
    if prefix.len() > input.len() {
        return false;
    }
    let mut i: usize = 0;
    while i < prefix.len()
        invariant
            prefix@.len() <= input@.len(),
            i <= prefix@.len(),
            forall|k: int| 0 <= k < i ==> input@[k] == prefix@[k],
        decreases prefix@.len() - i,
    {
        if input[i] != prefix[i] {
            assert(input@.take(prefix@.len() as int)[i as int] != prefix@[i as int]);
            return false;
        }
        i = i + 1;
    }
    assert(input@.take(prefix@.len() as int) =~= prefix@);
    true
}

/// The number of bytes of the UTF-8 sequence that the leading byte `b` opens.
fn char_width(b: u8) -> (r: usize)
    ensures
        r == utf8_width(b),
{
    if b < 0x80 {
        1
    } else if b < 0xC2 {
        0
    } else if b < 0xE0 {
        2
    } else if b < 0xF0 {
        3
    } else if b < 0xF5 {
        4
    } else {
        0
    }
}

/// Reads `bytes` as UTF-8 with `std::str::from_utf8`. As std documents it,
/// the conversion succeeds exactly on valid UTF-8, and the string then holds
/// the characters the bytes encode.
#[verifier::external_body]
fn utf8_str(bytes: &[u8]) -> (r: Option<&str>)
    ensures
        r is Some <==> valid_utf8(bytes@),
        r matches Some(s) ==> s@ == decode_utf8(bytes@),
{
    std::str::from_utf8(bytes).ok()
}

impl Keys {
    /// No sequence is bound twice.
    pub closed spec fn wf(&self) -> bool {
        distinct(self.bindings@)
    }

    /// A table without bindings.
    pub fn empty() -> (r: Keys)
        ensures
            r.wf(),
            r@ == Map::<Seq<u8>, Key>::empty(),
    {
        let r = Keys { bindings: Vec::new() };
        assert(r@ =~= Map::<Seq<u8>, Key>::empty());
        r
    }

    /// The table for a terminal: the key sequences of its description,
    /// then the sequences common terminals send, each bound only where its
    /// sequence is not bound yet.
    pub fn new(info: &Capabilities) -> (r: Keys)
        ensures
            r.wf(),
            r@ == initial_table(info),
    {
        let mut keys = Keys::empty();
        let caps = terminfo_key_table();
        let ghost described = terminfo_bindings(info, caps@);
        let mut i: usize = 0;
        while i < caps.len()
            invariant
                caps@ == terminfo_keys(),
                described == terminfo_bindings(info, caps@),
                i <= caps@.len(),
                keys.wf(),
                keys@ == add_absent(Map::empty(), terminfo_bindings(info, caps@.take(i as int))),
            decreases caps@.len() - i,
        {
            let (cap, value) = caps[i];
            assert(caps@.take(i + 1).drop_last() =~= caps@.take(i as int));
            match info.get(cap) {
                Some(s) => {
                    let ghost before = terminfo_bindings(info, caps@.take(i as int));
                    keys.insert_if_absent(vstd::slice::slice_to_vec(s.as_slice()), Key { modifier: Modifier::empty(), value });
                    assert(before.push((s@, Key { modifier: Modifier { bits: 0 }, value })).drop_last() =~= before);
                },
                None => {},
            }
            i = i + 1;
        }
        assert(caps@.take(caps@.len() as int) =~= caps@);
        let defaults = default_table();
        let mut j: usize = 0;
        assert(described + default_bindings().take(0) =~= described);
        while j < defaults.len()
            invariant
                binding_views(defaults@) == default_bindings(),
                j <= defaults@.len(),
                keys.wf(),
                keys@ == add_absent(Map::empty(), described + default_bindings().take(j as int)),
            decreases defaults@.len() - j,
        {
            let ghost prev = described + default_bindings().take(j as int);
            assert((described + default_bindings().take(j + 1)).drop_last() =~= prev);
            assert(binding_views(defaults@)[j as int] == (defaults@[j as int].0@, defaults@[j as int].1));
            keys.insert_if_absent(vstd::slice::slice_to_vec(defaults[j].0.as_slice()), defaults[j].1);
            j = j + 1;
        }
        assert(default_bindings().take(defaults@.len() as int) =~= default_bindings());
        keys
    }

    /// The index of the binding of `value`, if any.
    fn position(&self, value: &[u8]) -> (r: Option<usize>)
        ensures
            match r {
                Some(i) => i < self.bindings@.len() && self.bindings@[i as int].0@ == value@,
                None => forall|i: int| 0 <= i < self.bindings@.len() ==> self.bindings@[i].0@ != value@,
            },
    {
        let mut i: usize = 0;
        while i < self.bindings.len()
            invariant
                i <= self.bindings@.len(),
                forall|k: int| 0 <= k < i ==> self.bindings@[k].0@ != value@,
            decreases self.bindings@.len() - i,
        {
            if same_bytes(self.bindings[i].0.as_slice(), value) {
                return Some(i);
            }
            i = i + 1;
        }
        None
    }

    /// Whether `value` is bound.
    pub fn contains(&self, value: &[u8]) -> (r: bool)
        requires
            self.wf(),
        ensures
            r == self@.contains_key(value@),
    {
        match self.position(value) {
            Some(i) => {
                proof {
                    lemma_table_entry(self.bindings@, i as int);
                }
                true
            },
            None => false,
        }
    }

    /// Binds `value` to `key` unless `value` is bound already.
    pub fn insert_if_absent(&mut self, value: Vec<u8>, key: Key)
        requires
            old(self).wf(),
        ensures
            final(self).wf(),
            final(self)@ == if old(self)@.contains_key(value@) {
                old(self)@
            } else {
                old(self)@.insert(value@, key)
            },
    {
        match self.position(value.as_slice()) {
            Some(i) => {
                proof {
                    lemma_table_entry(self.bindings@, i as int);
                }
            },
            None => {
                let ghost b = self.bindings@;
                let ghost s = value@;
                assert(!table_of(b).contains_key(s));
                self.bindings.push((value, key));
                let ghost b2 = self.bindings@;
                assert(distinct(b2));
                assert forall|t: Seq<u8>| #[trigger] table_of(b2).contains_key(t) == table_of(b).insert(s, key).contains_key(t) by {
                    if table_of(b).contains_key(t) {
                        let i = choose|i: int| 0 <= i < b.len() && b[i].0@ == t;
                        assert(b2[i].0@ == t);
                    }
                    if t == s {
                        assert(b2[b.len() as int].0@ == t);
                    }
                    if table_of(b2).contains_key(t) {
                        let i = choose|i: int| 0 <= i < b2.len() && b2[i].0@ == t;
                        if i < b.len() {
                            assert(b[i].0@ == t);
                        }
                    }
                }
                assert forall|t: Seq<u8>| #[trigger] table_of(b2).contains_key(t) implies table_of(b2)[t] == table_of(b).insert(s, key)[t] by {
                    let i = choose|i: int| 0 <= i < b2.len() && b2[i].0@ == t;
                    lemma_table_entry(b2, i);
                    if i < b.len() {
                        assert(b[i] == b2[i]);
                        lemma_table_entry(b, i);
                    }
                }
                assert(table_of(b2) =~= table_of(b).insert(s, key));
            },
        }
    }

    /// Binds the sequence `value` to `key`, in place of what it was bound
    /// to; an empty sequence is not bound.
    pub fn bind(&mut self, value: Vec<u8>, key: Key)
        requires
            old(self).wf(),
        ensures
            final(self).wf(),
            final(self)@ == if value@.len() == 0 {
                old(self)@
            } else {
                old(self)@.insert(value@, key)
            },
    {
        if value.len() == 0 {
            return;
        }
        match self.position(value.as_slice()) {
            None => {
                self.insert_if_absent(value, key);
            },
            Some(i) => {
                let ghost b = self.bindings@;
                let ghost s = value@;
                self.bindings.set(i, (value, key));
                let ghost b2 = self.bindings@;
                assert(b2 == b.update(i as int, b2[i as int]));
                assert(distinct(b2)) by {
                    assert forall|p: int, q: int| 0 <= p < b2.len() && 0 <= q < b2.len() && p != q implies b2[p].0@ != b2[q].0@ by {
                        if p == i {
                            assert(b[p].0@ == s);
                        } else if q == i {
                            assert(b[q].0@ == s);
                        }
                    }
                }
                assert forall|t: Seq<u8>| #[trigger] table_of(b2).contains_key(t) == table_of(b).insert(s, key).contains_key(t) by {
                    if table_of(b).contains_key(t) {
                        let k = choose|k: int| 0 <= k < b.len() && b[k].0@ == t;
                        assert(b2[k].0@ == t);
                    }
                    if t == s {
                        assert(b2[i as int].0@ == t);
                    }
                    if table_of(b2).contains_key(t) {
                        let k = choose|k: int| 0 <= k < b2.len() && b2[k].0@ == t;
                        assert(b[k].0@ == t);
                    }
                }
                assert forall|t: Seq<u8>| #[trigger] table_of(b2).contains_key(t) implies table_of(b2)[t] == table_of(b).insert(s, key)[t] by {
                    let k = choose|k: int| 0 <= k < b2.len() && b2[k].0@ == t;
                    lemma_table_entry(b2, k);
                    if k != i {
                        lemma_table_entry(b, k);
                    }
                }
                assert(table_of(b2) =~= table_of(b).insert(s, key));
            },
        }
    }

    /// Removes the binding of the sequence `value`.
    pub fn unbind(&mut self, value: &[u8])
        requires
            old(self).wf(),
        ensures
            final(self).wf(),
            final(self)@ == old(self)@.remove(value@),
    {
        match self.position(value) {
            None => {
                assert(self@ =~= self@.remove(value@));
            },
            Some(i) => {
                let ghost b = self.bindings@;
                let ghost s = value@;
                self.bindings.remove(i);
                let ghost b2 = self.bindings@;
                assert(b2 == b.remove(i as int));
                assert(distinct(b2)) by {
                    assert forall|p: int, q: int| 0 <= p < b2.len() && 0 <= q < b2.len() && p != q implies b2[p].0@ != b2[q].0@ by {
                        let p0 = if p < i { p } else { p + 1 };
                        let q0 = if q < i { q } else { q + 1 };
                        assert(b2[p] == b[p0]);
                        assert(b2[q] == b[q0]);
                    }
                }
                assert forall|t: Seq<u8>| #[trigger] table_of(b2).contains_key(t) == table_of(b).remove(s).contains_key(t) by {
                    if table_of(b2).contains_key(t) {
                        let k = choose|k: int| 0 <= k < b2.len() && b2[k].0@ == t;
                        let k0 = if k < i { k } else { k + 1 };
                        assert(b[k0].0@ == t);
                        assert(k0 != i);
                    }
                    if table_of(b).contains_key(t) && t != s {
                        let k = choose|k: int| 0 <= k < b.len() && b[k].0@ == t;
                        assert(k != i);
                        let k2 = if k < i { k } else { k - 1 };
                        assert(b2[k2].0@ == t);
                    }
                }
                assert forall|t: Seq<u8>| #[trigger] table_of(b2).contains_key(t) implies table_of(b2)[t] == table_of(b).remove(s)[t] by {
                    let k = choose|k: int| 0 <= k < b2.len() && b2[k].0@ == t;
                    lemma_table_entry(b2, k);
                    let k0 = if k < i { k } else { k + 1 };
                    assert(b2[k] == b[k0]);
                    lemma_table_entry(b, k0);
                }
                assert(table_of(b2) =~= table_of(b).remove(s));
            },
        }
    }
    /// Decodes the key that `input` starts with: the rest of the input and
    /// the key, if the bytes consumed form one. A sequence bound in the table
    /// wins, the longest first; then a lone escape; then an Alt prefix
    /// (escape) before a control character or a character encoded in UTF-8.
    /// A character is decoded only where its encoding ends the input: where
    /// more input follows it (as in `ab`), its first byte is skipped without
    /// a key, and a cut-off encoding (fewer bytes than its first byte
    /// announces) is outside what `find` decodes (see `decodes`).
    pub fn find<'a>(&self, input: &'a [u8]) -> (r: (&'a [u8], Option<Key>))
        requires
            self.wf(),
            decode(self@, input@) is Some,
        ensures
            r.0@ == input@.skip(decode(self@, input@).unwrap().0),
            r.1 == decode(self@, input@).unwrap().1,
    {
        reveal(decode);
        let ghost table = self@;
        let ghost b = self.bindings@;
        let mut best: Option<usize> = None;
        let mut i: usize = 0;
        while i < self.bindings.len()
            invariant
                b == self.bindings@,
                i <= b.len(),
                match best {
                    Some(j) => j < i && b[j as int].0@.len() <= input@.len() && input@.take(b[j as int].0@.len() as int) == b[j as int].0@
                        && forall|k: int| 0 <= k < i && b[k].0@.len() <= input@.len() && input@.take(b[k].0@.len() as int) == b[k].0@
                            ==> b[k].0@.len() <= b[j as int].0@.len(),
                    None => forall|k: int| 0 <= k < i ==> !(b[k].0@.len() <= input@.len() && input@.take(b[k].0@.len() as int) == b[k].0@),
                },
            decreases b.len() - i,
        {
            if starts_with(input, self.bindings[i].0.as_slice()) {
                match best {
                    Some(j) => {
                        if self.bindings[i].0.len() > self.bindings[j].0.len() {
                            best = Some(i);
                        }
                    },
                    None => {
                        best = Some(i);
                    },
                }
            }
            i = i + 1;
        }
        match best {
            Some(j) => {
                let n = self.bindings[j].0.len();
                proof {
                    lemma_table_entry(b, j as int);
                    assert(matches_at(table, input@, n as int));
                    assert forall|m: int| n < m <= input@.len() implies !matches_at(table, input@, m) by {
                        if matches_at(table, input@, m) {
                            let k = choose|k: int| 0 <= k < b.len() && b[k].0@ == input@.take(m);
                            assert(b[k].0@.len() == m);
                        }
                    }
                    lemma_longest_up_to(table, input@, input@.len() as int, n as int);
                    assert(longest_match(table, input@) == Some(n as int));
                }
                let rest = vstd::slice::slice_subrange(input, n, input.len());
                (rest, Some(self.bindings[j].1))
            },
            None => {
                proof {
                    assert forall|m: int| !matches_at(table, input@, m) by {
                        if matches_at(table, input@, m) {
                            let k = choose|k: int| 0 <= k < b.len() && b[k].0@ == input@.take(m);
                            assert(b[k].0@.len() == m);
                        }
                    }
                    lemma_no_match_up_to(table, input@, input@.len() as int);
                    assert(longest_match(table, input@) is None);
                }
                Self::find_unbound(input)
            },
        }
    }
    /// Whether `find` can decode the key that `input` starts with: false
    /// where decoding would index past the input, as it would for an empty
    /// input or for the first bytes of a character whose encoding is cut off.
    pub fn decodes(&self, input: &[u8]) -> (r: bool)
        requires
            self.wf(),
        ensures
            r == (decode(self@, input@) is Some),
    {
        reveal(decode);
        let ghost table = self@;
        let ghost b = self.bindings@;
        let mut i: usize = 0;
        while i < self.bindings.len()
            invariant
                b == self.bindings@,
                distinct(b),
                table == table_of(b),
                i <= b.len(),
                forall|k: int| 0 <= k < i ==> !(b[k].0@.len() <= input@.len() && input@.take(b[k].0@.len() as int) == b[k].0@),
            decreases b.len() - i,
        {
            if starts_with(input, self.bindings[i].0.as_slice()) {
                proof {
                    let n = b[i as int].0@.len() as int;
                    lemma_table_entry(b, i as int);
                    assert(matches_at(table, input@, n));
                    lemma_some_match(table, input@, input@.len() as int, n);
                    assert(longest_match(table, input@) is Some);
                    reveal(decode);
                }
                return true;
            }
            i = i + 1;
        }
        proof {
            assert forall|m: int| !matches_at(table, input@, m) by {
                if matches_at(table, input@, m) {
                    let k = choose|k: int| 0 <= k < b.len() && b[k].0@ == input@.take(m);
                    assert(b[k].0@.len() == m);
                }
            }
            lemma_no_match_up_to(table, input@, input@.len() as int);
        }
        if input.len() == 0 {
            return false;
        }
        if input.len() == 1 && input[0] == 0x1B {
            assert(input@ =~= seq![0x1Bu8]);
            return true;
        }
        assert(!(input@ =~= seq![0x1Bu8])) by {
            if input@ =~= seq![0x1Bu8] {
                assert(input@.len() == 1 && input@[0] == 0x1B);
            }
        }
        let rest = if input[0] == 0x1B {
            vstd::slice::slice_subrange(input, 1, input.len())
        } else {
            input
        };
        assert(rest@ =~= (if input@[0] == 0x1B { input@.skip(1) } else { input@ }));
        rest[0] & 0x60 == 0 || char_width(rest[0]) <= rest.len()
    }

    /// Decodes the key that `input` starts with when no bound sequence
    /// starts it.
    fn find_unbound<'a>(input: &'a [u8]) -> (r: (&'a [u8], Option<Key>))
        requires
            decode_unbound(input@) is Some,
        ensures
            r.0@ == input@.skip(decode_unbound(input@).unwrap().0),
            r.1 == decode_unbound(input@).unwrap().1,
    {
        if input.len() == 1 && input[0] == 0x1B {
            assert(input@ =~= seq![0x1Bu8]);
            return (
                vstd::slice::slice_subrange(input, 1, 1),
                Some(Key { modifier: Modifier::empty(), value: Value::Escape }),
            );
        }
        assert(!(input@ =~= seq![0x1Bu8])) by {
            if input@ =~= seq![0x1Bu8] {
                assert(input@.len() == 1 && input@[0] == 0x1B);
            }
        }
        let mut mods = Modifier::empty();
        let mut rest = input;
        let mut skipped: usize = 0;
        if input[0] == 0x1B {
            mods.insert(Modifier::alt());
            assert(0u8 | 1u8 == 1u8) by (bit_vector);
            rest = vstd::slice::slice_subrange(input, 1, input.len());
            skipped = 1;
            assert(rest@ =~= input@.skip(1));
        }
        if rest[0] & 0x60 == 0 {
            let key = Key { modifier: mods.union(Modifier::ctrl()), value: Value::Char((rest[0] | 0x40) as char) };
            let tail = vstd::slice::slice_subrange(rest, 1, rest.len());
            assert(tail@ =~= input@.skip(skipped + 1));
            return (tail, Some(key));
        }
        let length = char_width(rest[0]);
        if length >= rest.len() {
            let head = vstd::slice::slice_subrange(rest, 0, length);
            assert(head@ =~= rest@);
            match utf8_str(head) {
                Some(text) => {
                    let mut chars = text.chars();
                    assert(decode_utf8(rest@).len() > 0);
                    match chars.next() {
                        Some(c) => {
                            let tail = vstd::slice::slice_subrange(rest, length, rest.len());
                            assert(tail@ =~= input@.skip(skipped + length));
                            return (tail, Some(Key { modifier: mods, value: Value::Char(c) }));
                        },
                        None => {
                            assert(false);
                        },
                    }
                },
                None => {},
            }
        }
        let tail = vstd::slice::slice_subrange(rest, 1, rest.len());
        assert(tail@ =~= input@.skip(skipped + 1));
        (tail, None)
    }
}

} // verus!
