//! What the table `Keys::new` builds binds each built-in sequence to.
use vstd::prelude::*;

use crate::bindings::{default_bindings, default_group_0, default_group_1, default_group_2, default_group_3, default_group_4, default_group_5, default_group_6, default_group_7, default_group_8, default_group_9, default_group_10, default_group_11};
use crate::info::{Capabilities, Capability};
use crate::keys::{add_absent, initial_table, terminfo_bindings, terminfo_keys, Key, Modifier, Value};

verus! {

/// The key the first binding of `x` in `s`, from index `i` on, binds it to.
pub open spec fn first_binding(s: Seq<(Seq<u8>, Key)>, x: Seq<u8>, i: int) -> Option<Key>
    decreases s.len() - i,
{
    if i < 0 || i >= s.len() {
        None
    } else if s[i].0 == x {
        Some(s[i].1)
    } else {
        first_binding(s, x, i + 1)
    }
}

/// `a` where it is some key, else `b`.
pub open spec fn either(a: Option<Key>, b: Option<Key>) -> Option<Key> {
    if a is Some { a } else { b }
}

proof fn lemma_first_binding_snoc(s: Seq<(Seq<u8>, Key)>, x: Seq<u8>, i: int)
    requires
        0 <= i < s.len(),
    ensures
        first_binding(s, x, i) == either(
            first_binding(s.drop_last(), x, i),
            if s.last().0 == x { Some(s.last().1) } else { None },
        ),
    decreases s.len() - i,
{
    if i < s.len() - 1 {
        assert(s.drop_last()[i] == s[i]);
        lemma_first_binding_snoc(s, x, i + 1);
    } else {
        assert(first_binding(s, x, i + 1) is None);
        assert(first_binding(s.drop_last(), x, i) is None);
        assert(s.last() == s[i]);
    }
}

proof fn lemma_first_binding_shift(a: Seq<(Seq<u8>, Key)>, b: Seq<(Seq<u8>, Key)>, x: Seq<u8>, j: int)
    requires
        0 <= j,
    ensures
        first_binding(a + b, x, a.len() + j) == first_binding(b, x, j),
    decreases b.len() - j,
{
    if j < b.len() {
        assert((a + b)[a.len() + j] == b[j]);
        lemma_first_binding_shift(a, b, x, j + 1);
    }
}

proof fn lemma_first_binding_concat(a: Seq<(Seq<u8>, Key)>, b: Seq<(Seq<u8>, Key)>, x: Seq<u8>, i: int)
    requires
        0 <= i <= a.len(),
    ensures
        first_binding(a + b, x, i) == either(first_binding(a, x, i), first_binding(b, x, 0)),
    decreases a.len() - i,
{
    if i == a.len() {
        lemma_first_binding_shift(a, b, x, 0);
    } else {
        assert((a + b)[i] == a[i]);
        lemma_first_binding_concat(a, b, x, i + 1);
    }
}

/// Adding bindings where absent binds `x` as its first binding does.
proof fn lemma_add_absent_first(t: Map<Seq<u8>, Key>, s: Seq<(Seq<u8>, Key)>, x: Seq<u8>)
    requires
        !t.contains_key(x),
    ensures
        add_absent(t, s).contains_key(x) == (first_binding(s, x, 0) is Some),
        first_binding(s, x, 0) matches Some(k) ==> add_absent(t, s)[x] == k,
    decreases s.len(),
{
    if s.len() > 0 {
        lemma_add_absent_first(t, s.drop_last(), x);
        lemma_first_binding_snoc(s, x, 0);
    }
}

/// Whether some key string of the description `info` is `x`.
pub open spec fn described(info: &Capabilities, x: Seq<u8>) -> bool {
    exists|i: int| 0 <= i < terminfo_keys().len() && #[trigger] info.string(terminfo_keys()[i].0) == Some(x)
}

proof fn lemma_not_described(info: &Capabilities, caps: Seq<(Capability, Value)>, x: Seq<u8>)
    requires
        forall|i: int| 0 <= i < caps.len() ==> #[trigger] info.string(caps[i].0) != Some(x),
    ensures
        first_binding(terminfo_bindings(info, caps), x, 0) is None,
    decreases caps.len(),
{
    if caps.len() > 0 {
        let rest = caps.drop_last();
        assert forall|i: int| 0 <= i < rest.len() implies #[trigger] info.string(rest[i].0) != Some(x) by {
            assert(rest[i] == caps[i]);
        }
        lemma_not_described(info, rest, x);
        assert(info.string(caps[caps.len() - 1].0) != Some(x));
        match info.string(caps.last().0) {
            Some(s) => {
                let prev = terminfo_bindings(info, rest);
                let all = prev.push((s, Key { modifier: Modifier { bits: 0 }, value: caps.last().1 }));
                assert(all.drop_last() =~= prev);
                lemma_first_binding_snoc(all, x, 0);
            },
            None => {},
        }
    }
}

/// Where the description does not bind `x`, the table binds it as the
/// built-in list first does.
proof fn lemma_initial_default(info: &Capabilities, x: Seq<u8>)
    requires
        !described(info, x),
    ensures
        initial_table(info).contains_key(x) == (first_binding(default_bindings(), x, 0) is Some),
        first_binding(default_bindings(), x, 0) matches Some(k) ==> initial_table(info)[x] == k,
{
    assert forall|i: int| 0 <= i < terminfo_keys().len() implies #[trigger] info.string(terminfo_keys()[i].0) != Some(x) by {
        if info.string(terminfo_keys()[i].0) == Some(x) {
            assert(described(info, x));
        }
    }
    lemma_not_described(info, terminfo_keys(), x);
    let tb = terminfo_bindings(info, terminfo_keys());
    lemma_first_binding_concat(tb, default_bindings(), x, 0);
    lemma_add_absent_first(Map::empty(), tb + default_bindings(), x);
}

/// The first binding of `x` among the built-in bindings, group by group.
proof fn lemma_default_groups(x: Seq<u8>)
    ensures
        first_binding(default_bindings(), x, 0) == either(either(either(either(either(either(either(either(either(either(either(
            first_binding(default_group_0(), x, 0),
            first_binding(default_group_1(), x, 0)),
            first_binding(default_group_2(), x, 0)),
            first_binding(default_group_3(), x, 0)),
            first_binding(default_group_4(), x, 0)),
            first_binding(default_group_5(), x, 0)),
            first_binding(default_group_6(), x, 0)),
            first_binding(default_group_7(), x, 0)),
            first_binding(default_group_8(), x, 0)),
            first_binding(default_group_9(), x, 0)),
            first_binding(default_group_10(), x, 0)),
            first_binding(default_group_11(), x, 0)),
{
    lemma_first_binding_concat(default_group_0(), default_group_1(), x, 0);
    lemma_first_binding_concat(default_group_0() + default_group_1(), default_group_2(), x, 0);
    lemma_first_binding_concat(default_group_0() + default_group_1() + default_group_2(), default_group_3(), x, 0);
    lemma_first_binding_concat(default_group_0() + default_group_1() + default_group_2() + default_group_3(), default_group_4(), x, 0);
    lemma_first_binding_concat(default_group_0() + default_group_1() + default_group_2() + default_group_3() + default_group_4(), default_group_5(), x, 0);
    lemma_first_binding_concat(default_group_0() + default_group_1() + default_group_2() + default_group_3() + default_group_4() + default_group_5(), default_group_6(), x, 0);
    lemma_first_binding_concat(default_group_0() + default_group_1() + default_group_2() + default_group_3() + default_group_4() + default_group_5() + default_group_6(), default_group_7(), x, 0);
    lemma_first_binding_concat(default_group_0() + default_group_1() + default_group_2() + default_group_3() + default_group_4() + default_group_5() + default_group_6() + default_group_7(), default_group_8(), x, 0);
    lemma_first_binding_concat(default_group_0() + default_group_1() + default_group_2() + default_group_3() + default_group_4() + default_group_5() + default_group_6() + default_group_7() + default_group_8(), default_group_9(), x, 0);
    lemma_first_binding_concat(default_group_0() + default_group_1() + default_group_2() + default_group_3() + default_group_4() + default_group_5() + default_group_6() + default_group_7() + default_group_8() + default_group_9(), default_group_10(), x, 0);
    lemma_first_binding_concat(default_group_0() + default_group_1() + default_group_2() + default_group_3() + default_group_4() + default_group_5() + default_group_6() + default_group_7() + default_group_8() + default_group_9() + default_group_10(), default_group_11(), x, 0);
}

proof fn lemma_described_first(info: &Capabilities, caps: Seq<(Capability, Value)>, x: Seq<u8>, i: int)
    requires
        0 <= i < caps.len(),
        info.string(caps[i].0) == Some(x),
        forall|j: int| 0 <= j < caps.len() && j != i ==> #[trigger] info.string(caps[j].0) != Some(x),
    ensures
        first_binding(terminfo_bindings(info, caps), x, 0) == Some(Key { modifier: Modifier { bits: 0 }, value: caps[i].1 }),
    decreases caps.len(),
{
    let rest = caps.drop_last();
    let last = caps.len() - 1;
    let prev = terminfo_bindings(info, rest);
    let all = prev.push((x, Key { modifier: Modifier { bits: 0 }, value: caps[last].1 }));
    if i == last {
        assert forall|j: int| 0 <= j < rest.len() implies #[trigger] info.string(rest[j].0) != Some(x) by {
            assert(rest[j] == caps[j]);
        }
        lemma_not_described(info, rest, x);
        assert(caps.last() == caps[last]);
        assert(terminfo_bindings(info, caps) == all);
        assert(all.drop_last() =~= prev);
        lemma_first_binding_snoc(all, x, 0);
    } else {
        assert(rest[i] == caps[i]);
        assert forall|j: int| 0 <= j < rest.len() && j != i implies #[trigger] info.string(rest[j].0) != Some(x) by {
            assert(rest[j] == caps[j]);
        }
        lemma_described_first(info, rest, x, i);
        assert(caps.last() == caps[last]);
        match info.string(caps.last().0) {
            Some(y) => {
                let with = prev.push((y, Key { modifier: Modifier { bits: 0 }, value: caps[last].1 }));
                assert(with.drop_last() =~= prev);
                lemma_first_binding_snoc(with, x, 0);
            },
            None => {},
        }
    }
}

/// No two key capabilities of the description `info` have one string.
pub open spec fn distinct_key_strings(info: &Capabilities) -> bool {
    forall|i: int, j: int|
        0 <= i < terminfo_keys().len() && 0 <= j < terminfo_keys().len() && i != j && #[trigger] info.string(terminfo_keys()[i].0) is Some
            ==> info.string(terminfo_keys()[i].0) != #[trigger] info.string(terminfo_keys()[j].0)
}

/// Where the description has capability `cap`, the table binds its string
/// to `value` without modifier.
pub open spec fn described_as(info: &Capabilities, cap: Capability, value: Value) -> bool {
    info.string(cap) matches Some(x) ==> initial_table(info).contains_key(x)
        && initial_table(info)[x] == Key { modifier: Modifier { bits: 0 }, value }
}

proof fn lemma_described_at(info: &Capabilities, i: int)
    requires
        distinct_key_strings(info),
        0 <= i < terminfo_keys().len(),
    ensures
        described_as(info, terminfo_keys()[i].0, terminfo_keys()[i].1),
{
    if let Some(x) = info.string(terminfo_keys()[i].0) {
        assert forall|j: int| 0 <= j < terminfo_keys().len() && j != i implies #[trigger] info.string(terminfo_keys()[j].0) != Some(x) by {
            assert(info.string(terminfo_keys()[i].0) is Some);
        }
        lemma_described_first(info, terminfo_keys(), x, i);
        let tb = terminfo_bindings(info, terminfo_keys());
        lemma_first_binding_concat(tb, default_bindings(), x, 0);
        lemma_add_absent_first(Map::empty(), tb + default_bindings(), x);
    }
}

/// Where no two key strings of the description agree, the table binds each
/// to the key of its capability, without modifier: `key_enter` and
/// `carriage_return` to Enter, `key_down`, `key_up`, `key_left` and
/// `key_right` to the arrows, `key_npage` to PageDown, `key_ppage` to
/// PageUp, `key_backspace` to BackSpace, `key_btab` to BackTab, `tab` to
/// Tab, and `key_f1` to `key_f63` to F1 to F63.
pub proof fn lemma_described_keys(info: &Capabilities)
    requires
        distinct_key_strings(info),
    ensures
        described_as(info, Capability::KeyEnter, Value::Enter),
        described_as(info, Capability::CarriageReturn, Value::Enter),
        described_as(info, Capability::KeyDown, Value::Down),
        described_as(info, Capability::KeyUp, Value::Up),
        described_as(info, Capability::KeyLeft, Value::Left),
        described_as(info, Capability::KeyRight, Value::Right),
        described_as(info, Capability::KeyNpage, Value::PageDown),
        described_as(info, Capability::KeyPpage, Value::PageUp),
        described_as(info, Capability::KeyBackspace, Value::BackSpace),
        described_as(info, Capability::KeyBtab, Value::BackTab),
        described_as(info, Capability::Tab, Value::Tab),
        forall|n: u8| 1 <= n <= 63 ==> #[trigger] described_as(info, Capability::KeyF(n), Value::F(n)),
{
    lemma_described_at(info, 0);
    lemma_described_at(info, 1);
    lemma_described_at(info, 2);
    lemma_described_at(info, 3);
    lemma_described_at(info, 4);
    lemma_described_at(info, 5);
    lemma_described_at(info, 6);
    lemma_described_at(info, 7);
    lemma_described_at(info, 8);
    lemma_described_at(info, 9);
    lemma_described_at(info, 10);
    assert(terminfo_keys()[0] == (Capability::KeyEnter, Value::Enter));
    assert(terminfo_keys()[1] == (Capability::CarriageReturn, Value::Enter));
    assert(terminfo_keys()[2] == (Capability::KeyDown, Value::Down));
    assert(terminfo_keys()[3] == (Capability::KeyUp, Value::Up));
    assert(terminfo_keys()[4] == (Capability::KeyLeft, Value::Left));
    assert(terminfo_keys()[5] == (Capability::KeyRight, Value::Right));
    assert(terminfo_keys()[6] == (Capability::KeyNpage, Value::PageDown));
    assert(terminfo_keys()[7] == (Capability::KeyPpage, Value::PageUp));
    assert(terminfo_keys()[8] == (Capability::KeyBackspace, Value::BackSpace));
    assert(terminfo_keys()[9] == (Capability::KeyBtab, Value::BackTab));
    assert(terminfo_keys()[10] == (Capability::Tab, Value::Tab));
    assert forall|n: u8| 1 <= n <= 63 implies #[trigger] described_as(info, Capability::KeyF(n), Value::F(n)) by {
        lemma_described_at(info, 10 + n);
        assert(terminfo_keys()[10 + n] == (Capability::KeyF(n), Value::F(n)));
    }
}

/// Where the description `info` does not bind `x`, the table binds it to `k`.
pub open spec fn bound_unless_described(info: &Capabilities, x: Seq<u8>, k: Key) -> bool {
    !described(info, x) ==> initial_table(info).contains_key(x) && initial_table(info)[x] == k
}

proof fn lemma_group_0(x: Seq<u8>)
    ensures
        first_binding(default_group_0(), x, 0) == if (x.len() == 3 && x[0] == 27u8 && x[1] == 91u8 && x[2] == 90u8) { Some(Key { modifier: Modifier { bits: 8 }, value: Value::Tab }) } else { if (x.len() == 2 && x[0] == 27u8 && x[1] == 127u8) { Some(Key { modifier: Modifier { bits: 1 }, value: Value::BackSpace }) } else { if (x.len() == 1 && x[0] == 127u8) { Some(Key { modifier: Modifier { bits: 0 }, value: Value::BackSpace }) } else { if (x.len() == 3 && x[0] == 27u8 && x[1] == 13u8 && x[2] == 10u8) { Some(Key { modifier: Modifier { bits: 1 }, value: Value::Enter }) } else { if (x.len() == 2 && x[0] == 27u8 && x[1] == 13u8) { Some(Key { modifier: Modifier { bits: 1 }, value: Value::Enter }) } else { if (x.len() == 2 && x[0] == 27u8 && x[1] == 10u8) { Some(Key { modifier: Modifier { bits: 1 }, value: Value::Enter }) } else { if (x.len() == 2 && x[0] == 13u8 && x[1] == 10u8) { Some(Key { modifier: Modifier { bits: 0 }, value: Value::Enter }) } else { if (x.len() == 1 && x[0] == 13u8) { Some(Key { modifier: Modifier { bits: 0 }, value: Value::Enter }) } else { if (x.len() == 1 && x[0] == 10u8) { Some(Key { modifier: Modifier { bits: 0 }, value: Value::Enter }) } else { if (x.len() == 6 && x[0] == 27u8 && x[1] == 91u8 && x[2] == 51u8 && x[3] == 59u8 && x[4] == 53u8 && x[5] == 126u8) { Some(Key { modifier: Modifier { bits: 2 }, value: Value::Delete }) } else { if (x.len() == 6 && x[0] == 27u8 && x[1] == 91u8 && x[2] == 51u8 && x[3] == 59u8 && x[4] == 50u8 && x[5] == 126u8) { Some(Key { modifier: Modifier { bits: 8 }, value: Value::Delete }) } else { None } } } } } } } } } } },
{
    reveal_with_fuel(first_binding, 12);
    assert((x.len() == 3 && x[0] == 27u8 && x[1] == 91u8 && x[2] == 90u8) ==> x =~= seq![27u8, 91u8, 90u8]);
    assert((x.len() == 2 && x[0] == 27u8 && x[1] == 127u8) ==> x =~= seq![27u8, 127u8]);
    assert((x.len() == 1 && x[0] == 127u8) ==> x =~= seq![127u8]);
    assert((x.len() == 3 && x[0] == 27u8 && x[1] == 13u8 && x[2] == 10u8) ==> x =~= seq![27u8, 13u8, 10u8]);
    assert((x.len() == 2 && x[0] == 27u8 && x[1] == 13u8) ==> x =~= seq![27u8, 13u8]);
    assert((x.len() == 2 && x[0] == 27u8 && x[1] == 10u8) ==> x =~= seq![27u8, 10u8]);
    assert((x.len() == 2 && x[0] == 13u8 && x[1] == 10u8) ==> x =~= seq![13u8, 10u8]);
    assert((x.len() == 1 && x[0] == 13u8) ==> x =~= seq![13u8]);
    assert((x.len() == 1 && x[0] == 10u8) ==> x =~= seq![10u8]);
    assert((x.len() == 6 && x[0] == 27u8 && x[1] == 91u8 && x[2] == 51u8 && x[3] == 59u8 && x[4] == 53u8 && x[5] == 126u8) ==> x =~= seq![27u8, 91u8, 51u8, 59u8, 53u8, 126u8]);
    assert((x.len() == 6 && x[0] == 27u8 && x[1] == 91u8 && x[2] == 51u8 && x[3] == 59u8 && x[4] == 50u8 && x[5] == 126u8) ==> x =~= seq![27u8, 91u8, 51u8, 59u8, 50u8, 126u8]);
}

proof fn lemma_group_1(x: Seq<u8>)
    ensures
        first_binding(default_group_1(), x, 0) == if (x.len() == 4 && x[0] == 27u8 && x[1] == 91u8 && x[2] == 51u8 && x[3] == 126u8) { Some(Key { modifier: Modifier { bits: 0 }, value: Value::Delete }) } else { if (x.len() == 6 && x[0] == 27u8 && x[1] == 91u8 && x[2] == 50u8 && x[3] == 59u8 && x[4] == 53u8 && x[5] == 126u8) { Some(Key { modifier: Modifier { bits: 2 }, value: Value::Insert }) } else { if (x.len() == 6 && x[0] == 27u8 && x[1] == 91u8 && x[2] == 50u8 && x[3] == 59u8 && x[4] == 50u8 && x[5] == 126u8) { Some(Key { modifier: Modifier { bits: 8 }, value: Value::Insert }) } else { if (x.len() == 4 && x[0] == 27u8 && x[1] == 91u8 && x[2] == 50u8 && x[3] == 126u8) { Some(Key { modifier: Modifier { bits: 0 }, value: Value::Insert }) } else { if (x.len() == 6 && x[0] == 27u8 && x[1] == 91u8 && x[2] == 49u8 && x[3] == 59u8 && x[4] == 50u8 && x[5] == 72u8) { Some(Key { modifier: Modifier { bits: 8 }, value: Value::Home }) } else { if (x.len() == 3 && x[0] == 27u8 && x[1] == 91u8 && x[2] == 72u8) { Some(Key { modifier: Modifier { bits: 0 }, value: Value::Home }) } else { if (x.len() == 6 && x[0] == 27u8 && x[1] == 91u8 && x[2] == 49u8 && x[3] == 59u8 && x[4] == 53u8 && x[5] == 70u8) { Some(Key { modifier: Modifier { bits: 2 }, value: Value::End }) } else { if (x.len() == 6 && x[0] == 27u8 && x[1] == 91u8 && x[2] == 49u8 && x[3] == 59u8 && x[4] == 50u8 && x[5] == 70u8) { Some(Key { modifier: Modifier { bits: 8 }, value: Value::End }) } else { if (x.len() == 4 && x[0] == 27u8 && x[1] == 91u8 && x[2] == 56u8 && x[3] == 126u8) { Some(Key { modifier: Modifier { bits: 0 }, value: Value::End }) } else { if (x.len() == 3 && x[0] == 27u8 && x[1] == 91u8 && x[2] == 69u8) { Some(Key { modifier: Modifier { bits: 0 }, value: Value::Begin }) } else { if (x.len() == 6 && x[0] == 27u8 && x[1] == 91u8 && x[2] == 53u8 && x[3] == 59u8 && x[4] == 53u8 && x[5] == 126u8) { Some(Key { modifier: Modifier { bits: 2 }, value: Value::PageUp }) } else { None } } } } } } } } } } },
{
    reveal_with_fuel(first_binding, 12);
    assert((x.len() == 4 && x[0] == 27u8 && x[1] == 91u8 && x[2] == 51u8 && x[3] == 126u8) ==> x =~= seq![27u8, 91u8, 51u8, 126u8]);
    assert((x.len() == 6 && x[0] == 27u8 && x[1] == 91u8 && x[2] == 50u8 && x[3] == 59u8 && x[4] == 53u8 && x[5] == 126u8) ==> x =~= seq![27u8, 91u8, 50u8, 59u8, 53u8, 126u8]);
    assert((x.len() == 6 && x[0] == 27u8 && x[1] == 91u8 && x[2] == 50u8 && x[3] == 59u8 && x[4] == 50u8 && x[5] == 126u8) ==> x =~= seq![27u8, 91u8, 50u8, 59u8, 50u8, 126u8]);
    assert((x.len() == 4 && x[0] == 27u8 && x[1] == 91u8 && x[2] == 50u8 && x[3] == 126u8) ==> x =~= seq![27u8, 91u8, 50u8, 126u8]);
    assert((x.len() == 6 && x[0] == 27u8 && x[1] == 91u8 && x[2] == 49u8 && x[3] == 59u8 && x[4] == 50u8 && x[5] == 72u8) ==> x =~= seq![27u8, 91u8, 49u8, 59u8, 50u8, 72u8]);
    assert((x.len() == 3 && x[0] == 27u8 && x[1] == 91u8 && x[2] == 72u8) ==> x =~= seq![27u8, 91u8, 72u8]);
    assert((x.len() == 6 && x[0] == 27u8 && x[1] == 91u8 && x[2] == 49u8 && x[3] == 59u8 && x[4] == 53u8 && x[5] == 70u8) ==> x =~= seq![27u8, 91u8, 49u8, 59u8, 53u8, 70u8]);
    assert((x.len() == 6 && x[0] == 27u8 && x[1] == 91u8 && x[2] == 49u8 && x[3] == 59u8 && x[4] == 50u8 && x[5] == 70u8) ==> x =~= seq![27u8, 91u8, 49u8, 59u8, 50u8, 70u8]);
    assert((x.len() == 4 && x[0] == 27u8 && x[1] == 91u8 && x[2] == 56u8 && x[3] == 126u8) ==> x =~= seq![27u8, 91u8, 56u8, 126u8]);
    assert((x.len() == 3 && x[0] == 27u8 && x[1] == 91u8 && x[2] == 69u8) ==> x =~= seq![27u8, 91u8, 69u8]);
    assert((x.len() == 6 && x[0] == 27u8 && x[1] == 91u8 && x[2] == 53u8 && x[3] == 59u8 && x[4] == 53u8 && x[5] == 126u8) ==> x =~= seq![27u8, 91u8, 53u8, 59u8, 53u8, 126u8]);
}

proof fn lemma_group_2(x: Seq<u8>)
    ensures
        first_binding(default_group_2(), x, 0) == if (x.len() == 6 && x[0] == 27u8 && x[1] == 91u8 && x[2] == 53u8 && x[3] == 59u8 && x[4] == 50u8 && x[5] == 126u8) { Some(Key { modifier: Modifier { bits: 8 }, value: Value::PageUp }) } else { if (x.len() == 4 && x[0] == 27u8 && x[1] == 91u8 && x[2] == 53u8 && x[3] == 126u8) { Some(Key { modifier: Modifier { bits: 0 }, value: Value::PageUp }) } else { if (x.len() == 6 && x[0] == 27u8 && x[1] == 91u8 && x[2] == 54u8 && x[3] == 59u8 && x[4] == 53u8 && x[5] == 126u8) { Some(Key { modifier: Modifier { bits: 2 }, value: Value::PageDown }) } else { if (x.len() == 6 && x[0] == 27u8 && x[1] == 91u8 && x[2] == 54u8 && x[3] == 59u8 && x[4] == 50u8 && x[5] == 126u8) { Some(Key { modifier: Modifier { bits: 8 }, value: Value::PageDown }) } else { if (x.len() == 4 && x[0] == 27u8 && x[1] == 91u8 && x[2] == 54u8 && x[3] == 126u8) { Some(Key { modifier: Modifier { bits: 0 }, value: Value::PageDown }) } else { if (x.len() == 6 && x[0] == 27u8 && x[1] == 91u8 && x[2] == 49u8 && x[3] == 59u8 && x[4] == 53u8 && x[5] == 65u8) { Some(Key { modifier: Modifier { bits: 2 }, value: Value::Up }) } else { if (x.len() == 6 && x[0] == 27u8 && x[1] == 91u8 && x[2] == 49u8 && x[3] == 59u8 && x[4] == 51u8 && x[5] == 65u8) { Some(Key { modifier: Modifier { bits: 1 }, value: Value::Up }) } else { if (x.len() == 6 && x[0] == 27u8 && x[1] == 91u8 && x[2] == 49u8 && x[3] == 59u8 && x[4] == 50u8 && x[5] == 65u8) { Some(Key { modifier: Modifier { bits: 8 }, value: Value::Up }) } else { if (x.len() == 4 && x[0] == 27u8 && x[1] == 66u8 && x[2] == 79u8 && x[3] == 65u8) { Some(Key { modifier: Modifier { bits: 0 }, value: Value::Up }) } else { if (x.len() == 6 && x[0] == 27u8 && x[1] == 91u8 && x[2] == 49u8 && x[3] == 59u8 && x[4] == 53u8 && x[5] == 66u8) { Some(Key { modifier: Modifier { bits: 2 }, value: Value::Down }) } else { if (x.len() == 6 && x[0] == 27u8 && x[1] == 91u8 && x[2] == 49u8 && x[3] == 59u8 && x[4] == 51u8 && x[5] == 66u8) { Some(Key { modifier: Modifier { bits: 1 }, value: Value::Down }) } else { None } } } } } } } } } } },
{
    reveal_with_fuel(first_binding, 12);
    assert((x.len() == 6 && x[0] == 27u8 && x[1] == 91u8 && x[2] == 53u8 && x[3] == 59u8 && x[4] == 50u8 && x[5] == 126u8) ==> x =~= seq![27u8, 91u8, 53u8, 59u8, 50u8, 126u8]);
    assert((x.len() == 4 && x[0] == 27u8 && x[1] == 91u8 && x[2] == 53u8 && x[3] == 126u8) ==> x =~= seq![27u8, 91u8, 53u8, 126u8]);
    assert((x.len() == 6 && x[0] == 27u8 && x[1] == 91u8 && x[2] == 54u8 && x[3] == 59u8 && x[4] == 53u8 && x[5] == 126u8) ==> x =~= seq![27u8, 91u8, 54u8, 59u8, 53u8, 126u8]);
    assert((x.len() == 6 && x[0] == 27u8 && x[1] == 91u8 && x[2] == 54u8 && x[3] == 59u8 && x[4] == 50u8 && x[5] == 126u8) ==> x =~= seq![27u8, 91u8, 54u8, 59u8, 50u8, 126u8]);
    assert((x.len() == 4 && x[0] == 27u8 && x[1] == 91u8 && x[2] == 54u8 && x[3] == 126u8) ==> x =~= seq![27u8, 91u8, 54u8, 126u8]);
    assert((x.len() == 6 && x[0] == 27u8 && x[1] == 91u8 && x[2] == 49u8 && x[3] == 59u8 && x[4] == 53u8 && x[5] == 65u8) ==> x =~= seq![27u8, 91u8, 49u8, 59u8, 53u8, 65u8]);
    assert((x.len() == 6 && x[0] == 27u8 && x[1] == 91u8 && x[2] == 49u8 && x[3] == 59u8 && x[4] == 51u8 && x[5] == 65u8) ==> x =~= seq![27u8, 91u8, 49u8, 59u8, 51u8, 65u8]);
    assert((x.len() == 6 && x[0] == 27u8 && x[1] == 91u8 && x[2] == 49u8 && x[3] == 59u8 && x[4] == 50u8 && x[5] == 65u8) ==> x =~= seq![27u8, 91u8, 49u8, 59u8, 50u8, 65u8]);
    assert((x.len() == 4 && x[0] == 27u8 && x[1] == 66u8 && x[2] == 79u8 && x[3] == 65u8) ==> x =~= seq![27u8, 66u8, 79u8, 65u8]);
    assert((x.len() == 6 && x[0] == 27u8 && x[1] == 91u8 && x[2] == 49u8 && x[3] == 59u8 && x[4] == 53u8 && x[5] == 66u8) ==> x =~= seq![27u8, 91u8, 49u8, 59u8, 53u8, 66u8]);
    assert((x.len() == 6 && x[0] == 27u8 && x[1] == 91u8 && x[2] == 49u8 && x[3] == 59u8 && x[4] == 51u8 && x[5] == 66u8) ==> x =~= seq![27u8, 91u8, 49u8, 59u8, 51u8, 66u8]);
}

proof fn lemma_group_3(x: Seq<u8>)
    ensures
        first_binding(default_group_3(), x, 0) == if (x.len() == 6 && x[0] == 27u8 && x[1] == 91u8 && x[2] == 49u8 && x[3] == 59u8 && x[4] == 50u8 && x[5] == 66u8) { Some(Key { modifier: Modifier { bits: 8 }, value: Value::Down }) } else { if (x.len() == 4 && x[0] == 27u8 && x[1] == 66u8 && x[2] == 79u8 && x[3] == 66u8) { Some(Key { modifier: Modifier { bits: 0 }, value: Value::Down }) } else { if (x.len() == 6 && x[0] == 27u8 && x[1] == 91u8 && x[2] == 49u8 && x[3] == 59u8 && x[4] == 53u8 && x[5] == 67u8) { Some(Key { modifier: Modifier { bits: 2 }, value: Value::Right }) } else { if (x.len() == 6 && x[0] == 27u8 && x[1] == 91u8 && x[2] == 49u8 && x[3] == 59u8 && x[4] == 51u8 && x[5] == 67u8) { Some(Key { modifier: Modifier { bits: 1 }, value: Value::Right }) } else { if (x.len() == 6 && x[0] == 27u8 && x[1] == 91u8 && x[2] == 49u8 && x[3] == 59u8 && x[4] == 50u8 && x[5] == 67u8) { Some(Key { modifier: Modifier { bits: 8 }, value: Value::Right }) } else { if (x.len() == 4 && x[0] == 27u8 && x[1] == 66u8 && x[2] == 79u8 && x[3] == 67u8) { Some(Key { modifier: Modifier { bits: 0 }, value: Value::Right }) } else { if (x.len() == 6 && x[0] == 27u8 && x[1] == 91u8 && x[2] == 49u8 && x[3] == 59u8 && x[4] == 53u8 && x[5] == 68u8) { Some(Key { modifier: Modifier { bits: 2 }, value: Value::Left }) } else { if (x.len() == 6 && x[0] == 27u8 && x[1] == 91u8 && x[2] == 49u8 && x[3] == 59u8 && x[4] == 51u8 && x[5] == 68u8) { Some(Key { modifier: Modifier { bits: 1 }, value: Value::Left }) } else { if (x.len() == 6 && x[0] == 27u8 && x[1] == 91u8 && x[2] == 49u8 && x[3] == 59u8 && x[4] == 50u8 && x[5] == 68u8) { Some(Key { modifier: Modifier { bits: 8 }, value: Value::Left }) } else { if (x.len() == 4 && x[0] == 27u8 && x[1] == 66u8 && x[2] == 79u8 && x[3] == 68u8) { Some(Key { modifier: Modifier { bits: 0 }, value: Value::Left }) } else { if (x.len() == 6 && x[0] == 27u8 && x[1] == 91u8 && x[2] == 49u8 && x[3] == 59u8 && x[4] == 53u8 && x[5] == 80u8) { Some(Key { modifier: Modifier { bits: 2 }, value: Value::F(1) }) } else { None } } } } } } } } } } },
{
    reveal_with_fuel(first_binding, 12);
    assert((x.len() == 6 && x[0] == 27u8 && x[1] == 91u8 && x[2] == 49u8 && x[3] == 59u8 && x[4] == 50u8 && x[5] == 66u8) ==> x =~= seq![27u8, 91u8, 49u8, 59u8, 50u8, 66u8]);
    assert((x.len() == 4 && x[0] == 27u8 && x[1] == 66u8 && x[2] == 79u8 && x[3] == 66u8) ==> x =~= seq![27u8, 66u8, 79u8, 66u8]);
    assert((x.len() == 6 && x[0] == 27u8 && x[1] == 91u8 && x[2] == 49u8 && x[3] == 59u8 && x[4] == 53u8 && x[5] == 67u8) ==> x =~= seq![27u8, 91u8, 49u8, 59u8, 53u8, 67u8]);
    assert((x.len() == 6 && x[0] == 27u8 && x[1] == 91u8 && x[2] == 49u8 && x[3] == 59u8 && x[4] == 51u8 && x[5] == 67u8) ==> x =~= seq![27u8, 91u8, 49u8, 59u8, 51u8, 67u8]);
    assert((x.len() == 6 && x[0] == 27u8 && x[1] == 91u8 && x[2] == 49u8 && x[3] == 59u8 && x[4] == 50u8 && x[5] == 67u8) ==> x =~= seq![27u8, 91u8, 49u8, 59u8, 50u8, 67u8]);
    assert((x.len() == 4 && x[0] == 27u8 && x[1] == 66u8 && x[2] == 79u8 && x[3] == 67u8) ==> x =~= seq![27u8, 66u8, 79u8, 67u8]);
    assert((x.len() == 6 && x[0] == 27u8 && x[1] == 91u8 && x[2] == 49u8 && x[3] == 59u8 && x[4] == 53u8 && x[5] == 68u8) ==> x =~= seq![27u8, 91u8, 49u8, 59u8, 53u8, 68u8]);
    assert((x.len() == 6 && x[0] == 27u8 && x[1] == 91u8 && x[2] == 49u8 && x[3] == 59u8 && x[4] == 51u8 && x[5] == 68u8) ==> x =~= seq![27u8, 91u8, 49u8, 59u8, 51u8, 68u8]);
    assert((x.len() == 6 && x[0] == 27u8 && x[1] == 91u8 && x[2] == 49u8 && x[3] == 59u8 && x[4] == 50u8 && x[5] == 68u8) ==> x =~= seq![27u8, 91u8, 49u8, 59u8, 50u8, 68u8]);
    assert((x.len() == 4 && x[0] == 27u8 && x[1] == 66u8 && x[2] == 79u8 && x[3] == 68u8) ==> x =~= seq![27u8, 66u8, 79u8, 68u8]);
    assert((x.len() == 6 && x[0] == 27u8 && x[1] == 91u8 && x[2] == 49u8 && x[3] == 59u8 && x[4] == 53u8 && x[5] == 80u8) ==> x =~= seq![27u8, 91u8, 49u8, 59u8, 53u8, 80u8]);
}

proof fn lemma_group_4(x: Seq<u8>)
    ensures
        first_binding(default_group_4(), x, 0) == if (x.len() == 6 && x[0] == 27u8 && x[1] == 91u8 && x[2] == 49u8 && x[3] == 59u8 && x[4] == 51u8 && x[5] == 80u8) { Some(Key { modifier: Modifier { bits: 1 }, value: Value::F(1) }) } else { if (x.len() == 6 && x[0] == 27u8 && x[1] == 91u8 && x[2] == 49u8 && x[3] == 59u8 && x[4] == 54u8 && x[5] == 80u8) { Some(Key { modifier: Modifier { bits: 4 }, value: Value::F(1) }) } else { if (x.len() == 6 && x[0] == 27u8 && x[1] == 91u8 && x[2] == 49u8 && x[3] == 59u8 && x[4] == 50u8 && x[5] == 80u8) { Some(Key { modifier: Modifier { bits: 8 }, value: Value::F(1) }) } else { if (x.len() == 3 && x[0] == 27u8 && x[1] == 79u8 && x[2] == 80u8) { Some(Key { modifier: Modifier { bits: 0 }, value: Value::F(1) }) } else { if (x.len() == 6 && x[0] == 27u8 && x[1] == 91u8 && x[2] == 49u8 && x[3] == 59u8 && x[4] == 53u8 && x[5] == 81u8) { Some(Key { modifier: Modifier { bits: 2 }, value: Value::F(2) }) } else { if (x.len() == 6 && x[0] == 27u8 && x[1] == 91u8 && x[2] == 49u8 && x[3] == 59u8 && x[4] == 51u8 && x[5] == 81u8) { Some(Key { modifier: Modifier { bits: 1 }, value: Value::F(2) }) } else { if (x.len() == 6 && x[0] == 27u8 && x[1] == 91u8 && x[2] == 49u8 && x[3] == 59u8 && x[4] == 54u8 && x[5] == 81u8) { Some(Key { modifier: Modifier { bits: 4 }, value: Value::F(2) }) } else { if (x.len() == 6 && x[0] == 27u8 && x[1] == 91u8 && x[2] == 49u8 && x[3] == 59u8 && x[4] == 50u8 && x[5] == 81u8) { Some(Key { modifier: Modifier { bits: 8 }, value: Value::F(2) }) } else { if (x.len() == 3 && x[0] == 27u8 && x[1] == 79u8 && x[2] == 81u8) { Some(Key { modifier: Modifier { bits: 0 }, value: Value::F(2) }) } else { if (x.len() == 6 && x[0] == 27u8 && x[1] == 91u8 && x[2] == 49u8 && x[3] == 59u8 && x[4] == 53u8 && x[5] == 82u8) { Some(Key { modifier: Modifier { bits: 2 }, value: Value::F(3) }) } else { if (x.len() == 6 && x[0] == 27u8 && x[1] == 91u8 && x[2] == 49u8 && x[3] == 59u8 && x[4] == 51u8 && x[5] == 82u8) { Some(Key { modifier: Modifier { bits: 1 }, value: Value::F(3) }) } else { None } } } } } } } } } } },
{
    reveal_with_fuel(first_binding, 12);
    assert((x.len() == 6 && x[0] == 27u8 && x[1] == 91u8 && x[2] == 49u8 && x[3] == 59u8 && x[4] == 51u8 && x[5] == 80u8) ==> x =~= seq![27u8, 91u8, 49u8, 59u8, 51u8, 80u8]);
    assert((x.len() == 6 && x[0] == 27u8 && x[1] == 91u8 && x[2] == 49u8 && x[3] == 59u8 && x[4] == 54u8 && x[5] == 80u8) ==> x =~= seq![27u8, 91u8, 49u8, 59u8, 54u8, 80u8]);
    assert((x.len() == 6 && x[0] == 27u8 && x[1] == 91u8 && x[2] == 49u8 && x[3] == 59u8 && x[4] == 50u8 && x[5] == 80u8) ==> x =~= seq![27u8, 91u8, 49u8, 59u8, 50u8, 80u8]);
    assert((x.len() == 3 && x[0] == 27u8 && x[1] == 79u8 && x[2] == 80u8) ==> x =~= seq![27u8, 79u8, 80u8]);
    assert((x.len() == 6 && x[0] == 27u8 && x[1] == 91u8 && x[2] == 49u8 && x[3] == 59u8 && x[4] == 53u8 && x[5] == 81u8) ==> x =~= seq![27u8, 91u8, 49u8, 59u8, 53u8, 81u8]);
    assert((x.len() == 6 && x[0] == 27u8 && x[1] == 91u8 && x[2] == 49u8 && x[3] == 59u8 && x[4] == 51u8 && x[5] == 81u8) ==> x =~= seq![27u8, 91u8, 49u8, 59u8, 51u8, 81u8]);
    assert((x.len() == 6 && x[0] == 27u8 && x[1] == 91u8 && x[2] == 49u8 && x[3] == 59u8 && x[4] == 54u8 && x[5] == 81u8) ==> x =~= seq![27u8, 91u8, 49u8, 59u8, 54u8, 81u8]);
    assert((x.len() == 6 && x[0] == 27u8 && x[1] == 91u8 && x[2] == 49u8 && x[3] == 59u8 && x[4] == 50u8 && x[5] == 81u8) ==> x =~= seq![27u8, 91u8, 49u8, 59u8, 50u8, 81u8]);
    assert((x.len() == 3 && x[0] == 27u8 && x[1] == 79u8 && x[2] == 81u8) ==> x =~= seq![27u8, 79u8, 81u8]);
    assert((x.len() == 6 && x[0] == 27u8 && x[1] == 91u8 && x[2] == 49u8 && x[3] == 59u8 && x[4] == 53u8 && x[5] == 82u8) ==> x =~= seq![27u8, 91u8, 49u8, 59u8, 53u8, 82u8]);
    assert((x.len() == 6 && x[0] == 27u8 && x[1] == 91u8 && x[2] == 49u8 && x[3] == 59u8 && x[4] == 51u8 && x[5] == 82u8) ==> x =~= seq![27u8, 91u8, 49u8, 59u8, 51u8, 82u8]);
}

proof fn lemma_group_5(x: Seq<u8>)
    ensures
        first_binding(default_group_5(), x, 0) == if (x.len() == 6 && x[0] == 27u8 && x[1] == 91u8 && x[2] == 49u8 && x[3] == 59u8 && x[4] == 54u8 && x[5] == 82u8) { Some(Key { modifier: Modifier { bits: 4 }, value: Value::F(3) }) } else { if (x.len() == 6 && x[0] == 27u8 && x[1] == 91u8 && x[2] == 49u8 && x[3] == 59u8 && x[4] == 50u8 && x[5] == 82u8) { Some(Key { modifier: Modifier { bits: 8 }, value: Value::F(3) }) } else { if (x.len() == 3 && x[0] == 27u8 && x[1] == 79u8 && x[2] == 82u8) { Some(Key { modifier: Modifier { bits: 0 }, value: Value::F(3) }) } else { if (x.len() == 6 && x[0] == 27u8 && x[1] == 91u8 && x[2] == 49u8 && x[3] == 59u8 && x[4] == 53u8 && x[5] == 83u8) { Some(Key { modifier: Modifier { bits: 2 }, value: Value::F(4) }) } else { if (x.len() == 6 && x[0] == 27u8 && x[1] == 91u8 && x[2] == 49u8 && x[3] == 59u8 && x[4] == 51u8 && x[5] == 83u8) { Some(Key { modifier: Modifier { bits: 1 }, value: Value::F(4) }) } else { if (x.len() == 6 && x[0] == 27u8 && x[1] == 91u8 && x[2] == 49u8 && x[3] == 59u8 && x[4] == 54u8 && x[5] == 83u8) { Some(Key { modifier: Modifier { bits: 4 }, value: Value::F(4) }) } else { if (x.len() == 6 && x[0] == 27u8 && x[1] == 91u8 && x[2] == 49u8 && x[3] == 59u8 && x[4] == 50u8 && x[5] == 83u8) { Some(Key { modifier: Modifier { bits: 8 }, value: Value::F(4) }) } else { if (x.len() == 3 && x[0] == 27u8 && x[1] == 79u8 && x[2] == 83u8) { Some(Key { modifier: Modifier { bits: 0 }, value: Value::F(4) }) } else { if (x.len() == 7 && x[0] == 27u8 && x[1] == 91u8 && x[2] == 49u8 && x[3] == 53u8 && x[4] == 59u8 && x[5] == 53u8 && x[6] == 126u8) { Some(Key { modifier: Modifier { bits: 2 }, value: Value::F(5) }) } else { if (x.len() == 7 && x[0] == 27u8 && x[1] == 91u8 && x[2] == 49u8 && x[3] == 53u8 && x[4] == 59u8 && x[5] == 51u8 && x[6] == 126u8) { Some(Key { modifier: Modifier { bits: 1 }, value: Value::F(5) }) } else { if (x.len() == 7 && x[0] == 27u8 && x[1] == 91u8 && x[2] == 49u8 && x[3] == 53u8 && x[4] == 59u8 && x[5] == 54u8 && x[6] == 126u8) { Some(Key { modifier: Modifier { bits: 4 }, value: Value::F(5) }) } else { None } } } } } } } } } } },
{
    reveal_with_fuel(first_binding, 12);
    assert((x.len() == 6 && x[0] == 27u8 && x[1] == 91u8 && x[2] == 49u8 && x[3] == 59u8 && x[4] == 54u8 && x[5] == 82u8) ==> x =~= seq![27u8, 91u8, 49u8, 59u8, 54u8, 82u8]);
    assert((x.len() == 6 && x[0] == 27u8 && x[1] == 91u8 && x[2] == 49u8 && x[3] == 59u8 && x[4] == 50u8 && x[5] == 82u8) ==> x =~= seq![27u8, 91u8, 49u8, 59u8, 50u8, 82u8]);
    assert((x.len() == 3 && x[0] == 27u8 && x[1] == 79u8 && x[2] == 82u8) ==> x =~= seq![27u8, 79u8, 82u8]);
    assert((x.len() == 6 && x[0] == 27u8 && x[1] == 91u8 && x[2] == 49u8 && x[3] == 59u8 && x[4] == 53u8 && x[5] == 83u8) ==> x =~= seq![27u8, 91u8, 49u8, 59u8, 53u8, 83u8]);
    assert((x.len() == 6 && x[0] == 27u8 && x[1] == 91u8 && x[2] == 49u8 && x[3] == 59u8 && x[4] == 51u8 && x[5] == 83u8) ==> x =~= seq![27u8, 91u8, 49u8, 59u8, 51u8, 83u8]);
    assert((x.len() == 6 && x[0] == 27u8 && x[1] == 91u8 && x[2] == 49u8 && x[3] == 59u8 && x[4] == 54u8 && x[5] == 83u8) ==> x =~= seq![27u8, 91u8, 49u8, 59u8, 54u8, 83u8]);
    assert((x.len() == 6 && x[0] == 27u8 && x[1] == 91u8 && x[2] == 49u8 && x[3] == 59u8 && x[4] == 50u8 && x[5] == 83u8) ==> x =~= seq![27u8, 91u8, 49u8, 59u8, 50u8, 83u8]);
    assert((x.len() == 3 && x[0] == 27u8 && x[1] == 79u8 && x[2] == 83u8) ==> x =~= seq![27u8, 79u8, 83u8]);
    assert((x.len() == 7 && x[0] == 27u8 && x[1] == 91u8 && x[2] == 49u8 && x[3] == 53u8 && x[4] == 59u8 && x[5] == 53u8 && x[6] == 126u8) ==> x =~= seq![27u8, 91u8, 49u8, 53u8, 59u8, 53u8, 126u8]);
    assert((x.len() == 7 && x[0] == 27u8 && x[1] == 91u8 && x[2] == 49u8 && x[3] == 53u8 && x[4] == 59u8 && x[5] == 51u8 && x[6] == 126u8) ==> x =~= seq![27u8, 91u8, 49u8, 53u8, 59u8, 51u8, 126u8]);
    assert((x.len() == 7 && x[0] == 27u8 && x[1] == 91u8 && x[2] == 49u8 && x[3] == 53u8 && x[4] == 59u8 && x[5] == 54u8 && x[6] == 126u8) ==> x =~= seq![27u8, 91u8, 49u8, 53u8, 59u8, 54u8, 126u8]);
}

proof fn lemma_group_6(x: Seq<u8>)
    ensures
        first_binding(default_group_6(), x, 0) == if (x.len() == 7 && x[0] == 27u8 && x[1] == 91u8 && x[2] == 49u8 && x[3] == 53u8 && x[4] == 59u8 && x[5] == 50u8 && x[6] == 126u8) { Some(Key { modifier: Modifier { bits: 8 }, value: Value::F(5) }) } else { if (x.len() == 5 && x[0] == 27u8 && x[1] == 91u8 && x[2] == 49u8 && x[3] == 53u8 && x[4] == 126u8) { Some(Key { modifier: Modifier { bits: 0 }, value: Value::F(5) }) } else { if (x.len() == 7 && x[0] == 27u8 && x[1] == 91u8 && x[2] == 49u8 && x[3] == 55u8 && x[4] == 59u8 && x[5] == 53u8 && x[6] == 126u8) { Some(Key { modifier: Modifier { bits: 2 }, value: Value::F(6) }) } else { if (x.len() == 7 && x[0] == 27u8 && x[1] == 91u8 && x[2] == 49u8 && x[3] == 55u8 && x[4] == 59u8 && x[5] == 51u8 && x[6] == 126u8) { Some(Key { modifier: Modifier { bits: 1 }, value: Value::F(6) }) } else { if (x.len() == 7 && x[0] == 27u8 && x[1] == 91u8 && x[2] == 49u8 && x[3] == 55u8 && x[4] == 59u8 && x[5] == 54u8 && x[6] == 126u8) { Some(Key { modifier: Modifier { bits: 4 }, value: Value::F(6) }) } else { if (x.len() == 7 && x[0] == 27u8 && x[1] == 91u8 && x[2] == 49u8 && x[3] == 55u8 && x[4] == 59u8 && x[5] == 50u8 && x[6] == 126u8) { Some(Key { modifier: Modifier { bits: 8 }, value: Value::F(6) }) } else { if (x.len() == 5 && x[0] == 27u8 && x[1] == 91u8 && x[2] == 49u8 && x[3] == 55u8 && x[4] == 126u8) { Some(Key { modifier: Modifier { bits: 0 }, value: Value::F(6) }) } else { if (x.len() == 7 && x[0] == 27u8 && x[1] == 91u8 && x[2] == 49u8 && x[3] == 56u8 && x[4] == 59u8 && x[5] == 53u8 && x[6] == 126u8) { Some(Key { modifier: Modifier { bits: 2 }, value: Value::F(7) }) } else { if (x.len() == 7 && x[0] == 27u8 && x[1] == 91u8 && x[2] == 49u8 && x[3] == 56u8 && x[4] == 59u8 && x[5] == 51u8 && x[6] == 126u8) { Some(Key { modifier: Modifier { bits: 1 }, value: Value::F(7) }) } else { if (x.len() == 7 && x[0] == 27u8 && x[1] == 91u8 && x[2] == 49u8 && x[3] == 56u8 && x[4] == 59u8 && x[5] == 54u8 && x[6] == 126u8) { Some(Key { modifier: Modifier { bits: 4 }, value: Value::F(7) }) } else { if (x.len() == 7 && x[0] == 27u8 && x[1] == 91u8 && x[2] == 49u8 && x[3] == 56u8 && x[4] == 59u8 && x[5] == 50u8 && x[6] == 126u8) { Some(Key { modifier: Modifier { bits: 8 }, value: Value::F(7) }) } else { None } } } } } } } } } } },
{
    reveal_with_fuel(first_binding, 12);
    assert((x.len() == 7 && x[0] == 27u8 && x[1] == 91u8 && x[2] == 49u8 && x[3] == 53u8 && x[4] == 59u8 && x[5] == 50u8 && x[6] == 126u8) ==> x =~= seq![27u8, 91u8, 49u8, 53u8, 59u8, 50u8, 126u8]);
    assert((x.len() == 5 && x[0] == 27u8 && x[1] == 91u8 && x[2] == 49u8 && x[3] == 53u8 && x[4] == 126u8) ==> x =~= seq![27u8, 91u8, 49u8, 53u8, 126u8]);
    assert((x.len() == 7 && x[0] == 27u8 && x[1] == 91u8 && x[2] == 49u8 && x[3] == 55u8 && x[4] == 59u8 && x[5] == 53u8 && x[6] == 126u8) ==> x =~= seq![27u8, 91u8, 49u8, 55u8, 59u8, 53u8, 126u8]);
    assert((x.len() == 7 && x[0] == 27u8 && x[1] == 91u8 && x[2] == 49u8 && x[3] == 55u8 && x[4] == 59u8 && x[5] == 51u8 && x[6] == 126u8) ==> x =~= seq![27u8, 91u8, 49u8, 55u8, 59u8, 51u8, 126u8]);
    assert((x.len() == 7 && x[0] == 27u8 && x[1] == 91u8 && x[2] == 49u8 && x[3] == 55u8 && x[4] == 59u8 && x[5] == 54u8 && x[6] == 126u8) ==> x =~= seq![27u8, 91u8, 49u8, 55u8, 59u8, 54u8, 126u8]);
    assert((x.len() == 7 && x[0] == 27u8 && x[1] == 91u8 && x[2] == 49u8 && x[3] == 55u8 && x[4] == 59u8 && x[5] == 50u8 && x[6] == 126u8) ==> x =~= seq![27u8, 91u8, 49u8, 55u8, 59u8, 50u8, 126u8]);
    assert((x.len() == 5 && x[0] == 27u8 && x[1] == 91u8 && x[2] == 49u8 && x[3] == 55u8 && x[4] == 126u8) ==> x =~= seq![27u8, 91u8, 49u8, 55u8, 126u8]);
    assert((x.len() == 7 && x[0] == 27u8 && x[1] == 91u8 && x[2] == 49u8 && x[3] == 56u8 && x[4] == 59u8 && x[5] == 53u8 && x[6] == 126u8) ==> x =~= seq![27u8, 91u8, 49u8, 56u8, 59u8, 53u8, 126u8]);
    assert((x.len() == 7 && x[0] == 27u8 && x[1] == 91u8 && x[2] == 49u8 && x[3] == 56u8 && x[4] == 59u8 && x[5] == 51u8 && x[6] == 126u8) ==> x =~= seq![27u8, 91u8, 49u8, 56u8, 59u8, 51u8, 126u8]);
    assert((x.len() == 7 && x[0] == 27u8 && x[1] == 91u8 && x[2] == 49u8 && x[3] == 56u8 && x[4] == 59u8 && x[5] == 54u8 && x[6] == 126u8) ==> x =~= seq![27u8, 91u8, 49u8, 56u8, 59u8, 54u8, 126u8]);
    assert((x.len() == 7 && x[0] == 27u8 && x[1] == 91u8 && x[2] == 49u8 && x[3] == 56u8 && x[4] == 59u8 && x[5] == 50u8 && x[6] == 126u8) ==> x =~= seq![27u8, 91u8, 49u8, 56u8, 59u8, 50u8, 126u8]);
}

proof fn lemma_group_7(x: Seq<u8>)
    ensures
        first_binding(default_group_7(), x, 0) == if (x.len() == 5 && x[0] == 27u8 && x[1] == 91u8 && x[2] == 49u8 && x[3] == 56u8 && x[4] == 126u8) { Some(Key { modifier: Modifier { bits: 0 }, value: Value::F(7) }) } else { if (x.len() == 7 && x[0] == 27u8 && x[1] == 91u8 && x[2] == 49u8 && x[3] == 57u8 && x[4] == 59u8 && x[5] == 53u8 && x[6] == 126u8) { Some(Key { modifier: Modifier { bits: 2 }, value: Value::F(8) }) } else { if (x.len() == 7 && x[0] == 27u8 && x[1] == 91u8 && x[2] == 49u8 && x[3] == 57u8 && x[4] == 59u8 && x[5] == 51u8 && x[6] == 126u8) { Some(Key { modifier: Modifier { bits: 1 }, value: Value::F(8) }) } else { if (x.len() == 7 && x[0] == 27u8 && x[1] == 91u8 && x[2] == 49u8 && x[3] == 57u8 && x[4] == 59u8 && x[5] == 54u8 && x[6] == 126u8) { Some(Key { modifier: Modifier { bits: 4 }, value: Value::F(8) }) } else { if (x.len() == 7 && x[0] == 27u8 && x[1] == 91u8 && x[2] == 49u8 && x[3] == 57u8 && x[4] == 59u8 && x[5] == 50u8 && x[6] == 126u8) { Some(Key { modifier: Modifier { bits: 8 }, value: Value::F(8) }) } else { if (x.len() == 5 && x[0] == 27u8 && x[1] == 91u8 && x[2] == 49u8 && x[3] == 57u8 && x[4] == 126u8) { Some(Key { modifier: Modifier { bits: 0 }, value: Value::F(8) }) } else { if (x.len() == 7 && x[0] == 27u8 && x[1] == 91u8 && x[2] == 50u8 && x[3] == 48u8 && x[4] == 59u8 && x[5] == 53u8 && x[6] == 126u8) { Some(Key { modifier: Modifier { bits: 2 }, value: Value::F(9) }) } else { if (x.len() == 7 && x[0] == 27u8 && x[1] == 91u8 && x[2] == 50u8 && x[3] == 48u8 && x[4] == 59u8 && x[5] == 51u8 && x[6] == 126u8) { Some(Key { modifier: Modifier { bits: 1 }, value: Value::F(9) }) } else { if (x.len() == 7 && x[0] == 27u8 && x[1] == 91u8 && x[2] == 50u8 && x[3] == 48u8 && x[4] == 59u8 && x[5] == 54u8 && x[6] == 126u8) { Some(Key { modifier: Modifier { bits: 4 }, value: Value::F(9) }) } else { if (x.len() == 7 && x[0] == 27u8 && x[1] == 91u8 && x[2] == 50u8 && x[3] == 48u8 && x[4] == 59u8 && x[5] == 50u8 && x[6] == 126u8) { Some(Key { modifier: Modifier { bits: 8 }, value: Value::F(9) }) } else { if (x.len() == 5 && x[0] == 27u8 && x[1] == 91u8 && x[2] == 50u8 && x[3] == 48u8 && x[4] == 126u8) { Some(Key { modifier: Modifier { bits: 0 }, value: Value::F(9) }) } else { None } } } } } } } } } } },
{
    reveal_with_fuel(first_binding, 12);
    assert((x.len() == 5 && x[0] == 27u8 && x[1] == 91u8 && x[2] == 49u8 && x[3] == 56u8 && x[4] == 126u8) ==> x =~= seq![27u8, 91u8, 49u8, 56u8, 126u8]);
    assert((x.len() == 7 && x[0] == 27u8 && x[1] == 91u8 && x[2] == 49u8 && x[3] == 57u8 && x[4] == 59u8 && x[5] == 53u8 && x[6] == 126u8) ==> x =~= seq![27u8, 91u8, 49u8, 57u8, 59u8, 53u8, 126u8]);
    assert((x.len() == 7 && x[0] == 27u8 && x[1] == 91u8 && x[2] == 49u8 && x[3] == 57u8 && x[4] == 59u8 && x[5] == 51u8 && x[6] == 126u8) ==> x =~= seq![27u8, 91u8, 49u8, 57u8, 59u8, 51u8, 126u8]);
    assert((x.len() == 7 && x[0] == 27u8 && x[1] == 91u8 && x[2] == 49u8 && x[3] == 57u8 && x[4] == 59u8 && x[5] == 54u8 && x[6] == 126u8) ==> x =~= seq![27u8, 91u8, 49u8, 57u8, 59u8, 54u8, 126u8]);
    assert((x.len() == 7 && x[0] == 27u8 && x[1] == 91u8 && x[2] == 49u8 && x[3] == 57u8 && x[4] == 59u8 && x[5] == 50u8 && x[6] == 126u8) ==> x =~= seq![27u8, 91u8, 49u8, 57u8, 59u8, 50u8, 126u8]);
    assert((x.len() == 5 && x[0] == 27u8 && x[1] == 91u8 && x[2] == 49u8 && x[3] == 57u8 && x[4] == 126u8) ==> x =~= seq![27u8, 91u8, 49u8, 57u8, 126u8]);
    assert((x.len() == 7 && x[0] == 27u8 && x[1] == 91u8 && x[2] == 50u8 && x[3] == 48u8 && x[4] == 59u8 && x[5] == 53u8 && x[6] == 126u8) ==> x =~= seq![27u8, 91u8, 50u8, 48u8, 59u8, 53u8, 126u8]);
    assert((x.len() == 7 && x[0] == 27u8 && x[1] == 91u8 && x[2] == 50u8 && x[3] == 48u8 && x[4] == 59u8 && x[5] == 51u8 && x[6] == 126u8) ==> x =~= seq![27u8, 91u8, 50u8, 48u8, 59u8, 51u8, 126u8]);
    assert((x.len() == 7 && x[0] == 27u8 && x[1] == 91u8 && x[2] == 50u8 && x[3] == 48u8 && x[4] == 59u8 && x[5] == 54u8 && x[6] == 126u8) ==> x =~= seq![27u8, 91u8, 50u8, 48u8, 59u8, 54u8, 126u8]);
    assert((x.len() == 7 && x[0] == 27u8 && x[1] == 91u8 && x[2] == 50u8 && x[3] == 48u8 && x[4] == 59u8 && x[5] == 50u8 && x[6] == 126u8) ==> x =~= seq![27u8, 91u8, 50u8, 48u8, 59u8, 50u8, 126u8]);
    assert((x.len() == 5 && x[0] == 27u8 && x[1] == 91u8 && x[2] == 50u8 && x[3] == 48u8 && x[4] == 126u8) ==> x =~= seq![27u8, 91u8, 50u8, 48u8, 126u8]);
}

proof fn lemma_group_8(x: Seq<u8>)
    ensures
        first_binding(default_group_8(), x, 0) == if (x.len() == 7 && x[0] == 27u8 && x[1] == 91u8 && x[2] == 50u8 && x[3] == 49u8 && x[4] == 59u8 && x[5] == 53u8 && x[6] == 126u8) { Some(Key { modifier: Modifier { bits: 2 }, value: Value::F(10) }) } else { if (x.len() == 7 && x[0] == 27u8 && x[1] == 91u8 && x[2] == 50u8 && x[3] == 49u8 && x[4] == 59u8 && x[5] == 51u8 && x[6] == 126u8) { Some(Key { modifier: Modifier { bits: 1 }, value: Value::F(10) }) } else { if (x.len() == 7 && x[0] == 27u8 && x[1] == 91u8 && x[2] == 50u8 && x[3] == 49u8 && x[4] == 59u8 && x[5] == 54u8 && x[6] == 126u8) { Some(Key { modifier: Modifier { bits: 4 }, value: Value::F(10) }) } else { if (x.len() == 7 && x[0] == 27u8 && x[1] == 91u8 && x[2] == 50u8 && x[3] == 49u8 && x[4] == 59u8 && x[5] == 50u8 && x[6] == 126u8) { Some(Key { modifier: Modifier { bits: 8 }, value: Value::F(10) }) } else { if (x.len() == 5 && x[0] == 27u8 && x[1] == 91u8 && x[2] == 50u8 && x[3] == 49u8 && x[4] == 126u8) { Some(Key { modifier: Modifier { bits: 0 }, value: Value::F(10) }) } else { if (x.len() == 7 && x[0] == 27u8 && x[1] == 91u8 && x[2] == 50u8 && x[3] == 51u8 && x[4] == 59u8 && x[5] == 53u8 && x[6] == 126u8) { Some(Key { modifier: Modifier { bits: 2 }, value: Value::F(11) }) } else { if (x.len() == 7 && x[0] == 27u8 && x[1] == 91u8 && x[2] == 50u8 && x[3] == 51u8 && x[4] == 59u8 && x[5] == 51u8 && x[6] == 126u8) { Some(Key { modifier: Modifier { bits: 1 }, value: Value::F(11) }) } else { if (x.len() == 7 && x[0] == 27u8 && x[1] == 91u8 && x[2] == 50u8 && x[3] == 51u8 && x[4] == 59u8 && x[5] == 54u8 && x[6] == 126u8) { Some(Key { modifier: Modifier { bits: 4 }, value: Value::F(11) }) } else { if (x.len() == 7 && x[0] == 27u8 && x[1] == 91u8 && x[2] == 50u8 && x[3] == 51u8 && x[4] == 59u8 && x[5] == 50u8 && x[6] == 126u8) { Some(Key { modifier: Modifier { bits: 8 }, value: Value::F(11) }) } else { if (x.len() == 5 && x[0] == 27u8 && x[1] == 91u8 && x[2] == 50u8 && x[3] == 51u8 && x[4] == 126u8) { Some(Key { modifier: Modifier { bits: 0 }, value: Value::F(11) }) } else { if (x.len() == 7 && x[0] == 27u8 && x[1] == 91u8 && x[2] == 50u8 && x[3] == 52u8 && x[4] == 59u8 && x[5] == 53u8 && x[6] == 126u8) { Some(Key { modifier: Modifier { bits: 2 }, value: Value::F(12) }) } else { None } } } } } } } } } } },
{
    reveal_with_fuel(first_binding, 12);
    assert((x.len() == 7 && x[0] == 27u8 && x[1] == 91u8 && x[2] == 50u8 && x[3] == 49u8 && x[4] == 59u8 && x[5] == 53u8 && x[6] == 126u8) ==> x =~= seq![27u8, 91u8, 50u8, 49u8, 59u8, 53u8, 126u8]);
    assert((x.len() == 7 && x[0] == 27u8 && x[1] == 91u8 && x[2] == 50u8 && x[3] == 49u8 && x[4] == 59u8 && x[5] == 51u8 && x[6] == 126u8) ==> x =~= seq![27u8, 91u8, 50u8, 49u8, 59u8, 51u8, 126u8]);
    assert((x.len() == 7 && x[0] == 27u8 && x[1] == 91u8 && x[2] == 50u8 && x[3] == 49u8 && x[4] == 59u8 && x[5] == 54u8 && x[6] == 126u8) ==> x =~= seq![27u8, 91u8, 50u8, 49u8, 59u8, 54u8, 126u8]);
    assert((x.len() == 7 && x[0] == 27u8 && x[1] == 91u8 && x[2] == 50u8 && x[3] == 49u8 && x[4] == 59u8 && x[5] == 50u8 && x[6] == 126u8) ==> x =~= seq![27u8, 91u8, 50u8, 49u8, 59u8, 50u8, 126u8]);
    assert((x.len() == 5 && x[0] == 27u8 && x[1] == 91u8 && x[2] == 50u8 && x[3] == 49u8 && x[4] == 126u8) ==> x =~= seq![27u8, 91u8, 50u8, 49u8, 126u8]);
    assert((x.len() == 7 && x[0] == 27u8 && x[1] == 91u8 && x[2] == 50u8 && x[3] == 51u8 && x[4] == 59u8 && x[5] == 53u8 && x[6] == 126u8) ==> x =~= seq![27u8, 91u8, 50u8, 51u8, 59u8, 53u8, 126u8]);
    assert((x.len() == 7 && x[0] == 27u8 && x[1] == 91u8 && x[2] == 50u8 && x[3] == 51u8 && x[4] == 59u8 && x[5] == 51u8 && x[6] == 126u8) ==> x =~= seq![27u8, 91u8, 50u8, 51u8, 59u8, 51u8, 126u8]);
    assert((x.len() == 7 && x[0] == 27u8 && x[1] == 91u8 && x[2] == 50u8 && x[3] == 51u8 && x[4] == 59u8 && x[5] == 54u8 && x[6] == 126u8) ==> x =~= seq![27u8, 91u8, 50u8, 51u8, 59u8, 54u8, 126u8]);
    assert((x.len() == 7 && x[0] == 27u8 && x[1] == 91u8 && x[2] == 50u8 && x[3] == 51u8 && x[4] == 59u8 && x[5] == 50u8 && x[6] == 126u8) ==> x =~= seq![27u8, 91u8, 50u8, 51u8, 59u8, 50u8, 126u8]);
    assert((x.len() == 5 && x[0] == 27u8 && x[1] == 91u8 && x[2] == 50u8 && x[3] == 51u8 && x[4] == 126u8) ==> x =~= seq![27u8, 91u8, 50u8, 51u8, 126u8]);
    assert((x.len() == 7 && x[0] == 27u8 && x[1] == 91u8 && x[2] == 50u8 && x[3] == 52u8 && x[4] == 59u8 && x[5] == 53u8 && x[6] == 126u8) ==> x =~= seq![27u8, 91u8, 50u8, 52u8, 59u8, 53u8, 126u8]);
}

proof fn lemma_group_9(x: Seq<u8>)
    ensures
        first_binding(default_group_9(), x, 0) == if (x.len() == 7 && x[0] == 27u8 && x[1] == 91u8 && x[2] == 50u8 && x[3] == 52u8 && x[4] == 59u8 && x[5] == 51u8 && x[6] == 126u8) { Some(Key { modifier: Modifier { bits: 1 }, value: Value::F(12) }) } else { if (x.len() == 7 && x[0] == 27u8 && x[1] == 91u8 && x[2] == 50u8 && x[3] == 52u8 && x[4] == 59u8 && x[5] == 54u8 && x[6] == 126u8) { Some(Key { modifier: Modifier { bits: 4 }, value: Value::F(12) }) } else { if (x.len() == 7 && x[0] == 27u8 && x[1] == 91u8 && x[2] == 50u8 && x[3] == 52u8 && x[4] == 59u8 && x[5] == 50u8 && x[6] == 126u8) { Some(Key { modifier: Modifier { bits: 8 }, value: Value::F(12) }) } else { if (x.len() == 5 && x[0] == 27u8 && x[1] == 91u8 && x[2] == 50u8 && x[3] == 52u8 && x[4] == 126u8) { Some(Key { modifier: Modifier { bits: 0 }, value: Value::F(12) }) } else { if (x.len() == 6 && x[0] == 27u8 && x[1] == 91u8 && x[2] == 49u8 && x[3] == 59u8 && x[4] == 50u8 && x[5] == 80u8) { Some(Key { modifier: Modifier { bits: 0 }, value: Value::F(13) }) } else { if (x.len() == 6 && x[0] == 27u8 && x[1] == 91u8 && x[2] == 49u8 && x[3] == 59u8 && x[4] == 50u8 && x[5] == 81u8) { Some(Key { modifier: Modifier { bits: 0 }, value: Value::F(14) }) } else { if (x.len() == 6 && x[0] == 27u8 && x[1] == 91u8 && x[2] == 49u8 && x[3] == 59u8 && x[4] == 50u8 && x[5] == 82u8) { Some(Key { modifier: Modifier { bits: 0 }, value: Value::F(15) }) } else { if (x.len() == 6 && x[0] == 27u8 && x[1] == 91u8 && x[2] == 49u8 && x[3] == 59u8 && x[4] == 50u8 && x[5] == 83u8) { Some(Key { modifier: Modifier { bits: 0 }, value: Value::F(16) }) } else { if (x.len() == 7 && x[0] == 27u8 && x[1] == 91u8 && x[2] == 49u8 && x[3] == 53u8 && x[4] == 59u8 && x[5] == 50u8 && x[6] == 126u8) { Some(Key { modifier: Modifier { bits: 0 }, value: Value::F(17) }) } else { if (x.len() == 7 && x[0] == 27u8 && x[1] == 91u8 && x[2] == 49u8 && x[3] == 55u8 && x[4] == 59u8 && x[5] == 50u8 && x[6] == 126u8) { Some(Key { modifier: Modifier { bits: 0 }, value: Value::F(18) }) } else { if (x.len() == 7 && x[0] == 27u8 && x[1] == 91u8 && x[2] == 49u8 && x[3] == 56u8 && x[4] == 59u8 && x[5] == 50u8 && x[6] == 126u8) { Some(Key { modifier: Modifier { bits: 0 }, value: Value::F(19) }) } else { None } } } } } } } } } } },
{
    reveal_with_fuel(first_binding, 12);
    assert((x.len() == 7 && x[0] == 27u8 && x[1] == 91u8 && x[2] == 50u8 && x[3] == 52u8 && x[4] == 59u8 && x[5] == 51u8 && x[6] == 126u8) ==> x =~= seq![27u8, 91u8, 50u8, 52u8, 59u8, 51u8, 126u8]);
    assert((x.len() == 7 && x[0] == 27u8 && x[1] == 91u8 && x[2] == 50u8 && x[3] == 52u8 && x[4] == 59u8 && x[5] == 54u8 && x[6] == 126u8) ==> x =~= seq![27u8, 91u8, 50u8, 52u8, 59u8, 54u8, 126u8]);
    assert((x.len() == 7 && x[0] == 27u8 && x[1] == 91u8 && x[2] == 50u8 && x[3] == 52u8 && x[4] == 59u8 && x[5] == 50u8 && x[6] == 126u8) ==> x =~= seq![27u8, 91u8, 50u8, 52u8, 59u8, 50u8, 126u8]);
    assert((x.len() == 5 && x[0] == 27u8 && x[1] == 91u8 && x[2] == 50u8 && x[3] == 52u8 && x[4] == 126u8) ==> x =~= seq![27u8, 91u8, 50u8, 52u8, 126u8]);
    assert((x.len() == 6 && x[0] == 27u8 && x[1] == 91u8 && x[2] == 49u8 && x[3] == 59u8 && x[4] == 50u8 && x[5] == 80u8) ==> x =~= seq![27u8, 91u8, 49u8, 59u8, 50u8, 80u8]);
    assert((x.len() == 6 && x[0] == 27u8 && x[1] == 91u8 && x[2] == 49u8 && x[3] == 59u8 && x[4] == 50u8 && x[5] == 81u8) ==> x =~= seq![27u8, 91u8, 49u8, 59u8, 50u8, 81u8]);
    assert((x.len() == 6 && x[0] == 27u8 && x[1] == 91u8 && x[2] == 49u8 && x[3] == 59u8 && x[4] == 50u8 && x[5] == 82u8) ==> x =~= seq![27u8, 91u8, 49u8, 59u8, 50u8, 82u8]);
    assert((x.len() == 6 && x[0] == 27u8 && x[1] == 91u8 && x[2] == 49u8 && x[3] == 59u8 && x[4] == 50u8 && x[5] == 83u8) ==> x =~= seq![27u8, 91u8, 49u8, 59u8, 50u8, 83u8]);
    assert((x.len() == 7 && x[0] == 27u8 && x[1] == 91u8 && x[2] == 49u8 && x[3] == 53u8 && x[4] == 59u8 && x[5] == 50u8 && x[6] == 126u8) ==> x =~= seq![27u8, 91u8, 49u8, 53u8, 59u8, 50u8, 126u8]);
    assert((x.len() == 7 && x[0] == 27u8 && x[1] == 91u8 && x[2] == 49u8 && x[3] == 55u8 && x[4] == 59u8 && x[5] == 50u8 && x[6] == 126u8) ==> x =~= seq![27u8, 91u8, 49u8, 55u8, 59u8, 50u8, 126u8]);
    assert((x.len() == 7 && x[0] == 27u8 && x[1] == 91u8 && x[2] == 49u8 && x[3] == 56u8 && x[4] == 59u8 && x[5] == 50u8 && x[6] == 126u8) ==> x =~= seq![27u8, 91u8, 49u8, 56u8, 59u8, 50u8, 126u8]);
}

proof fn lemma_group_10(x: Seq<u8>)
    ensures
        first_binding(default_group_10(), x, 0) == if (x.len() == 7 && x[0] == 27u8 && x[1] == 91u8 && x[2] == 49u8 && x[3] == 57u8 && x[4] == 59u8 && x[5] == 50u8 && x[6] == 126u8) { Some(Key { modifier: Modifier { bits: 0 }, value: Value::F(20) }) } else { if (x.len() == 7 && x[0] == 27u8 && x[1] == 91u8 && x[2] == 50u8 && x[3] == 48u8 && x[4] == 59u8 && x[5] == 50u8 && x[6] == 126u8) { Some(Key { modifier: Modifier { bits: 0 }, value: Value::F(21) }) } else { if (x.len() == 7 && x[0] == 27u8 && x[1] == 91u8 && x[2] == 50u8 && x[3] == 49u8 && x[4] == 59u8 && x[5] == 50u8 && x[6] == 126u8) { Some(Key { modifier: Modifier { bits: 0 }, value: Value::F(22) }) } else { if (x.len() == 7 && x[0] == 27u8 && x[1] == 91u8 && x[2] == 50u8 && x[3] == 51u8 && x[4] == 59u8 && x[5] == 50u8 && x[6] == 126u8) { Some(Key { modifier: Modifier { bits: 0 }, value: Value::F(23) }) } else { if (x.len() == 7 && x[0] == 27u8 && x[1] == 91u8 && x[2] == 50u8 && x[3] == 52u8 && x[4] == 59u8 && x[5] == 50u8 && x[6] == 126u8) { Some(Key { modifier: Modifier { bits: 0 }, value: Value::F(24) }) } else { if (x.len() == 6 && x[0] == 27u8 && x[1] == 91u8 && x[2] == 49u8 && x[3] == 59u8 && x[4] == 53u8 && x[5] == 80u8) { Some(Key { modifier: Modifier { bits: 0 }, value: Value::F(25) }) } else { if (x.len() == 6 && x[0] == 27u8 && x[1] == 91u8 && x[2] == 49u8 && x[3] == 59u8 && x[4] == 53u8 && x[5] == 81u8) { Some(Key { modifier: Modifier { bits: 0 }, value: Value::F(26) }) } else { if (x.len() == 6 && x[0] == 27u8 && x[1] == 91u8 && x[2] == 49u8 && x[3] == 59u8 && x[4] == 53u8 && x[5] == 82u8) { Some(Key { modifier: Modifier { bits: 0 }, value: Value::F(27) }) } else { if (x.len() == 6 && x[0] == 27u8 && x[1] == 91u8 && x[2] == 49u8 && x[3] == 59u8 && x[4] == 53u8 && x[5] == 83u8) { Some(Key { modifier: Modifier { bits: 0 }, value: Value::F(28) }) } else { if (x.len() == 7 && x[0] == 27u8 && x[1] == 91u8 && x[2] == 49u8 && x[3] == 53u8 && x[4] == 59u8 && x[5] == 53u8 && x[6] == 126u8) { Some(Key { modifier: Modifier { bits: 0 }, value: Value::F(29) }) } else { if (x.len() == 7 && x[0] == 27u8 && x[1] == 91u8 && x[2] == 49u8 && x[3] == 55u8 && x[4] == 59u8 && x[5] == 53u8 && x[6] == 126u8) { Some(Key { modifier: Modifier { bits: 0 }, value: Value::F(30) }) } else { None } } } } } } } } } } },
{
    reveal_with_fuel(first_binding, 12);
    assert((x.len() == 7 && x[0] == 27u8 && x[1] == 91u8 && x[2] == 49u8 && x[3] == 57u8 && x[4] == 59u8 && x[5] == 50u8 && x[6] == 126u8) ==> x =~= seq![27u8, 91u8, 49u8, 57u8, 59u8, 50u8, 126u8]);
    assert((x.len() == 7 && x[0] == 27u8 && x[1] == 91u8 && x[2] == 50u8 && x[3] == 48u8 && x[4] == 59u8 && x[5] == 50u8 && x[6] == 126u8) ==> x =~= seq![27u8, 91u8, 50u8, 48u8, 59u8, 50u8, 126u8]);
    assert((x.len() == 7 && x[0] == 27u8 && x[1] == 91u8 && x[2] == 50u8 && x[3] == 49u8 && x[4] == 59u8 && x[5] == 50u8 && x[6] == 126u8) ==> x =~= seq![27u8, 91u8, 50u8, 49u8, 59u8, 50u8, 126u8]);
    assert((x.len() == 7 && x[0] == 27u8 && x[1] == 91u8 && x[2] == 50u8 && x[3] == 51u8 && x[4] == 59u8 && x[5] == 50u8 && x[6] == 126u8) ==> x =~= seq![27u8, 91u8, 50u8, 51u8, 59u8, 50u8, 126u8]);
    assert((x.len() == 7 && x[0] == 27u8 && x[1] == 91u8 && x[2] == 50u8 && x[3] == 52u8 && x[4] == 59u8 && x[5] == 50u8 && x[6] == 126u8) ==> x =~= seq![27u8, 91u8, 50u8, 52u8, 59u8, 50u8, 126u8]);
    assert((x.len() == 6 && x[0] == 27u8 && x[1] == 91u8 && x[2] == 49u8 && x[3] == 59u8 && x[4] == 53u8 && x[5] == 80u8) ==> x =~= seq![27u8, 91u8, 49u8, 59u8, 53u8, 80u8]);
    assert((x.len() == 6 && x[0] == 27u8 && x[1] == 91u8 && x[2] == 49u8 && x[3] == 59u8 && x[4] == 53u8 && x[5] == 81u8) ==> x =~= seq![27u8, 91u8, 49u8, 59u8, 53u8, 81u8]);
    assert((x.len() == 6 && x[0] == 27u8 && x[1] == 91u8 && x[2] == 49u8 && x[3] == 59u8 && x[4] == 53u8 && x[5] == 82u8) ==> x =~= seq![27u8, 91u8, 49u8, 59u8, 53u8, 82u8]);
    assert((x.len() == 6 && x[0] == 27u8 && x[1] == 91u8 && x[2] == 49u8 && x[3] == 59u8 && x[4] == 53u8 && x[5] == 83u8) ==> x =~= seq![27u8, 91u8, 49u8, 59u8, 53u8, 83u8]);
    assert((x.len() == 7 && x[0] == 27u8 && x[1] == 91u8 && x[2] == 49u8 && x[3] == 53u8 && x[4] == 59u8 && x[5] == 53u8 && x[6] == 126u8) ==> x =~= seq![27u8, 91u8, 49u8, 53u8, 59u8, 53u8, 126u8]);
    assert((x.len() == 7 && x[0] == 27u8 && x[1] == 91u8 && x[2] == 49u8 && x[3] == 55u8 && x[4] == 59u8 && x[5] == 53u8 && x[6] == 126u8) ==> x =~= seq![27u8, 91u8, 49u8, 55u8, 59u8, 53u8, 126u8]);
}

proof fn lemma_group_11(x: Seq<u8>)
    ensures
        first_binding(default_group_11(), x, 0) == if (x.len() == 7 && x[0] == 27u8 && x[1] == 91u8 && x[2] == 49u8 && x[3] == 56u8 && x[4] == 59u8 && x[5] == 53u8 && x[6] == 126u8) { Some(Key { modifier: Modifier { bits: 0 }, value: Value::F(31) }) } else { if (x.len() == 7 && x[0] == 27u8 && x[1] == 91u8 && x[2] == 49u8 && x[3] == 57u8 && x[4] == 59u8 && x[5] == 53u8 && x[6] == 126u8) { Some(Key { modifier: Modifier { bits: 0 }, value: Value::F(32) }) } else { if (x.len() == 7 && x[0] == 27u8 && x[1] == 91u8 && x[2] == 50u8 && x[3] == 48u8 && x[4] == 59u8 && x[5] == 53u8 && x[6] == 126u8) { Some(Key { modifier: Modifier { bits: 0 }, value: Value::F(33) }) } else { if (x.len() == 7 && x[0] == 27u8 && x[1] == 91u8 && x[2] == 50u8 && x[3] == 49u8 && x[4] == 59u8 && x[5] == 53u8 && x[6] == 126u8) { Some(Key { modifier: Modifier { bits: 0 }, value: Value::F(34) }) } else { if (x.len() == 7 && x[0] == 27u8 && x[1] == 91u8 && x[2] == 50u8 && x[3] == 51u8 && x[4] == 59u8 && x[5] == 53u8 && x[6] == 126u8) { Some(Key { modifier: Modifier { bits: 0 }, value: Value::F(35) }) } else { None } } } } },
{
    reveal_with_fuel(first_binding, 12);
    assert((x.len() == 7 && x[0] == 27u8 && x[1] == 91u8 && x[2] == 49u8 && x[3] == 56u8 && x[4] == 59u8 && x[5] == 53u8 && x[6] == 126u8) ==> x =~= seq![27u8, 91u8, 49u8, 56u8, 59u8, 53u8, 126u8]);
    assert((x.len() == 7 && x[0] == 27u8 && x[1] == 91u8 && x[2] == 49u8 && x[3] == 57u8 && x[4] == 59u8 && x[5] == 53u8 && x[6] == 126u8) ==> x =~= seq![27u8, 91u8, 49u8, 57u8, 59u8, 53u8, 126u8]);
    assert((x.len() == 7 && x[0] == 27u8 && x[1] == 91u8 && x[2] == 50u8 && x[3] == 48u8 && x[4] == 59u8 && x[5] == 53u8 && x[6] == 126u8) ==> x =~= seq![27u8, 91u8, 50u8, 48u8, 59u8, 53u8, 126u8]);
    assert((x.len() == 7 && x[0] == 27u8 && x[1] == 91u8 && x[2] == 50u8 && x[3] == 49u8 && x[4] == 59u8 && x[5] == 53u8 && x[6] == 126u8) ==> x =~= seq![27u8, 91u8, 50u8, 49u8, 59u8, 53u8, 126u8]);
    assert((x.len() == 7 && x[0] == 27u8 && x[1] == 91u8 && x[2] == 50u8 && x[3] == 51u8 && x[4] == 59u8 && x[5] == 53u8 && x[6] == 126u8) ==> x =~= seq![27u8, 91u8, 50u8, 51u8, 59u8, 53u8, 126u8]);
}

proof fn lemma_default_key_0(info: &Capabilities)
    ensures
        bound_unless_described(info, seq![27u8, 91u8, 90u8], Key { modifier: Modifier { bits: 8 }, value: Value::Tab }),
{
    lemma_group_0(seq![27u8, 91u8, 90u8]);
    lemma_default_groups(seq![27u8, 91u8, 90u8]);
    if !described(info, seq![27u8, 91u8, 90u8]) {
        lemma_initial_default(info, seq![27u8, 91u8, 90u8]);
    }
}

proof fn lemma_default_key_1(info: &Capabilities)
    ensures
        bound_unless_described(info, seq![27u8, 127u8], Key { modifier: Modifier { bits: 1 }, value: Value::BackSpace }),
{
    lemma_group_0(seq![27u8, 127u8]);
    lemma_default_groups(seq![27u8, 127u8]);
    if !described(info, seq![27u8, 127u8]) {
        lemma_initial_default(info, seq![27u8, 127u8]);
    }
}

proof fn lemma_default_key_2(info: &Capabilities)
    ensures
        bound_unless_described(info, seq![127u8], Key { modifier: Modifier { bits: 0 }, value: Value::BackSpace }),
{
    lemma_group_0(seq![127u8]);
    lemma_default_groups(seq![127u8]);
    if !described(info, seq![127u8]) {
        lemma_initial_default(info, seq![127u8]);
    }
}

proof fn lemma_default_key_3(info: &Capabilities)
    ensures
        bound_unless_described(info, seq![27u8, 13u8, 10u8], Key { modifier: Modifier { bits: 1 }, value: Value::Enter }),
{
    lemma_group_0(seq![27u8, 13u8, 10u8]);
    lemma_default_groups(seq![27u8, 13u8, 10u8]);
    if !described(info, seq![27u8, 13u8, 10u8]) {
        lemma_initial_default(info, seq![27u8, 13u8, 10u8]);
    }
}

proof fn lemma_default_key_4(info: &Capabilities)
    ensures
        bound_unless_described(info, seq![27u8, 13u8], Key { modifier: Modifier { bits: 1 }, value: Value::Enter }),
{
    lemma_group_0(seq![27u8, 13u8]);
    lemma_default_groups(seq![27u8, 13u8]);
    if !described(info, seq![27u8, 13u8]) {
        lemma_initial_default(info, seq![27u8, 13u8]);
    }
}

proof fn lemma_default_key_5(info: &Capabilities)
    ensures
        bound_unless_described(info, seq![27u8, 10u8], Key { modifier: Modifier { bits: 1 }, value: Value::Enter }),
{
    lemma_group_0(seq![27u8, 10u8]);
    lemma_default_groups(seq![27u8, 10u8]);
    if !described(info, seq![27u8, 10u8]) {
        lemma_initial_default(info, seq![27u8, 10u8]);
    }
}

proof fn lemma_default_key_6(info: &Capabilities)
    ensures
        bound_unless_described(info, seq![13u8, 10u8], Key { modifier: Modifier { bits: 0 }, value: Value::Enter }),
{
    lemma_group_0(seq![13u8, 10u8]);
    lemma_default_groups(seq![13u8, 10u8]);
    if !described(info, seq![13u8, 10u8]) {
        lemma_initial_default(info, seq![13u8, 10u8]);
    }
}

proof fn lemma_default_key_7(info: &Capabilities)
    ensures
        bound_unless_described(info, seq![13u8], Key { modifier: Modifier { bits: 0 }, value: Value::Enter }),
{
    lemma_group_0(seq![13u8]);
    lemma_default_groups(seq![13u8]);
    if !described(info, seq![13u8]) {
        lemma_initial_default(info, seq![13u8]);
    }
}

proof fn lemma_default_key_8(info: &Capabilities)
    ensures
        bound_unless_described(info, seq![10u8], Key { modifier: Modifier { bits: 0 }, value: Value::Enter }),
{
    lemma_group_0(seq![10u8]);
    lemma_default_groups(seq![10u8]);
    if !described(info, seq![10u8]) {
        lemma_initial_default(info, seq![10u8]);
    }
}

proof fn lemma_default_key_9(info: &Capabilities)
    ensures
        bound_unless_described(info, seq![27u8, 91u8, 51u8, 59u8, 53u8, 126u8], Key { modifier: Modifier { bits: 2 }, value: Value::Delete }),
{
    lemma_group_0(seq![27u8, 91u8, 51u8, 59u8, 53u8, 126u8]);
    lemma_default_groups(seq![27u8, 91u8, 51u8, 59u8, 53u8, 126u8]);
    if !described(info, seq![27u8, 91u8, 51u8, 59u8, 53u8, 126u8]) {
        lemma_initial_default(info, seq![27u8, 91u8, 51u8, 59u8, 53u8, 126u8]);
    }
}

proof fn lemma_default_key_10(info: &Capabilities)
    ensures
        bound_unless_described(info, seq![27u8, 91u8, 51u8, 59u8, 50u8, 126u8], Key { modifier: Modifier { bits: 8 }, value: Value::Delete }),
{
    lemma_group_0(seq![27u8, 91u8, 51u8, 59u8, 50u8, 126u8]);
    lemma_default_groups(seq![27u8, 91u8, 51u8, 59u8, 50u8, 126u8]);
    if !described(info, seq![27u8, 91u8, 51u8, 59u8, 50u8, 126u8]) {
        lemma_initial_default(info, seq![27u8, 91u8, 51u8, 59u8, 50u8, 126u8]);
    }
}

proof fn lemma_default_key_11(info: &Capabilities)
    ensures
        bound_unless_described(info, seq![27u8, 91u8, 51u8, 126u8], Key { modifier: Modifier { bits: 0 }, value: Value::Delete }),
{
    lemma_group_0(seq![27u8, 91u8, 51u8, 126u8]);
    lemma_group_1(seq![27u8, 91u8, 51u8, 126u8]);
    lemma_default_groups(seq![27u8, 91u8, 51u8, 126u8]);
    if !described(info, seq![27u8, 91u8, 51u8, 126u8]) {
        lemma_initial_default(info, seq![27u8, 91u8, 51u8, 126u8]);
    }
}

proof fn lemma_default_key_12(info: &Capabilities)
    ensures
        bound_unless_described(info, seq![27u8, 91u8, 50u8, 59u8, 53u8, 126u8], Key { modifier: Modifier { bits: 2 }, value: Value::Insert }),
{
    lemma_group_0(seq![27u8, 91u8, 50u8, 59u8, 53u8, 126u8]);
    lemma_group_1(seq![27u8, 91u8, 50u8, 59u8, 53u8, 126u8]);
    lemma_default_groups(seq![27u8, 91u8, 50u8, 59u8, 53u8, 126u8]);
    if !described(info, seq![27u8, 91u8, 50u8, 59u8, 53u8, 126u8]) {
        lemma_initial_default(info, seq![27u8, 91u8, 50u8, 59u8, 53u8, 126u8]);
    }
}

proof fn lemma_default_key_13(info: &Capabilities)
    ensures
        bound_unless_described(info, seq![27u8, 91u8, 50u8, 59u8, 50u8, 126u8], Key { modifier: Modifier { bits: 8 }, value: Value::Insert }),
{
    lemma_group_0(seq![27u8, 91u8, 50u8, 59u8, 50u8, 126u8]);
    lemma_group_1(seq![27u8, 91u8, 50u8, 59u8, 50u8, 126u8]);
    lemma_default_groups(seq![27u8, 91u8, 50u8, 59u8, 50u8, 126u8]);
    if !described(info, seq![27u8, 91u8, 50u8, 59u8, 50u8, 126u8]) {
        lemma_initial_default(info, seq![27u8, 91u8, 50u8, 59u8, 50u8, 126u8]);
    }
}

proof fn lemma_default_key_14(info: &Capabilities)
    ensures
        bound_unless_described(info, seq![27u8, 91u8, 50u8, 126u8], Key { modifier: Modifier { bits: 0 }, value: Value::Insert }),
{
    lemma_group_0(seq![27u8, 91u8, 50u8, 126u8]);
    lemma_group_1(seq![27u8, 91u8, 50u8, 126u8]);
    lemma_default_groups(seq![27u8, 91u8, 50u8, 126u8]);
    if !described(info, seq![27u8, 91u8, 50u8, 126u8]) {
        lemma_initial_default(info, seq![27u8, 91u8, 50u8, 126u8]);
    }
}

proof fn lemma_default_key_15(info: &Capabilities)
    ensures
        bound_unless_described(info, seq![27u8, 91u8, 49u8, 59u8, 50u8, 72u8], Key { modifier: Modifier { bits: 8 }, value: Value::Home }),
{
    lemma_group_0(seq![27u8, 91u8, 49u8, 59u8, 50u8, 72u8]);
    lemma_group_1(seq![27u8, 91u8, 49u8, 59u8, 50u8, 72u8]);
    lemma_default_groups(seq![27u8, 91u8, 49u8, 59u8, 50u8, 72u8]);
    if !described(info, seq![27u8, 91u8, 49u8, 59u8, 50u8, 72u8]) {
        lemma_initial_default(info, seq![27u8, 91u8, 49u8, 59u8, 50u8, 72u8]);
    }
}

proof fn lemma_default_key_16(info: &Capabilities)
    ensures
        bound_unless_described(info, seq![27u8, 91u8, 72u8], Key { modifier: Modifier { bits: 0 }, value: Value::Home }),
{
    lemma_group_0(seq![27u8, 91u8, 72u8]);
    lemma_group_1(seq![27u8, 91u8, 72u8]);
    lemma_default_groups(seq![27u8, 91u8, 72u8]);
    if !described(info, seq![27u8, 91u8, 72u8]) {
        lemma_initial_default(info, seq![27u8, 91u8, 72u8]);
    }
}

proof fn lemma_default_key_17(info: &Capabilities)
    ensures
        bound_unless_described(info, seq![27u8, 91u8, 49u8, 59u8, 53u8, 70u8], Key { modifier: Modifier { bits: 2 }, value: Value::End }),
{
    lemma_group_0(seq![27u8, 91u8, 49u8, 59u8, 53u8, 70u8]);
    lemma_group_1(seq![27u8, 91u8, 49u8, 59u8, 53u8, 70u8]);
    lemma_default_groups(seq![27u8, 91u8, 49u8, 59u8, 53u8, 70u8]);
    if !described(info, seq![27u8, 91u8, 49u8, 59u8, 53u8, 70u8]) {
        lemma_initial_default(info, seq![27u8, 91u8, 49u8, 59u8, 53u8, 70u8]);
    }
}

proof fn lemma_default_key_18(info: &Capabilities)
    ensures
        bound_unless_described(info, seq![27u8, 91u8, 49u8, 59u8, 50u8, 70u8], Key { modifier: Modifier { bits: 8 }, value: Value::End }),
{
    lemma_group_0(seq![27u8, 91u8, 49u8, 59u8, 50u8, 70u8]);
    lemma_group_1(seq![27u8, 91u8, 49u8, 59u8, 50u8, 70u8]);
    lemma_default_groups(seq![27u8, 91u8, 49u8, 59u8, 50u8, 70u8]);
    if !described(info, seq![27u8, 91u8, 49u8, 59u8, 50u8, 70u8]) {
        lemma_initial_default(info, seq![27u8, 91u8, 49u8, 59u8, 50u8, 70u8]);
    }
}

proof fn lemma_default_key_19(info: &Capabilities)
    ensures
        bound_unless_described(info, seq![27u8, 91u8, 56u8, 126u8], Key { modifier: Modifier { bits: 0 }, value: Value::End }),
{
    lemma_group_0(seq![27u8, 91u8, 56u8, 126u8]);
    lemma_group_1(seq![27u8, 91u8, 56u8, 126u8]);
    lemma_default_groups(seq![27u8, 91u8, 56u8, 126u8]);
    if !described(info, seq![27u8, 91u8, 56u8, 126u8]) {
        lemma_initial_default(info, seq![27u8, 91u8, 56u8, 126u8]);
    }
}

proof fn lemma_default_key_20(info: &Capabilities)
    ensures
        bound_unless_described(info, seq![27u8, 91u8, 69u8], Key { modifier: Modifier { bits: 0 }, value: Value::Begin }),
{
    lemma_group_0(seq![27u8, 91u8, 69u8]);
    lemma_group_1(seq![27u8, 91u8, 69u8]);
    lemma_default_groups(seq![27u8, 91u8, 69u8]);
    if !described(info, seq![27u8, 91u8, 69u8]) {
        lemma_initial_default(info, seq![27u8, 91u8, 69u8]);
    }
}

proof fn lemma_default_key_21(info: &Capabilities)
    ensures
        bound_unless_described(info, seq![27u8, 91u8, 53u8, 59u8, 53u8, 126u8], Key { modifier: Modifier { bits: 2 }, value: Value::PageUp }),
{
    lemma_group_0(seq![27u8, 91u8, 53u8, 59u8, 53u8, 126u8]);
    lemma_group_1(seq![27u8, 91u8, 53u8, 59u8, 53u8, 126u8]);
    lemma_default_groups(seq![27u8, 91u8, 53u8, 59u8, 53u8, 126u8]);
    if !described(info, seq![27u8, 91u8, 53u8, 59u8, 53u8, 126u8]) {
        lemma_initial_default(info, seq![27u8, 91u8, 53u8, 59u8, 53u8, 126u8]);
    }
}

proof fn lemma_default_key_22(info: &Capabilities)
    ensures
        bound_unless_described(info, seq![27u8, 91u8, 53u8, 59u8, 50u8, 126u8], Key { modifier: Modifier { bits: 8 }, value: Value::PageUp }),
{
    lemma_group_0(seq![27u8, 91u8, 53u8, 59u8, 50u8, 126u8]);
    lemma_group_1(seq![27u8, 91u8, 53u8, 59u8, 50u8, 126u8]);
    lemma_group_2(seq![27u8, 91u8, 53u8, 59u8, 50u8, 126u8]);
    lemma_default_groups(seq![27u8, 91u8, 53u8, 59u8, 50u8, 126u8]);
    if !described(info, seq![27u8, 91u8, 53u8, 59u8, 50u8, 126u8]) {
        lemma_initial_default(info, seq![27u8, 91u8, 53u8, 59u8, 50u8, 126u8]);
    }
}

proof fn lemma_default_key_23(info: &Capabilities)
    ensures
        bound_unless_described(info, seq![27u8, 91u8, 53u8, 126u8], Key { modifier: Modifier { bits: 0 }, value: Value::PageUp }),
{
    lemma_group_0(seq![27u8, 91u8, 53u8, 126u8]);
    lemma_group_1(seq![27u8, 91u8, 53u8, 126u8]);
    lemma_group_2(seq![27u8, 91u8, 53u8, 126u8]);
    lemma_default_groups(seq![27u8, 91u8, 53u8, 126u8]);
    if !described(info, seq![27u8, 91u8, 53u8, 126u8]) {
        lemma_initial_default(info, seq![27u8, 91u8, 53u8, 126u8]);
    }
}

proof fn lemma_default_key_24(info: &Capabilities)
    ensures
        bound_unless_described(info, seq![27u8, 91u8, 54u8, 59u8, 53u8, 126u8], Key { modifier: Modifier { bits: 2 }, value: Value::PageDown }),
{
    lemma_group_0(seq![27u8, 91u8, 54u8, 59u8, 53u8, 126u8]);
    lemma_group_1(seq![27u8, 91u8, 54u8, 59u8, 53u8, 126u8]);
    lemma_group_2(seq![27u8, 91u8, 54u8, 59u8, 53u8, 126u8]);
    lemma_default_groups(seq![27u8, 91u8, 54u8, 59u8, 53u8, 126u8]);
    if !described(info, seq![27u8, 91u8, 54u8, 59u8, 53u8, 126u8]) {
        lemma_initial_default(info, seq![27u8, 91u8, 54u8, 59u8, 53u8, 126u8]);
    }
}

proof fn lemma_default_key_25(info: &Capabilities)
    ensures
        bound_unless_described(info, seq![27u8, 91u8, 54u8, 59u8, 50u8, 126u8], Key { modifier: Modifier { bits: 8 }, value: Value::PageDown }),
{
    lemma_group_0(seq![27u8, 91u8, 54u8, 59u8, 50u8, 126u8]);
    lemma_group_1(seq![27u8, 91u8, 54u8, 59u8, 50u8, 126u8]);
    lemma_group_2(seq![27u8, 91u8, 54u8, 59u8, 50u8, 126u8]);
    lemma_default_groups(seq![27u8, 91u8, 54u8, 59u8, 50u8, 126u8]);
    if !described(info, seq![27u8, 91u8, 54u8, 59u8, 50u8, 126u8]) {
        lemma_initial_default(info, seq![27u8, 91u8, 54u8, 59u8, 50u8, 126u8]);
    }
}

proof fn lemma_default_key_26(info: &Capabilities)
    ensures
        bound_unless_described(info, seq![27u8, 91u8, 54u8, 126u8], Key { modifier: Modifier { bits: 0 }, value: Value::PageDown }),
{
    lemma_group_0(seq![27u8, 91u8, 54u8, 126u8]);
    lemma_group_1(seq![27u8, 91u8, 54u8, 126u8]);
    lemma_group_2(seq![27u8, 91u8, 54u8, 126u8]);
    lemma_default_groups(seq![27u8, 91u8, 54u8, 126u8]);
    if !described(info, seq![27u8, 91u8, 54u8, 126u8]) {
        lemma_initial_default(info, seq![27u8, 91u8, 54u8, 126u8]);
    }
}

proof fn lemma_default_key_27(info: &Capabilities)
    ensures
        bound_unless_described(info, seq![27u8, 91u8, 49u8, 59u8, 53u8, 65u8], Key { modifier: Modifier { bits: 2 }, value: Value::Up }),
{
    lemma_group_0(seq![27u8, 91u8, 49u8, 59u8, 53u8, 65u8]);
    lemma_group_1(seq![27u8, 91u8, 49u8, 59u8, 53u8, 65u8]);
    lemma_group_2(seq![27u8, 91u8, 49u8, 59u8, 53u8, 65u8]);
    lemma_default_groups(seq![27u8, 91u8, 49u8, 59u8, 53u8, 65u8]);
    if !described(info, seq![27u8, 91u8, 49u8, 59u8, 53u8, 65u8]) {
        lemma_initial_default(info, seq![27u8, 91u8, 49u8, 59u8, 53u8, 65u8]);
    }
}

proof fn lemma_default_key_28(info: &Capabilities)
    ensures
        bound_unless_described(info, seq![27u8, 91u8, 49u8, 59u8, 51u8, 65u8], Key { modifier: Modifier { bits: 1 }, value: Value::Up }),
{
    lemma_group_0(seq![27u8, 91u8, 49u8, 59u8, 51u8, 65u8]);
    lemma_group_1(seq![27u8, 91u8, 49u8, 59u8, 51u8, 65u8]);
    lemma_group_2(seq![27u8, 91u8, 49u8, 59u8, 51u8, 65u8]);
    lemma_default_groups(seq![27u8, 91u8, 49u8, 59u8, 51u8, 65u8]);
    if !described(info, seq![27u8, 91u8, 49u8, 59u8, 51u8, 65u8]) {
        lemma_initial_default(info, seq![27u8, 91u8, 49u8, 59u8, 51u8, 65u8]);
    }
}

proof fn lemma_default_key_29(info: &Capabilities)
    ensures
        bound_unless_described(info, seq![27u8, 91u8, 49u8, 59u8, 50u8, 65u8], Key { modifier: Modifier { bits: 8 }, value: Value::Up }),
{
    lemma_group_0(seq![27u8, 91u8, 49u8, 59u8, 50u8, 65u8]);
    lemma_group_1(seq![27u8, 91u8, 49u8, 59u8, 50u8, 65u8]);
    lemma_group_2(seq![27u8, 91u8, 49u8, 59u8, 50u8, 65u8]);
    lemma_default_groups(seq![27u8, 91u8, 49u8, 59u8, 50u8, 65u8]);
    if !described(info, seq![27u8, 91u8, 49u8, 59u8, 50u8, 65u8]) {
        lemma_initial_default(info, seq![27u8, 91u8, 49u8, 59u8, 50u8, 65u8]);
    }
}

proof fn lemma_default_key_30(info: &Capabilities)
    ensures
        bound_unless_described(info, seq![27u8, 66u8, 79u8, 65u8], Key { modifier: Modifier { bits: 0 }, value: Value::Up }),
{
    lemma_group_0(seq![27u8, 66u8, 79u8, 65u8]);
    lemma_group_1(seq![27u8, 66u8, 79u8, 65u8]);
    lemma_group_2(seq![27u8, 66u8, 79u8, 65u8]);
    lemma_default_groups(seq![27u8, 66u8, 79u8, 65u8]);
    if !described(info, seq![27u8, 66u8, 79u8, 65u8]) {
        lemma_initial_default(info, seq![27u8, 66u8, 79u8, 65u8]);
    }
}

proof fn lemma_default_key_31(info: &Capabilities)
    ensures
        bound_unless_described(info, seq![27u8, 91u8, 49u8, 59u8, 53u8, 66u8], Key { modifier: Modifier { bits: 2 }, value: Value::Down }),
{
    lemma_group_0(seq![27u8, 91u8, 49u8, 59u8, 53u8, 66u8]);
    lemma_group_1(seq![27u8, 91u8, 49u8, 59u8, 53u8, 66u8]);
    lemma_group_2(seq![27u8, 91u8, 49u8, 59u8, 53u8, 66u8]);
    lemma_default_groups(seq![27u8, 91u8, 49u8, 59u8, 53u8, 66u8]);
    if !described(info, seq![27u8, 91u8, 49u8, 59u8, 53u8, 66u8]) {
        lemma_initial_default(info, seq![27u8, 91u8, 49u8, 59u8, 53u8, 66u8]);
    }
}

proof fn lemma_default_key_32(info: &Capabilities)
    ensures
        bound_unless_described(info, seq![27u8, 91u8, 49u8, 59u8, 51u8, 66u8], Key { modifier: Modifier { bits: 1 }, value: Value::Down }),
{
    lemma_group_0(seq![27u8, 91u8, 49u8, 59u8, 51u8, 66u8]);
    lemma_group_1(seq![27u8, 91u8, 49u8, 59u8, 51u8, 66u8]);
    lemma_group_2(seq![27u8, 91u8, 49u8, 59u8, 51u8, 66u8]);
    lemma_default_groups(seq![27u8, 91u8, 49u8, 59u8, 51u8, 66u8]);
    if !described(info, seq![27u8, 91u8, 49u8, 59u8, 51u8, 66u8]) {
        lemma_initial_default(info, seq![27u8, 91u8, 49u8, 59u8, 51u8, 66u8]);
    }
}

proof fn lemma_default_key_33(info: &Capabilities)
    ensures
        bound_unless_described(info, seq![27u8, 91u8, 49u8, 59u8, 50u8, 66u8], Key { modifier: Modifier { bits: 8 }, value: Value::Down }),
{
    lemma_group_0(seq![27u8, 91u8, 49u8, 59u8, 50u8, 66u8]);
    lemma_group_1(seq![27u8, 91u8, 49u8, 59u8, 50u8, 66u8]);
    lemma_group_2(seq![27u8, 91u8, 49u8, 59u8, 50u8, 66u8]);
    lemma_group_3(seq![27u8, 91u8, 49u8, 59u8, 50u8, 66u8]);
    lemma_default_groups(seq![27u8, 91u8, 49u8, 59u8, 50u8, 66u8]);
    if !described(info, seq![27u8, 91u8, 49u8, 59u8, 50u8, 66u8]) {
        lemma_initial_default(info, seq![27u8, 91u8, 49u8, 59u8, 50u8, 66u8]);
    }
}

proof fn lemma_default_key_34(info: &Capabilities)
    ensures
        bound_unless_described(info, seq![27u8, 66u8, 79u8, 66u8], Key { modifier: Modifier { bits: 0 }, value: Value::Down }),
{
    lemma_group_0(seq![27u8, 66u8, 79u8, 66u8]);
    lemma_group_1(seq![27u8, 66u8, 79u8, 66u8]);
    lemma_group_2(seq![27u8, 66u8, 79u8, 66u8]);
    lemma_group_3(seq![27u8, 66u8, 79u8, 66u8]);
    lemma_default_groups(seq![27u8, 66u8, 79u8, 66u8]);
    if !described(info, seq![27u8, 66u8, 79u8, 66u8]) {
        lemma_initial_default(info, seq![27u8, 66u8, 79u8, 66u8]);
    }
}

proof fn lemma_default_key_35(info: &Capabilities)
    ensures
        bound_unless_described(info, seq![27u8, 91u8, 49u8, 59u8, 53u8, 67u8], Key { modifier: Modifier { bits: 2 }, value: Value::Right }),
{
    lemma_group_0(seq![27u8, 91u8, 49u8, 59u8, 53u8, 67u8]);
    lemma_group_1(seq![27u8, 91u8, 49u8, 59u8, 53u8, 67u8]);
    lemma_group_2(seq![27u8, 91u8, 49u8, 59u8, 53u8, 67u8]);
    lemma_group_3(seq![27u8, 91u8, 49u8, 59u8, 53u8, 67u8]);
    lemma_default_groups(seq![27u8, 91u8, 49u8, 59u8, 53u8, 67u8]);
    if !described(info, seq![27u8, 91u8, 49u8, 59u8, 53u8, 67u8]) {
        lemma_initial_default(info, seq![27u8, 91u8, 49u8, 59u8, 53u8, 67u8]);
    }
}

proof fn lemma_default_key_36(info: &Capabilities)
    ensures
        bound_unless_described(info, seq![27u8, 91u8, 49u8, 59u8, 51u8, 67u8], Key { modifier: Modifier { bits: 1 }, value: Value::Right }),
{
    lemma_group_0(seq![27u8, 91u8, 49u8, 59u8, 51u8, 67u8]);
    lemma_group_1(seq![27u8, 91u8, 49u8, 59u8, 51u8, 67u8]);
    lemma_group_2(seq![27u8, 91u8, 49u8, 59u8, 51u8, 67u8]);
    lemma_group_3(seq![27u8, 91u8, 49u8, 59u8, 51u8, 67u8]);
    lemma_default_groups(seq![27u8, 91u8, 49u8, 59u8, 51u8, 67u8]);
    if !described(info, seq![27u8, 91u8, 49u8, 59u8, 51u8, 67u8]) {
        lemma_initial_default(info, seq![27u8, 91u8, 49u8, 59u8, 51u8, 67u8]);
    }
}

proof fn lemma_default_key_37(info: &Capabilities)
    ensures
        bound_unless_described(info, seq![27u8, 91u8, 49u8, 59u8, 50u8, 67u8], Key { modifier: Modifier { bits: 8 }, value: Value::Right }),
{
    lemma_group_0(seq![27u8, 91u8, 49u8, 59u8, 50u8, 67u8]);
    lemma_group_1(seq![27u8, 91u8, 49u8, 59u8, 50u8, 67u8]);
    lemma_group_2(seq![27u8, 91u8, 49u8, 59u8, 50u8, 67u8]);
    lemma_group_3(seq![27u8, 91u8, 49u8, 59u8, 50u8, 67u8]);
    lemma_default_groups(seq![27u8, 91u8, 49u8, 59u8, 50u8, 67u8]);
    if !described(info, seq![27u8, 91u8, 49u8, 59u8, 50u8, 67u8]) {
        lemma_initial_default(info, seq![27u8, 91u8, 49u8, 59u8, 50u8, 67u8]);
    }
}

proof fn lemma_default_key_38(info: &Capabilities)
    ensures
        bound_unless_described(info, seq![27u8, 66u8, 79u8, 67u8], Key { modifier: Modifier { bits: 0 }, value: Value::Right }),
{
    lemma_group_0(seq![27u8, 66u8, 79u8, 67u8]);
    lemma_group_1(seq![27u8, 66u8, 79u8, 67u8]);
    lemma_group_2(seq![27u8, 66u8, 79u8, 67u8]);
    lemma_group_3(seq![27u8, 66u8, 79u8, 67u8]);
    lemma_default_groups(seq![27u8, 66u8, 79u8, 67u8]);
    if !described(info, seq![27u8, 66u8, 79u8, 67u8]) {
        lemma_initial_default(info, seq![27u8, 66u8, 79u8, 67u8]);
    }
}

proof fn lemma_default_key_39(info: &Capabilities)
    ensures
        bound_unless_described(info, seq![27u8, 91u8, 49u8, 59u8, 53u8, 68u8], Key { modifier: Modifier { bits: 2 }, value: Value::Left }),
{
    lemma_group_0(seq![27u8, 91u8, 49u8, 59u8, 53u8, 68u8]);
    lemma_group_1(seq![27u8, 91u8, 49u8, 59u8, 53u8, 68u8]);
    lemma_group_2(seq![27u8, 91u8, 49u8, 59u8, 53u8, 68u8]);
    lemma_group_3(seq![27u8, 91u8, 49u8, 59u8, 53u8, 68u8]);
    lemma_default_groups(seq![27u8, 91u8, 49u8, 59u8, 53u8, 68u8]);
    if !described(info, seq![27u8, 91u8, 49u8, 59u8, 53u8, 68u8]) {
        lemma_initial_default(info, seq![27u8, 91u8, 49u8, 59u8, 53u8, 68u8]);
    }
}

proof fn lemma_default_key_40(info: &Capabilities)
    ensures
        bound_unless_described(info, seq![27u8, 91u8, 49u8, 59u8, 51u8, 68u8], Key { modifier: Modifier { bits: 1 }, value: Value::Left }),
{
    lemma_group_0(seq![27u8, 91u8, 49u8, 59u8, 51u8, 68u8]);
    lemma_group_1(seq![27u8, 91u8, 49u8, 59u8, 51u8, 68u8]);
    lemma_group_2(seq![27u8, 91u8, 49u8, 59u8, 51u8, 68u8]);
    lemma_group_3(seq![27u8, 91u8, 49u8, 59u8, 51u8, 68u8]);
    lemma_default_groups(seq![27u8, 91u8, 49u8, 59u8, 51u8, 68u8]);
    if !described(info, seq![27u8, 91u8, 49u8, 59u8, 51u8, 68u8]) {
        lemma_initial_default(info, seq![27u8, 91u8, 49u8, 59u8, 51u8, 68u8]);
    }
}

proof fn lemma_default_key_41(info: &Capabilities)
    ensures
        bound_unless_described(info, seq![27u8, 91u8, 49u8, 59u8, 50u8, 68u8], Key { modifier: Modifier { bits: 8 }, value: Value::Left }),
{
    lemma_group_0(seq![27u8, 91u8, 49u8, 59u8, 50u8, 68u8]);
    lemma_group_1(seq![27u8, 91u8, 49u8, 59u8, 50u8, 68u8]);
    lemma_group_2(seq![27u8, 91u8, 49u8, 59u8, 50u8, 68u8]);
    lemma_group_3(seq![27u8, 91u8, 49u8, 59u8, 50u8, 68u8]);
    lemma_default_groups(seq![27u8, 91u8, 49u8, 59u8, 50u8, 68u8]);
    if !described(info, seq![27u8, 91u8, 49u8, 59u8, 50u8, 68u8]) {
        lemma_initial_default(info, seq![27u8, 91u8, 49u8, 59u8, 50u8, 68u8]);
    }
}

proof fn lemma_default_key_42(info: &Capabilities)
    ensures
        bound_unless_described(info, seq![27u8, 66u8, 79u8, 68u8], Key { modifier: Modifier { bits: 0 }, value: Value::Left }),
{
    lemma_group_0(seq![27u8, 66u8, 79u8, 68u8]);
    lemma_group_1(seq![27u8, 66u8, 79u8, 68u8]);
    lemma_group_2(seq![27u8, 66u8, 79u8, 68u8]);
    lemma_group_3(seq![27u8, 66u8, 79u8, 68u8]);
    lemma_default_groups(seq![27u8, 66u8, 79u8, 68u8]);
    if !described(info, seq![27u8, 66u8, 79u8, 68u8]) {
        lemma_initial_default(info, seq![27u8, 66u8, 79u8, 68u8]);
    }
}

proof fn lemma_default_key_43(info: &Capabilities)
    ensures
        bound_unless_described(info, seq![27u8, 91u8, 49u8, 59u8, 53u8, 80u8], Key { modifier: Modifier { bits: 2 }, value: Value::F(1) }),
{
    lemma_group_0(seq![27u8, 91u8, 49u8, 59u8, 53u8, 80u8]);
    lemma_group_1(seq![27u8, 91u8, 49u8, 59u8, 53u8, 80u8]);
    lemma_group_2(seq![27u8, 91u8, 49u8, 59u8, 53u8, 80u8]);
    lemma_group_3(seq![27u8, 91u8, 49u8, 59u8, 53u8, 80u8]);
    lemma_default_groups(seq![27u8, 91u8, 49u8, 59u8, 53u8, 80u8]);
    if !described(info, seq![27u8, 91u8, 49u8, 59u8, 53u8, 80u8]) {
        lemma_initial_default(info, seq![27u8, 91u8, 49u8, 59u8, 53u8, 80u8]);
    }
}

proof fn lemma_default_key_44(info: &Capabilities)
    ensures
        bound_unless_described(info, seq![27u8, 91u8, 49u8, 59u8, 51u8, 80u8], Key { modifier: Modifier { bits: 1 }, value: Value::F(1) }),
{
    lemma_group_0(seq![27u8, 91u8, 49u8, 59u8, 51u8, 80u8]);
    lemma_group_1(seq![27u8, 91u8, 49u8, 59u8, 51u8, 80u8]);
    lemma_group_2(seq![27u8, 91u8, 49u8, 59u8, 51u8, 80u8]);
    lemma_group_3(seq![27u8, 91u8, 49u8, 59u8, 51u8, 80u8]);
    lemma_group_4(seq![27u8, 91u8, 49u8, 59u8, 51u8, 80u8]);
    lemma_default_groups(seq![27u8, 91u8, 49u8, 59u8, 51u8, 80u8]);
    if !described(info, seq![27u8, 91u8, 49u8, 59u8, 51u8, 80u8]) {
        lemma_initial_default(info, seq![27u8, 91u8, 49u8, 59u8, 51u8, 80u8]);
    }
}

proof fn lemma_default_key_45(info: &Capabilities)
    ensures
        bound_unless_described(info, seq![27u8, 91u8, 49u8, 59u8, 54u8, 80u8], Key { modifier: Modifier { bits: 4 }, value: Value::F(1) }),
{
    lemma_group_0(seq![27u8, 91u8, 49u8, 59u8, 54u8, 80u8]);
    lemma_group_1(seq![27u8, 91u8, 49u8, 59u8, 54u8, 80u8]);
    lemma_group_2(seq![27u8, 91u8, 49u8, 59u8, 54u8, 80u8]);
    lemma_group_3(seq![27u8, 91u8, 49u8, 59u8, 54u8, 80u8]);
    lemma_group_4(seq![27u8, 91u8, 49u8, 59u8, 54u8, 80u8]);
    lemma_default_groups(seq![27u8, 91u8, 49u8, 59u8, 54u8, 80u8]);
    if !described(info, seq![27u8, 91u8, 49u8, 59u8, 54u8, 80u8]) {
        lemma_initial_default(info, seq![27u8, 91u8, 49u8, 59u8, 54u8, 80u8]);
    }
}

proof fn lemma_default_key_46(info: &Capabilities)
    ensures
        bound_unless_described(info, seq![27u8, 91u8, 49u8, 59u8, 50u8, 80u8], Key { modifier: Modifier { bits: 8 }, value: Value::F(1) }),
{
    lemma_group_0(seq![27u8, 91u8, 49u8, 59u8, 50u8, 80u8]);
    lemma_group_1(seq![27u8, 91u8, 49u8, 59u8, 50u8, 80u8]);
    lemma_group_2(seq![27u8, 91u8, 49u8, 59u8, 50u8, 80u8]);
    lemma_group_3(seq![27u8, 91u8, 49u8, 59u8, 50u8, 80u8]);
    lemma_group_4(seq![27u8, 91u8, 49u8, 59u8, 50u8, 80u8]);
    lemma_default_groups(seq![27u8, 91u8, 49u8, 59u8, 50u8, 80u8]);
    if !described(info, seq![27u8, 91u8, 49u8, 59u8, 50u8, 80u8]) {
        lemma_initial_default(info, seq![27u8, 91u8, 49u8, 59u8, 50u8, 80u8]);
    }
}

proof fn lemma_default_key_47(info: &Capabilities)
    ensures
        bound_unless_described(info, seq![27u8, 79u8, 80u8], Key { modifier: Modifier { bits: 0 }, value: Value::F(1) }),
{
    lemma_group_0(seq![27u8, 79u8, 80u8]);
    lemma_group_1(seq![27u8, 79u8, 80u8]);
    lemma_group_2(seq![27u8, 79u8, 80u8]);
    lemma_group_3(seq![27u8, 79u8, 80u8]);
    lemma_group_4(seq![27u8, 79u8, 80u8]);
    lemma_default_groups(seq![27u8, 79u8, 80u8]);
    if !described(info, seq![27u8, 79u8, 80u8]) {
        lemma_initial_default(info, seq![27u8, 79u8, 80u8]);
    }
}

proof fn lemma_default_key_48(info: &Capabilities)
    ensures
        bound_unless_described(info, seq![27u8, 91u8, 49u8, 59u8, 53u8, 81u8], Key { modifier: Modifier { bits: 2 }, value: Value::F(2) }),
{
    lemma_group_0(seq![27u8, 91u8, 49u8, 59u8, 53u8, 81u8]);
    lemma_group_1(seq![27u8, 91u8, 49u8, 59u8, 53u8, 81u8]);
    lemma_group_2(seq![27u8, 91u8, 49u8, 59u8, 53u8, 81u8]);
    lemma_group_3(seq![27u8, 91u8, 49u8, 59u8, 53u8, 81u8]);
    lemma_group_4(seq![27u8, 91u8, 49u8, 59u8, 53u8, 81u8]);
    lemma_default_groups(seq![27u8, 91u8, 49u8, 59u8, 53u8, 81u8]);
    if !described(info, seq![27u8, 91u8, 49u8, 59u8, 53u8, 81u8]) {
        lemma_initial_default(info, seq![27u8, 91u8, 49u8, 59u8, 53u8, 81u8]);
    }
}

proof fn lemma_default_key_49(info: &Capabilities)
    ensures
        bound_unless_described(info, seq![27u8, 91u8, 49u8, 59u8, 51u8, 81u8], Key { modifier: Modifier { bits: 1 }, value: Value::F(2) }),
{
    lemma_group_0(seq![27u8, 91u8, 49u8, 59u8, 51u8, 81u8]);
    lemma_group_1(seq![27u8, 91u8, 49u8, 59u8, 51u8, 81u8]);
    lemma_group_2(seq![27u8, 91u8, 49u8, 59u8, 51u8, 81u8]);
    lemma_group_3(seq![27u8, 91u8, 49u8, 59u8, 51u8, 81u8]);
    lemma_group_4(seq![27u8, 91u8, 49u8, 59u8, 51u8, 81u8]);
    lemma_default_groups(seq![27u8, 91u8, 49u8, 59u8, 51u8, 81u8]);
    if !described(info, seq![27u8, 91u8, 49u8, 59u8, 51u8, 81u8]) {
        lemma_initial_default(info, seq![27u8, 91u8, 49u8, 59u8, 51u8, 81u8]);
    }
}

proof fn lemma_default_key_50(info: &Capabilities)
    ensures
        bound_unless_described(info, seq![27u8, 91u8, 49u8, 59u8, 54u8, 81u8], Key { modifier: Modifier { bits: 4 }, value: Value::F(2) }),
{
    lemma_group_0(seq![27u8, 91u8, 49u8, 59u8, 54u8, 81u8]);
    lemma_group_1(seq![27u8, 91u8, 49u8, 59u8, 54u8, 81u8]);
    lemma_group_2(seq![27u8, 91u8, 49u8, 59u8, 54u8, 81u8]);
    lemma_group_3(seq![27u8, 91u8, 49u8, 59u8, 54u8, 81u8]);
    lemma_group_4(seq![27u8, 91u8, 49u8, 59u8, 54u8, 81u8]);
    lemma_default_groups(seq![27u8, 91u8, 49u8, 59u8, 54u8, 81u8]);
    if !described(info, seq![27u8, 91u8, 49u8, 59u8, 54u8, 81u8]) {
        lemma_initial_default(info, seq![27u8, 91u8, 49u8, 59u8, 54u8, 81u8]);
    }
}

proof fn lemma_default_key_51(info: &Capabilities)
    ensures
        bound_unless_described(info, seq![27u8, 91u8, 49u8, 59u8, 50u8, 81u8], Key { modifier: Modifier { bits: 8 }, value: Value::F(2) }),
{
    lemma_group_0(seq![27u8, 91u8, 49u8, 59u8, 50u8, 81u8]);
    lemma_group_1(seq![27u8, 91u8, 49u8, 59u8, 50u8, 81u8]);
    lemma_group_2(seq![27u8, 91u8, 49u8, 59u8, 50u8, 81u8]);
    lemma_group_3(seq![27u8, 91u8, 49u8, 59u8, 50u8, 81u8]);
    lemma_group_4(seq![27u8, 91u8, 49u8, 59u8, 50u8, 81u8]);
    lemma_default_groups(seq![27u8, 91u8, 49u8, 59u8, 50u8, 81u8]);
    if !described(info, seq![27u8, 91u8, 49u8, 59u8, 50u8, 81u8]) {
        lemma_initial_default(info, seq![27u8, 91u8, 49u8, 59u8, 50u8, 81u8]);
    }
}

proof fn lemma_default_key_52(info: &Capabilities)
    ensures
        bound_unless_described(info, seq![27u8, 79u8, 81u8], Key { modifier: Modifier { bits: 0 }, value: Value::F(2) }),
{
    lemma_group_0(seq![27u8, 79u8, 81u8]);
    lemma_group_1(seq![27u8, 79u8, 81u8]);
    lemma_group_2(seq![27u8, 79u8, 81u8]);
    lemma_group_3(seq![27u8, 79u8, 81u8]);
    lemma_group_4(seq![27u8, 79u8, 81u8]);
    lemma_default_groups(seq![27u8, 79u8, 81u8]);
    if !described(info, seq![27u8, 79u8, 81u8]) {
        lemma_initial_default(info, seq![27u8, 79u8, 81u8]);
    }
}

proof fn lemma_default_key_53(info: &Capabilities)
    ensures
        bound_unless_described(info, seq![27u8, 91u8, 49u8, 59u8, 53u8, 82u8], Key { modifier: Modifier { bits: 2 }, value: Value::F(3) }),
{
    lemma_group_0(seq![27u8, 91u8, 49u8, 59u8, 53u8, 82u8]);
    lemma_group_1(seq![27u8, 91u8, 49u8, 59u8, 53u8, 82u8]);
    lemma_group_2(seq![27u8, 91u8, 49u8, 59u8, 53u8, 82u8]);
    lemma_group_3(seq![27u8, 91u8, 49u8, 59u8, 53u8, 82u8]);
    lemma_group_4(seq![27u8, 91u8, 49u8, 59u8, 53u8, 82u8]);
    lemma_default_groups(seq![27u8, 91u8, 49u8, 59u8, 53u8, 82u8]);
    if !described(info, seq![27u8, 91u8, 49u8, 59u8, 53u8, 82u8]) {
        lemma_initial_default(info, seq![27u8, 91u8, 49u8, 59u8, 53u8, 82u8]);
    }
}

proof fn lemma_default_key_54(info: &Capabilities)
    ensures
        bound_unless_described(info, seq![27u8, 91u8, 49u8, 59u8, 51u8, 82u8], Key { modifier: Modifier { bits: 1 }, value: Value::F(3) }),
{
    lemma_group_0(seq![27u8, 91u8, 49u8, 59u8, 51u8, 82u8]);
    lemma_group_1(seq![27u8, 91u8, 49u8, 59u8, 51u8, 82u8]);
    lemma_group_2(seq![27u8, 91u8, 49u8, 59u8, 51u8, 82u8]);
    lemma_group_3(seq![27u8, 91u8, 49u8, 59u8, 51u8, 82u8]);
    lemma_group_4(seq![27u8, 91u8, 49u8, 59u8, 51u8, 82u8]);
    lemma_default_groups(seq![27u8, 91u8, 49u8, 59u8, 51u8, 82u8]);
    if !described(info, seq![27u8, 91u8, 49u8, 59u8, 51u8, 82u8]) {
        lemma_initial_default(info, seq![27u8, 91u8, 49u8, 59u8, 51u8, 82u8]);
    }
}

proof fn lemma_default_key_55(info: &Capabilities)
    ensures
        bound_unless_described(info, seq![27u8, 91u8, 49u8, 59u8, 54u8, 82u8], Key { modifier: Modifier { bits: 4 }, value: Value::F(3) }),
{
    lemma_group_0(seq![27u8, 91u8, 49u8, 59u8, 54u8, 82u8]);
    lemma_group_1(seq![27u8, 91u8, 49u8, 59u8, 54u8, 82u8]);
    lemma_group_2(seq![27u8, 91u8, 49u8, 59u8, 54u8, 82u8]);
    lemma_group_3(seq![27u8, 91u8, 49u8, 59u8, 54u8, 82u8]);
    lemma_group_4(seq![27u8, 91u8, 49u8, 59u8, 54u8, 82u8]);
    lemma_group_5(seq![27u8, 91u8, 49u8, 59u8, 54u8, 82u8]);
    lemma_default_groups(seq![27u8, 91u8, 49u8, 59u8, 54u8, 82u8]);
    if !described(info, seq![27u8, 91u8, 49u8, 59u8, 54u8, 82u8]) {
        lemma_initial_default(info, seq![27u8, 91u8, 49u8, 59u8, 54u8, 82u8]);
    }
}

proof fn lemma_default_key_56(info: &Capabilities)
    ensures
        bound_unless_described(info, seq![27u8, 91u8, 49u8, 59u8, 50u8, 82u8], Key { modifier: Modifier { bits: 8 }, value: Value::F(3) }),
{
    lemma_group_0(seq![27u8, 91u8, 49u8, 59u8, 50u8, 82u8]);
    lemma_group_1(seq![27u8, 91u8, 49u8, 59u8, 50u8, 82u8]);
    lemma_group_2(seq![27u8, 91u8, 49u8, 59u8, 50u8, 82u8]);
    lemma_group_3(seq![27u8, 91u8, 49u8, 59u8, 50u8, 82u8]);
    lemma_group_4(seq![27u8, 91u8, 49u8, 59u8, 50u8, 82u8]);
    lemma_group_5(seq![27u8, 91u8, 49u8, 59u8, 50u8, 82u8]);
    lemma_default_groups(seq![27u8, 91u8, 49u8, 59u8, 50u8, 82u8]);
    if !described(info, seq![27u8, 91u8, 49u8, 59u8, 50u8, 82u8]) {
        lemma_initial_default(info, seq![27u8, 91u8, 49u8, 59u8, 50u8, 82u8]);
    }
}

proof fn lemma_default_key_57(info: &Capabilities)
    ensures
        bound_unless_described(info, seq![27u8, 79u8, 82u8], Key { modifier: Modifier { bits: 0 }, value: Value::F(3) }),
{
    lemma_group_0(seq![27u8, 79u8, 82u8]);
    lemma_group_1(seq![27u8, 79u8, 82u8]);
    lemma_group_2(seq![27u8, 79u8, 82u8]);
    lemma_group_3(seq![27u8, 79u8, 82u8]);
    lemma_group_4(seq![27u8, 79u8, 82u8]);
    lemma_group_5(seq![27u8, 79u8, 82u8]);
    lemma_default_groups(seq![27u8, 79u8, 82u8]);
    if !described(info, seq![27u8, 79u8, 82u8]) {
        lemma_initial_default(info, seq![27u8, 79u8, 82u8]);
    }
}

proof fn lemma_default_key_58(info: &Capabilities)
    ensures
        bound_unless_described(info, seq![27u8, 91u8, 49u8, 59u8, 53u8, 83u8], Key { modifier: Modifier { bits: 2 }, value: Value::F(4) }),
{
    lemma_group_0(seq![27u8, 91u8, 49u8, 59u8, 53u8, 83u8]);
    lemma_group_1(seq![27u8, 91u8, 49u8, 59u8, 53u8, 83u8]);
    lemma_group_2(seq![27u8, 91u8, 49u8, 59u8, 53u8, 83u8]);
    lemma_group_3(seq![27u8, 91u8, 49u8, 59u8, 53u8, 83u8]);
    lemma_group_4(seq![27u8, 91u8, 49u8, 59u8, 53u8, 83u8]);
    lemma_group_5(seq![27u8, 91u8, 49u8, 59u8, 53u8, 83u8]);
    lemma_default_groups(seq![27u8, 91u8, 49u8, 59u8, 53u8, 83u8]);
    if !described(info, seq![27u8, 91u8, 49u8, 59u8, 53u8, 83u8]) {
        lemma_initial_default(info, seq![27u8, 91u8, 49u8, 59u8, 53u8, 83u8]);
    }
}

proof fn lemma_default_key_59(info: &Capabilities)
    ensures
        bound_unless_described(info, seq![27u8, 91u8, 49u8, 59u8, 51u8, 83u8], Key { modifier: Modifier { bits: 1 }, value: Value::F(4) }),
{
    lemma_group_0(seq![27u8, 91u8, 49u8, 59u8, 51u8, 83u8]);
    lemma_group_1(seq![27u8, 91u8, 49u8, 59u8, 51u8, 83u8]);
    lemma_group_2(seq![27u8, 91u8, 49u8, 59u8, 51u8, 83u8]);
    lemma_group_3(seq![27u8, 91u8, 49u8, 59u8, 51u8, 83u8]);
    lemma_group_4(seq![27u8, 91u8, 49u8, 59u8, 51u8, 83u8]);
    lemma_group_5(seq![27u8, 91u8, 49u8, 59u8, 51u8, 83u8]);
    lemma_default_groups(seq![27u8, 91u8, 49u8, 59u8, 51u8, 83u8]);
    if !described(info, seq![27u8, 91u8, 49u8, 59u8, 51u8, 83u8]) {
        lemma_initial_default(info, seq![27u8, 91u8, 49u8, 59u8, 51u8, 83u8]);
    }
}

proof fn lemma_default_key_60(info: &Capabilities)
    ensures
        bound_unless_described(info, seq![27u8, 91u8, 49u8, 59u8, 54u8, 83u8], Key { modifier: Modifier { bits: 4 }, value: Value::F(4) }),
{
    lemma_group_0(seq![27u8, 91u8, 49u8, 59u8, 54u8, 83u8]);
    lemma_group_1(seq![27u8, 91u8, 49u8, 59u8, 54u8, 83u8]);
    lemma_group_2(seq![27u8, 91u8, 49u8, 59u8, 54u8, 83u8]);
    lemma_group_3(seq![27u8, 91u8, 49u8, 59u8, 54u8, 83u8]);
    lemma_group_4(seq![27u8, 91u8, 49u8, 59u8, 54u8, 83u8]);
    lemma_group_5(seq![27u8, 91u8, 49u8, 59u8, 54u8, 83u8]);
    lemma_default_groups(seq![27u8, 91u8, 49u8, 59u8, 54u8, 83u8]);
    if !described(info, seq![27u8, 91u8, 49u8, 59u8, 54u8, 83u8]) {
        lemma_initial_default(info, seq![27u8, 91u8, 49u8, 59u8, 54u8, 83u8]);
    }
}

proof fn lemma_default_key_61(info: &Capabilities)
    ensures
        bound_unless_described(info, seq![27u8, 91u8, 49u8, 59u8, 50u8, 83u8], Key { modifier: Modifier { bits: 8 }, value: Value::F(4) }),
{
    lemma_group_0(seq![27u8, 91u8, 49u8, 59u8, 50u8, 83u8]);
    lemma_group_1(seq![27u8, 91u8, 49u8, 59u8, 50u8, 83u8]);
    lemma_group_2(seq![27u8, 91u8, 49u8, 59u8, 50u8, 83u8]);
    lemma_group_3(seq![27u8, 91u8, 49u8, 59u8, 50u8, 83u8]);
    lemma_group_4(seq![27u8, 91u8, 49u8, 59u8, 50u8, 83u8]);
    lemma_group_5(seq![27u8, 91u8, 49u8, 59u8, 50u8, 83u8]);
    lemma_default_groups(seq![27u8, 91u8, 49u8, 59u8, 50u8, 83u8]);
    if !described(info, seq![27u8, 91u8, 49u8, 59u8, 50u8, 83u8]) {
        lemma_initial_default(info, seq![27u8, 91u8, 49u8, 59u8, 50u8, 83u8]);
    }
}

proof fn lemma_default_key_62(info: &Capabilities)
    ensures
        bound_unless_described(info, seq![27u8, 79u8, 83u8], Key { modifier: Modifier { bits: 0 }, value: Value::F(4) }),
{
    lemma_group_0(seq![27u8, 79u8, 83u8]);
    lemma_group_1(seq![27u8, 79u8, 83u8]);
    lemma_group_2(seq![27u8, 79u8, 83u8]);
    lemma_group_3(seq![27u8, 79u8, 83u8]);
    lemma_group_4(seq![27u8, 79u8, 83u8]);
    lemma_group_5(seq![27u8, 79u8, 83u8]);
    lemma_default_groups(seq![27u8, 79u8, 83u8]);
    if !described(info, seq![27u8, 79u8, 83u8]) {
        lemma_initial_default(info, seq![27u8, 79u8, 83u8]);
    }
}

proof fn lemma_default_key_63(info: &Capabilities)
    ensures
        bound_unless_described(info, seq![27u8, 91u8, 49u8, 53u8, 59u8, 53u8, 126u8], Key { modifier: Modifier { bits: 2 }, value: Value::F(5) }),
{
    lemma_group_0(seq![27u8, 91u8, 49u8, 53u8, 59u8, 53u8, 126u8]);
    lemma_group_1(seq![27u8, 91u8, 49u8, 53u8, 59u8, 53u8, 126u8]);
    lemma_group_2(seq![27u8, 91u8, 49u8, 53u8, 59u8, 53u8, 126u8]);
    lemma_group_3(seq![27u8, 91u8, 49u8, 53u8, 59u8, 53u8, 126u8]);
    lemma_group_4(seq![27u8, 91u8, 49u8, 53u8, 59u8, 53u8, 126u8]);
    lemma_group_5(seq![27u8, 91u8, 49u8, 53u8, 59u8, 53u8, 126u8]);
    lemma_default_groups(seq![27u8, 91u8, 49u8, 53u8, 59u8, 53u8, 126u8]);
    if !described(info, seq![27u8, 91u8, 49u8, 53u8, 59u8, 53u8, 126u8]) {
        lemma_initial_default(info, seq![27u8, 91u8, 49u8, 53u8, 59u8, 53u8, 126u8]);
    }
}

proof fn lemma_default_key_64(info: &Capabilities)
    ensures
        bound_unless_described(info, seq![27u8, 91u8, 49u8, 53u8, 59u8, 51u8, 126u8], Key { modifier: Modifier { bits: 1 }, value: Value::F(5) }),
{
    lemma_group_0(seq![27u8, 91u8, 49u8, 53u8, 59u8, 51u8, 126u8]);
    lemma_group_1(seq![27u8, 91u8, 49u8, 53u8, 59u8, 51u8, 126u8]);
    lemma_group_2(seq![27u8, 91u8, 49u8, 53u8, 59u8, 51u8, 126u8]);
    lemma_group_3(seq![27u8, 91u8, 49u8, 53u8, 59u8, 51u8, 126u8]);
    lemma_group_4(seq![27u8, 91u8, 49u8, 53u8, 59u8, 51u8, 126u8]);
    lemma_group_5(seq![27u8, 91u8, 49u8, 53u8, 59u8, 51u8, 126u8]);
    lemma_default_groups(seq![27u8, 91u8, 49u8, 53u8, 59u8, 51u8, 126u8]);
    if !described(info, seq![27u8, 91u8, 49u8, 53u8, 59u8, 51u8, 126u8]) {
        lemma_initial_default(info, seq![27u8, 91u8, 49u8, 53u8, 59u8, 51u8, 126u8]);
    }
}

proof fn lemma_default_key_65(info: &Capabilities)
    ensures
        bound_unless_described(info, seq![27u8, 91u8, 49u8, 53u8, 59u8, 54u8, 126u8], Key { modifier: Modifier { bits: 4 }, value: Value::F(5) }),
{
    lemma_group_0(seq![27u8, 91u8, 49u8, 53u8, 59u8, 54u8, 126u8]);
    lemma_group_1(seq![27u8, 91u8, 49u8, 53u8, 59u8, 54u8, 126u8]);
    lemma_group_2(seq![27u8, 91u8, 49u8, 53u8, 59u8, 54u8, 126u8]);
    lemma_group_3(seq![27u8, 91u8, 49u8, 53u8, 59u8, 54u8, 126u8]);
    lemma_group_4(seq![27u8, 91u8, 49u8, 53u8, 59u8, 54u8, 126u8]);
    lemma_group_5(seq![27u8, 91u8, 49u8, 53u8, 59u8, 54u8, 126u8]);
    lemma_default_groups(seq![27u8, 91u8, 49u8, 53u8, 59u8, 54u8, 126u8]);
    if !described(info, seq![27u8, 91u8, 49u8, 53u8, 59u8, 54u8, 126u8]) {
        lemma_initial_default(info, seq![27u8, 91u8, 49u8, 53u8, 59u8, 54u8, 126u8]);
    }
}

proof fn lemma_default_key_66(info: &Capabilities)
    ensures
        bound_unless_described(info, seq![27u8, 91u8, 49u8, 53u8, 59u8, 50u8, 126u8], Key { modifier: Modifier { bits: 8 }, value: Value::F(5) }),
{
    lemma_group_0(seq![27u8, 91u8, 49u8, 53u8, 59u8, 50u8, 126u8]);
    lemma_group_1(seq![27u8, 91u8, 49u8, 53u8, 59u8, 50u8, 126u8]);
    lemma_group_2(seq![27u8, 91u8, 49u8, 53u8, 59u8, 50u8, 126u8]);
    lemma_group_3(seq![27u8, 91u8, 49u8, 53u8, 59u8, 50u8, 126u8]);
    lemma_group_4(seq![27u8, 91u8, 49u8, 53u8, 59u8, 50u8, 126u8]);
    lemma_group_5(seq![27u8, 91u8, 49u8, 53u8, 59u8, 50u8, 126u8]);
    lemma_group_6(seq![27u8, 91u8, 49u8, 53u8, 59u8, 50u8, 126u8]);
    lemma_default_groups(seq![27u8, 91u8, 49u8, 53u8, 59u8, 50u8, 126u8]);
    if !described(info, seq![27u8, 91u8, 49u8, 53u8, 59u8, 50u8, 126u8]) {
        lemma_initial_default(info, seq![27u8, 91u8, 49u8, 53u8, 59u8, 50u8, 126u8]);
    }
}

proof fn lemma_default_key_67(info: &Capabilities)
    ensures
        bound_unless_described(info, seq![27u8, 91u8, 49u8, 53u8, 126u8], Key { modifier: Modifier { bits: 0 }, value: Value::F(5) }),
{
    lemma_group_0(seq![27u8, 91u8, 49u8, 53u8, 126u8]);
    lemma_group_1(seq![27u8, 91u8, 49u8, 53u8, 126u8]);
    lemma_group_2(seq![27u8, 91u8, 49u8, 53u8, 126u8]);
    lemma_group_3(seq![27u8, 91u8, 49u8, 53u8, 126u8]);
    lemma_group_4(seq![27u8, 91u8, 49u8, 53u8, 126u8]);
    lemma_group_5(seq![27u8, 91u8, 49u8, 53u8, 126u8]);
    lemma_group_6(seq![27u8, 91u8, 49u8, 53u8, 126u8]);
    lemma_default_groups(seq![27u8, 91u8, 49u8, 53u8, 126u8]);
    if !described(info, seq![27u8, 91u8, 49u8, 53u8, 126u8]) {
        lemma_initial_default(info, seq![27u8, 91u8, 49u8, 53u8, 126u8]);
    }
}

proof fn lemma_default_key_68(info: &Capabilities)
    ensures
        bound_unless_described(info, seq![27u8, 91u8, 49u8, 55u8, 59u8, 53u8, 126u8], Key { modifier: Modifier { bits: 2 }, value: Value::F(6) }),
{
    lemma_group_0(seq![27u8, 91u8, 49u8, 55u8, 59u8, 53u8, 126u8]);
    lemma_group_1(seq![27u8, 91u8, 49u8, 55u8, 59u8, 53u8, 126u8]);
    lemma_group_2(seq![27u8, 91u8, 49u8, 55u8, 59u8, 53u8, 126u8]);
    lemma_group_3(seq![27u8, 91u8, 49u8, 55u8, 59u8, 53u8, 126u8]);
    lemma_group_4(seq![27u8, 91u8, 49u8, 55u8, 59u8, 53u8, 126u8]);
    lemma_group_5(seq![27u8, 91u8, 49u8, 55u8, 59u8, 53u8, 126u8]);
    lemma_group_6(seq![27u8, 91u8, 49u8, 55u8, 59u8, 53u8, 126u8]);
    lemma_default_groups(seq![27u8, 91u8, 49u8, 55u8, 59u8, 53u8, 126u8]);
    if !described(info, seq![27u8, 91u8, 49u8, 55u8, 59u8, 53u8, 126u8]) {
        lemma_initial_default(info, seq![27u8, 91u8, 49u8, 55u8, 59u8, 53u8, 126u8]);
    }
}

proof fn lemma_default_key_69(info: &Capabilities)
    ensures
        bound_unless_described(info, seq![27u8, 91u8, 49u8, 55u8, 59u8, 51u8, 126u8], Key { modifier: Modifier { bits: 1 }, value: Value::F(6) }),
{
    lemma_group_0(seq![27u8, 91u8, 49u8, 55u8, 59u8, 51u8, 126u8]);
    lemma_group_1(seq![27u8, 91u8, 49u8, 55u8, 59u8, 51u8, 126u8]);
    lemma_group_2(seq![27u8, 91u8, 49u8, 55u8, 59u8, 51u8, 126u8]);
    lemma_group_3(seq![27u8, 91u8, 49u8, 55u8, 59u8, 51u8, 126u8]);
    lemma_group_4(seq![27u8, 91u8, 49u8, 55u8, 59u8, 51u8, 126u8]);
    lemma_group_5(seq![27u8, 91u8, 49u8, 55u8, 59u8, 51u8, 126u8]);
    lemma_group_6(seq![27u8, 91u8, 49u8, 55u8, 59u8, 51u8, 126u8]);
    lemma_default_groups(seq![27u8, 91u8, 49u8, 55u8, 59u8, 51u8, 126u8]);
    if !described(info, seq![27u8, 91u8, 49u8, 55u8, 59u8, 51u8, 126u8]) {
        lemma_initial_default(info, seq![27u8, 91u8, 49u8, 55u8, 59u8, 51u8, 126u8]);
    }
}

proof fn lemma_default_key_70(info: &Capabilities)
    ensures
        bound_unless_described(info, seq![27u8, 91u8, 49u8, 55u8, 59u8, 54u8, 126u8], Key { modifier: Modifier { bits: 4 }, value: Value::F(6) }),
{
    lemma_group_0(seq![27u8, 91u8, 49u8, 55u8, 59u8, 54u8, 126u8]);
    lemma_group_1(seq![27u8, 91u8, 49u8, 55u8, 59u8, 54u8, 126u8]);
    lemma_group_2(seq![27u8, 91u8, 49u8, 55u8, 59u8, 54u8, 126u8]);
    lemma_group_3(seq![27u8, 91u8, 49u8, 55u8, 59u8, 54u8, 126u8]);
    lemma_group_4(seq![27u8, 91u8, 49u8, 55u8, 59u8, 54u8, 126u8]);
    lemma_group_5(seq![27u8, 91u8, 49u8, 55u8, 59u8, 54u8, 126u8]);
    lemma_group_6(seq![27u8, 91u8, 49u8, 55u8, 59u8, 54u8, 126u8]);
    lemma_default_groups(seq![27u8, 91u8, 49u8, 55u8, 59u8, 54u8, 126u8]);
    if !described(info, seq![27u8, 91u8, 49u8, 55u8, 59u8, 54u8, 126u8]) {
        lemma_initial_default(info, seq![27u8, 91u8, 49u8, 55u8, 59u8, 54u8, 126u8]);
    }
}

proof fn lemma_default_key_71(info: &Capabilities)
    ensures
        bound_unless_described(info, seq![27u8, 91u8, 49u8, 55u8, 59u8, 50u8, 126u8], Key { modifier: Modifier { bits: 8 }, value: Value::F(6) }),
{
    lemma_group_0(seq![27u8, 91u8, 49u8, 55u8, 59u8, 50u8, 126u8]);
    lemma_group_1(seq![27u8, 91u8, 49u8, 55u8, 59u8, 50u8, 126u8]);
    lemma_group_2(seq![27u8, 91u8, 49u8, 55u8, 59u8, 50u8, 126u8]);
    lemma_group_3(seq![27u8, 91u8, 49u8, 55u8, 59u8, 50u8, 126u8]);
    lemma_group_4(seq![27u8, 91u8, 49u8, 55u8, 59u8, 50u8, 126u8]);
    lemma_group_5(seq![27u8, 91u8, 49u8, 55u8, 59u8, 50u8, 126u8]);
    lemma_group_6(seq![27u8, 91u8, 49u8, 55u8, 59u8, 50u8, 126u8]);
    lemma_default_groups(seq![27u8, 91u8, 49u8, 55u8, 59u8, 50u8, 126u8]);
    if !described(info, seq![27u8, 91u8, 49u8, 55u8, 59u8, 50u8, 126u8]) {
        lemma_initial_default(info, seq![27u8, 91u8, 49u8, 55u8, 59u8, 50u8, 126u8]);
    }
}

proof fn lemma_default_key_72(info: &Capabilities)
    ensures
        bound_unless_described(info, seq![27u8, 91u8, 49u8, 55u8, 126u8], Key { modifier: Modifier { bits: 0 }, value: Value::F(6) }),
{
    lemma_group_0(seq![27u8, 91u8, 49u8, 55u8, 126u8]);
    lemma_group_1(seq![27u8, 91u8, 49u8, 55u8, 126u8]);
    lemma_group_2(seq![27u8, 91u8, 49u8, 55u8, 126u8]);
    lemma_group_3(seq![27u8, 91u8, 49u8, 55u8, 126u8]);
    lemma_group_4(seq![27u8, 91u8, 49u8, 55u8, 126u8]);
    lemma_group_5(seq![27u8, 91u8, 49u8, 55u8, 126u8]);
    lemma_group_6(seq![27u8, 91u8, 49u8, 55u8, 126u8]);
    lemma_default_groups(seq![27u8, 91u8, 49u8, 55u8, 126u8]);
    if !described(info, seq![27u8, 91u8, 49u8, 55u8, 126u8]) {
        lemma_initial_default(info, seq![27u8, 91u8, 49u8, 55u8, 126u8]);
    }
}

proof fn lemma_default_key_73(info: &Capabilities)
    ensures
        bound_unless_described(info, seq![27u8, 91u8, 49u8, 56u8, 59u8, 53u8, 126u8], Key { modifier: Modifier { bits: 2 }, value: Value::F(7) }),
{
    lemma_group_0(seq![27u8, 91u8, 49u8, 56u8, 59u8, 53u8, 126u8]);
    lemma_group_1(seq![27u8, 91u8, 49u8, 56u8, 59u8, 53u8, 126u8]);
    lemma_group_2(seq![27u8, 91u8, 49u8, 56u8, 59u8, 53u8, 126u8]);
    lemma_group_3(seq![27u8, 91u8, 49u8, 56u8, 59u8, 53u8, 126u8]);
    lemma_group_4(seq![27u8, 91u8, 49u8, 56u8, 59u8, 53u8, 126u8]);
    lemma_group_5(seq![27u8, 91u8, 49u8, 56u8, 59u8, 53u8, 126u8]);
    lemma_group_6(seq![27u8, 91u8, 49u8, 56u8, 59u8, 53u8, 126u8]);
    lemma_default_groups(seq![27u8, 91u8, 49u8, 56u8, 59u8, 53u8, 126u8]);
    if !described(info, seq![27u8, 91u8, 49u8, 56u8, 59u8, 53u8, 126u8]) {
        lemma_initial_default(info, seq![27u8, 91u8, 49u8, 56u8, 59u8, 53u8, 126u8]);
    }
}

proof fn lemma_default_key_74(info: &Capabilities)
    ensures
        bound_unless_described(info, seq![27u8, 91u8, 49u8, 56u8, 59u8, 51u8, 126u8], Key { modifier: Modifier { bits: 1 }, value: Value::F(7) }),
{
    lemma_group_0(seq![27u8, 91u8, 49u8, 56u8, 59u8, 51u8, 126u8]);
    lemma_group_1(seq![27u8, 91u8, 49u8, 56u8, 59u8, 51u8, 126u8]);
    lemma_group_2(seq![27u8, 91u8, 49u8, 56u8, 59u8, 51u8, 126u8]);
    lemma_group_3(seq![27u8, 91u8, 49u8, 56u8, 59u8, 51u8, 126u8]);
    lemma_group_4(seq![27u8, 91u8, 49u8, 56u8, 59u8, 51u8, 126u8]);
    lemma_group_5(seq![27u8, 91u8, 49u8, 56u8, 59u8, 51u8, 126u8]);
    lemma_group_6(seq![27u8, 91u8, 49u8, 56u8, 59u8, 51u8, 126u8]);
    lemma_default_groups(seq![27u8, 91u8, 49u8, 56u8, 59u8, 51u8, 126u8]);
    if !described(info, seq![27u8, 91u8, 49u8, 56u8, 59u8, 51u8, 126u8]) {
        lemma_initial_default(info, seq![27u8, 91u8, 49u8, 56u8, 59u8, 51u8, 126u8]);
    }
}

proof fn lemma_default_key_75(info: &Capabilities)
    ensures
        bound_unless_described(info, seq![27u8, 91u8, 49u8, 56u8, 59u8, 54u8, 126u8], Key { modifier: Modifier { bits: 4 }, value: Value::F(7) }),
{
    lemma_group_0(seq![27u8, 91u8, 49u8, 56u8, 59u8, 54u8, 126u8]);
    lemma_group_1(seq![27u8, 91u8, 49u8, 56u8, 59u8, 54u8, 126u8]);
    lemma_group_2(seq![27u8, 91u8, 49u8, 56u8, 59u8, 54u8, 126u8]);
    lemma_group_3(seq![27u8, 91u8, 49u8, 56u8, 59u8, 54u8, 126u8]);
    lemma_group_4(seq![27u8, 91u8, 49u8, 56u8, 59u8, 54u8, 126u8]);
    lemma_group_5(seq![27u8, 91u8, 49u8, 56u8, 59u8, 54u8, 126u8]);
    lemma_group_6(seq![27u8, 91u8, 49u8, 56u8, 59u8, 54u8, 126u8]);
    lemma_default_groups(seq![27u8, 91u8, 49u8, 56u8, 59u8, 54u8, 126u8]);
    if !described(info, seq![27u8, 91u8, 49u8, 56u8, 59u8, 54u8, 126u8]) {
        lemma_initial_default(info, seq![27u8, 91u8, 49u8, 56u8, 59u8, 54u8, 126u8]);
    }
}

proof fn lemma_default_key_76(info: &Capabilities)
    ensures
        bound_unless_described(info, seq![27u8, 91u8, 49u8, 56u8, 59u8, 50u8, 126u8], Key { modifier: Modifier { bits: 8 }, value: Value::F(7) }),
{
    lemma_group_0(seq![27u8, 91u8, 49u8, 56u8, 59u8, 50u8, 126u8]);
    lemma_group_1(seq![27u8, 91u8, 49u8, 56u8, 59u8, 50u8, 126u8]);
    lemma_group_2(seq![27u8, 91u8, 49u8, 56u8, 59u8, 50u8, 126u8]);
    lemma_group_3(seq![27u8, 91u8, 49u8, 56u8, 59u8, 50u8, 126u8]);
    lemma_group_4(seq![27u8, 91u8, 49u8, 56u8, 59u8, 50u8, 126u8]);
    lemma_group_5(seq![27u8, 91u8, 49u8, 56u8, 59u8, 50u8, 126u8]);
    lemma_group_6(seq![27u8, 91u8, 49u8, 56u8, 59u8, 50u8, 126u8]);
    lemma_default_groups(seq![27u8, 91u8, 49u8, 56u8, 59u8, 50u8, 126u8]);
    if !described(info, seq![27u8, 91u8, 49u8, 56u8, 59u8, 50u8, 126u8]) {
        lemma_initial_default(info, seq![27u8, 91u8, 49u8, 56u8, 59u8, 50u8, 126u8]);
    }
}

proof fn lemma_default_key_77(info: &Capabilities)
    ensures
        bound_unless_described(info, seq![27u8, 91u8, 49u8, 56u8, 126u8], Key { modifier: Modifier { bits: 0 }, value: Value::F(7) }),
{
    lemma_group_0(seq![27u8, 91u8, 49u8, 56u8, 126u8]);
    lemma_group_1(seq![27u8, 91u8, 49u8, 56u8, 126u8]);
    lemma_group_2(seq![27u8, 91u8, 49u8, 56u8, 126u8]);
    lemma_group_3(seq![27u8, 91u8, 49u8, 56u8, 126u8]);
    lemma_group_4(seq![27u8, 91u8, 49u8, 56u8, 126u8]);
    lemma_group_5(seq![27u8, 91u8, 49u8, 56u8, 126u8]);
    lemma_group_6(seq![27u8, 91u8, 49u8, 56u8, 126u8]);
    lemma_group_7(seq![27u8, 91u8, 49u8, 56u8, 126u8]);
    lemma_default_groups(seq![27u8, 91u8, 49u8, 56u8, 126u8]);
    if !described(info, seq![27u8, 91u8, 49u8, 56u8, 126u8]) {
        lemma_initial_default(info, seq![27u8, 91u8, 49u8, 56u8, 126u8]);
    }
}

proof fn lemma_default_key_78(info: &Capabilities)
    ensures
        bound_unless_described(info, seq![27u8, 91u8, 49u8, 57u8, 59u8, 53u8, 126u8], Key { modifier: Modifier { bits: 2 }, value: Value::F(8) }),
{
    lemma_group_0(seq![27u8, 91u8, 49u8, 57u8, 59u8, 53u8, 126u8]);
    lemma_group_1(seq![27u8, 91u8, 49u8, 57u8, 59u8, 53u8, 126u8]);
    lemma_group_2(seq![27u8, 91u8, 49u8, 57u8, 59u8, 53u8, 126u8]);
    lemma_group_3(seq![27u8, 91u8, 49u8, 57u8, 59u8, 53u8, 126u8]);
    lemma_group_4(seq![27u8, 91u8, 49u8, 57u8, 59u8, 53u8, 126u8]);
    lemma_group_5(seq![27u8, 91u8, 49u8, 57u8, 59u8, 53u8, 126u8]);
    lemma_group_6(seq![27u8, 91u8, 49u8, 57u8, 59u8, 53u8, 126u8]);
    lemma_group_7(seq![27u8, 91u8, 49u8, 57u8, 59u8, 53u8, 126u8]);
    lemma_default_groups(seq![27u8, 91u8, 49u8, 57u8, 59u8, 53u8, 126u8]);
    if !described(info, seq![27u8, 91u8, 49u8, 57u8, 59u8, 53u8, 126u8]) {
        lemma_initial_default(info, seq![27u8, 91u8, 49u8, 57u8, 59u8, 53u8, 126u8]);
    }
}

proof fn lemma_default_key_79(info: &Capabilities)
    ensures
        bound_unless_described(info, seq![27u8, 91u8, 49u8, 57u8, 59u8, 51u8, 126u8], Key { modifier: Modifier { bits: 1 }, value: Value::F(8) }),
{
    lemma_group_0(seq![27u8, 91u8, 49u8, 57u8, 59u8, 51u8, 126u8]);
    lemma_group_1(seq![27u8, 91u8, 49u8, 57u8, 59u8, 51u8, 126u8]);
    lemma_group_2(seq![27u8, 91u8, 49u8, 57u8, 59u8, 51u8, 126u8]);
    lemma_group_3(seq![27u8, 91u8, 49u8, 57u8, 59u8, 51u8, 126u8]);
    lemma_group_4(seq![27u8, 91u8, 49u8, 57u8, 59u8, 51u8, 126u8]);
    lemma_group_5(seq![27u8, 91u8, 49u8, 57u8, 59u8, 51u8, 126u8]);
    lemma_group_6(seq![27u8, 91u8, 49u8, 57u8, 59u8, 51u8, 126u8]);
    lemma_group_7(seq![27u8, 91u8, 49u8, 57u8, 59u8, 51u8, 126u8]);
    lemma_default_groups(seq![27u8, 91u8, 49u8, 57u8, 59u8, 51u8, 126u8]);
    if !described(info, seq![27u8, 91u8, 49u8, 57u8, 59u8, 51u8, 126u8]) {
        lemma_initial_default(info, seq![27u8, 91u8, 49u8, 57u8, 59u8, 51u8, 126u8]);
    }
}

proof fn lemma_default_key_80(info: &Capabilities)
    ensures
        bound_unless_described(info, seq![27u8, 91u8, 49u8, 57u8, 59u8, 54u8, 126u8], Key { modifier: Modifier { bits: 4 }, value: Value::F(8) }),
{
    lemma_group_0(seq![27u8, 91u8, 49u8, 57u8, 59u8, 54u8, 126u8]);
    lemma_group_1(seq![27u8, 91u8, 49u8, 57u8, 59u8, 54u8, 126u8]);
    lemma_group_2(seq![27u8, 91u8, 49u8, 57u8, 59u8, 54u8, 126u8]);
    lemma_group_3(seq![27u8, 91u8, 49u8, 57u8, 59u8, 54u8, 126u8]);
    lemma_group_4(seq![27u8, 91u8, 49u8, 57u8, 59u8, 54u8, 126u8]);
    lemma_group_5(seq![27u8, 91u8, 49u8, 57u8, 59u8, 54u8, 126u8]);
    lemma_group_6(seq![27u8, 91u8, 49u8, 57u8, 59u8, 54u8, 126u8]);
    lemma_group_7(seq![27u8, 91u8, 49u8, 57u8, 59u8, 54u8, 126u8]);
    lemma_default_groups(seq![27u8, 91u8, 49u8, 57u8, 59u8, 54u8, 126u8]);
    if !described(info, seq![27u8, 91u8, 49u8, 57u8, 59u8, 54u8, 126u8]) {
        lemma_initial_default(info, seq![27u8, 91u8, 49u8, 57u8, 59u8, 54u8, 126u8]);
    }
}

proof fn lemma_default_key_81(info: &Capabilities)
    ensures
        bound_unless_described(info, seq![27u8, 91u8, 49u8, 57u8, 59u8, 50u8, 126u8], Key { modifier: Modifier { bits: 8 }, value: Value::F(8) }),
{
    lemma_group_0(seq![27u8, 91u8, 49u8, 57u8, 59u8, 50u8, 126u8]);
    lemma_group_1(seq![27u8, 91u8, 49u8, 57u8, 59u8, 50u8, 126u8]);
    lemma_group_2(seq![27u8, 91u8, 49u8, 57u8, 59u8, 50u8, 126u8]);
    lemma_group_3(seq![27u8, 91u8, 49u8, 57u8, 59u8, 50u8, 126u8]);
    lemma_group_4(seq![27u8, 91u8, 49u8, 57u8, 59u8, 50u8, 126u8]);
    lemma_group_5(seq![27u8, 91u8, 49u8, 57u8, 59u8, 50u8, 126u8]);
    lemma_group_6(seq![27u8, 91u8, 49u8, 57u8, 59u8, 50u8, 126u8]);
    lemma_group_7(seq![27u8, 91u8, 49u8, 57u8, 59u8, 50u8, 126u8]);
    lemma_default_groups(seq![27u8, 91u8, 49u8, 57u8, 59u8, 50u8, 126u8]);
    if !described(info, seq![27u8, 91u8, 49u8, 57u8, 59u8, 50u8, 126u8]) {
        lemma_initial_default(info, seq![27u8, 91u8, 49u8, 57u8, 59u8, 50u8, 126u8]);
    }
}

proof fn lemma_default_key_82(info: &Capabilities)
    ensures
        bound_unless_described(info, seq![27u8, 91u8, 49u8, 57u8, 126u8], Key { modifier: Modifier { bits: 0 }, value: Value::F(8) }),
{
    lemma_group_0(seq![27u8, 91u8, 49u8, 57u8, 126u8]);
    lemma_group_1(seq![27u8, 91u8, 49u8, 57u8, 126u8]);
    lemma_group_2(seq![27u8, 91u8, 49u8, 57u8, 126u8]);
    lemma_group_3(seq![27u8, 91u8, 49u8, 57u8, 126u8]);
    lemma_group_4(seq![27u8, 91u8, 49u8, 57u8, 126u8]);
    lemma_group_5(seq![27u8, 91u8, 49u8, 57u8, 126u8]);
    lemma_group_6(seq![27u8, 91u8, 49u8, 57u8, 126u8]);
    lemma_group_7(seq![27u8, 91u8, 49u8, 57u8, 126u8]);
    lemma_default_groups(seq![27u8, 91u8, 49u8, 57u8, 126u8]);
    if !described(info, seq![27u8, 91u8, 49u8, 57u8, 126u8]) {
        lemma_initial_default(info, seq![27u8, 91u8, 49u8, 57u8, 126u8]);
    }
}

proof fn lemma_default_key_83(info: &Capabilities)
    ensures
        bound_unless_described(info, seq![27u8, 91u8, 50u8, 48u8, 59u8, 53u8, 126u8], Key { modifier: Modifier { bits: 2 }, value: Value::F(9) }),
{
    lemma_group_0(seq![27u8, 91u8, 50u8, 48u8, 59u8, 53u8, 126u8]);
    lemma_group_1(seq![27u8, 91u8, 50u8, 48u8, 59u8, 53u8, 126u8]);
    lemma_group_2(seq![27u8, 91u8, 50u8, 48u8, 59u8, 53u8, 126u8]);
    lemma_group_3(seq![27u8, 91u8, 50u8, 48u8, 59u8, 53u8, 126u8]);
    lemma_group_4(seq![27u8, 91u8, 50u8, 48u8, 59u8, 53u8, 126u8]);
    lemma_group_5(seq![27u8, 91u8, 50u8, 48u8, 59u8, 53u8, 126u8]);
    lemma_group_6(seq![27u8, 91u8, 50u8, 48u8, 59u8, 53u8, 126u8]);
    lemma_group_7(seq![27u8, 91u8, 50u8, 48u8, 59u8, 53u8, 126u8]);
    lemma_default_groups(seq![27u8, 91u8, 50u8, 48u8, 59u8, 53u8, 126u8]);
    if !described(info, seq![27u8, 91u8, 50u8, 48u8, 59u8, 53u8, 126u8]) {
        lemma_initial_default(info, seq![27u8, 91u8, 50u8, 48u8, 59u8, 53u8, 126u8]);
    }
}

proof fn lemma_default_key_84(info: &Capabilities)
    ensures
        bound_unless_described(info, seq![27u8, 91u8, 50u8, 48u8, 59u8, 51u8, 126u8], Key { modifier: Modifier { bits: 1 }, value: Value::F(9) }),
{
    lemma_group_0(seq![27u8, 91u8, 50u8, 48u8, 59u8, 51u8, 126u8]);
    lemma_group_1(seq![27u8, 91u8, 50u8, 48u8, 59u8, 51u8, 126u8]);
    lemma_group_2(seq![27u8, 91u8, 50u8, 48u8, 59u8, 51u8, 126u8]);
    lemma_group_3(seq![27u8, 91u8, 50u8, 48u8, 59u8, 51u8, 126u8]);
    lemma_group_4(seq![27u8, 91u8, 50u8, 48u8, 59u8, 51u8, 126u8]);
    lemma_group_5(seq![27u8, 91u8, 50u8, 48u8, 59u8, 51u8, 126u8]);
    lemma_group_6(seq![27u8, 91u8, 50u8, 48u8, 59u8, 51u8, 126u8]);
    lemma_group_7(seq![27u8, 91u8, 50u8, 48u8, 59u8, 51u8, 126u8]);
    lemma_default_groups(seq![27u8, 91u8, 50u8, 48u8, 59u8, 51u8, 126u8]);
    if !described(info, seq![27u8, 91u8, 50u8, 48u8, 59u8, 51u8, 126u8]) {
        lemma_initial_default(info, seq![27u8, 91u8, 50u8, 48u8, 59u8, 51u8, 126u8]);
    }
}

proof fn lemma_default_key_85(info: &Capabilities)
    ensures
        bound_unless_described(info, seq![27u8, 91u8, 50u8, 48u8, 59u8, 54u8, 126u8], Key { modifier: Modifier { bits: 4 }, value: Value::F(9) }),
{
    lemma_group_0(seq![27u8, 91u8, 50u8, 48u8, 59u8, 54u8, 126u8]);
    lemma_group_1(seq![27u8, 91u8, 50u8, 48u8, 59u8, 54u8, 126u8]);
    lemma_group_2(seq![27u8, 91u8, 50u8, 48u8, 59u8, 54u8, 126u8]);
    lemma_group_3(seq![27u8, 91u8, 50u8, 48u8, 59u8, 54u8, 126u8]);
    lemma_group_4(seq![27u8, 91u8, 50u8, 48u8, 59u8, 54u8, 126u8]);
    lemma_group_5(seq![27u8, 91u8, 50u8, 48u8, 59u8, 54u8, 126u8]);
    lemma_group_6(seq![27u8, 91u8, 50u8, 48u8, 59u8, 54u8, 126u8]);
    lemma_group_7(seq![27u8, 91u8, 50u8, 48u8, 59u8, 54u8, 126u8]);
    lemma_default_groups(seq![27u8, 91u8, 50u8, 48u8, 59u8, 54u8, 126u8]);
    if !described(info, seq![27u8, 91u8, 50u8, 48u8, 59u8, 54u8, 126u8]) {
        lemma_initial_default(info, seq![27u8, 91u8, 50u8, 48u8, 59u8, 54u8, 126u8]);
    }
}

proof fn lemma_default_key_86(info: &Capabilities)
    ensures
        bound_unless_described(info, seq![27u8, 91u8, 50u8, 48u8, 59u8, 50u8, 126u8], Key { modifier: Modifier { bits: 8 }, value: Value::F(9) }),
{
    lemma_group_0(seq![27u8, 91u8, 50u8, 48u8, 59u8, 50u8, 126u8]);
    lemma_group_1(seq![27u8, 91u8, 50u8, 48u8, 59u8, 50u8, 126u8]);
    lemma_group_2(seq![27u8, 91u8, 50u8, 48u8, 59u8, 50u8, 126u8]);
    lemma_group_3(seq![27u8, 91u8, 50u8, 48u8, 59u8, 50u8, 126u8]);
    lemma_group_4(seq![27u8, 91u8, 50u8, 48u8, 59u8, 50u8, 126u8]);
    lemma_group_5(seq![27u8, 91u8, 50u8, 48u8, 59u8, 50u8, 126u8]);
    lemma_group_6(seq![27u8, 91u8, 50u8, 48u8, 59u8, 50u8, 126u8]);
    lemma_group_7(seq![27u8, 91u8, 50u8, 48u8, 59u8, 50u8, 126u8]);
    lemma_default_groups(seq![27u8, 91u8, 50u8, 48u8, 59u8, 50u8, 126u8]);
    if !described(info, seq![27u8, 91u8, 50u8, 48u8, 59u8, 50u8, 126u8]) {
        lemma_initial_default(info, seq![27u8, 91u8, 50u8, 48u8, 59u8, 50u8, 126u8]);
    }
}

proof fn lemma_default_key_87(info: &Capabilities)
    ensures
        bound_unless_described(info, seq![27u8, 91u8, 50u8, 48u8, 126u8], Key { modifier: Modifier { bits: 0 }, value: Value::F(9) }),
{
    lemma_group_0(seq![27u8, 91u8, 50u8, 48u8, 126u8]);
    lemma_group_1(seq![27u8, 91u8, 50u8, 48u8, 126u8]);
    lemma_group_2(seq![27u8, 91u8, 50u8, 48u8, 126u8]);
    lemma_group_3(seq![27u8, 91u8, 50u8, 48u8, 126u8]);
    lemma_group_4(seq![27u8, 91u8, 50u8, 48u8, 126u8]);
    lemma_group_5(seq![27u8, 91u8, 50u8, 48u8, 126u8]);
    lemma_group_6(seq![27u8, 91u8, 50u8, 48u8, 126u8]);
    lemma_group_7(seq![27u8, 91u8, 50u8, 48u8, 126u8]);
    lemma_default_groups(seq![27u8, 91u8, 50u8, 48u8, 126u8]);
    if !described(info, seq![27u8, 91u8, 50u8, 48u8, 126u8]) {
        lemma_initial_default(info, seq![27u8, 91u8, 50u8, 48u8, 126u8]);
    }
}

proof fn lemma_default_key_88(info: &Capabilities)
    ensures
        bound_unless_described(info, seq![27u8, 91u8, 50u8, 49u8, 59u8, 53u8, 126u8], Key { modifier: Modifier { bits: 2 }, value: Value::F(10) }),
{
    lemma_group_0(seq![27u8, 91u8, 50u8, 49u8, 59u8, 53u8, 126u8]);
    lemma_group_1(seq![27u8, 91u8, 50u8, 49u8, 59u8, 53u8, 126u8]);
    lemma_group_2(seq![27u8, 91u8, 50u8, 49u8, 59u8, 53u8, 126u8]);
    lemma_group_3(seq![27u8, 91u8, 50u8, 49u8, 59u8, 53u8, 126u8]);
    lemma_group_4(seq![27u8, 91u8, 50u8, 49u8, 59u8, 53u8, 126u8]);
    lemma_group_5(seq![27u8, 91u8, 50u8, 49u8, 59u8, 53u8, 126u8]);
    lemma_group_6(seq![27u8, 91u8, 50u8, 49u8, 59u8, 53u8, 126u8]);
    lemma_group_7(seq![27u8, 91u8, 50u8, 49u8, 59u8, 53u8, 126u8]);
    lemma_group_8(seq![27u8, 91u8, 50u8, 49u8, 59u8, 53u8, 126u8]);
    lemma_default_groups(seq![27u8, 91u8, 50u8, 49u8, 59u8, 53u8, 126u8]);
    if !described(info, seq![27u8, 91u8, 50u8, 49u8, 59u8, 53u8, 126u8]) {
        lemma_initial_default(info, seq![27u8, 91u8, 50u8, 49u8, 59u8, 53u8, 126u8]);
    }
}

proof fn lemma_default_key_89(info: &Capabilities)
    ensures
        bound_unless_described(info, seq![27u8, 91u8, 50u8, 49u8, 59u8, 51u8, 126u8], Key { modifier: Modifier { bits: 1 }, value: Value::F(10) }),
{
    lemma_group_0(seq![27u8, 91u8, 50u8, 49u8, 59u8, 51u8, 126u8]);
    lemma_group_1(seq![27u8, 91u8, 50u8, 49u8, 59u8, 51u8, 126u8]);
    lemma_group_2(seq![27u8, 91u8, 50u8, 49u8, 59u8, 51u8, 126u8]);
    lemma_group_3(seq![27u8, 91u8, 50u8, 49u8, 59u8, 51u8, 126u8]);
    lemma_group_4(seq![27u8, 91u8, 50u8, 49u8, 59u8, 51u8, 126u8]);
    lemma_group_5(seq![27u8, 91u8, 50u8, 49u8, 59u8, 51u8, 126u8]);
    lemma_group_6(seq![27u8, 91u8, 50u8, 49u8, 59u8, 51u8, 126u8]);
    lemma_group_7(seq![27u8, 91u8, 50u8, 49u8, 59u8, 51u8, 126u8]);
    lemma_group_8(seq![27u8, 91u8, 50u8, 49u8, 59u8, 51u8, 126u8]);
    lemma_default_groups(seq![27u8, 91u8, 50u8, 49u8, 59u8, 51u8, 126u8]);
    if !described(info, seq![27u8, 91u8, 50u8, 49u8, 59u8, 51u8, 126u8]) {
        lemma_initial_default(info, seq![27u8, 91u8, 50u8, 49u8, 59u8, 51u8, 126u8]);
    }
}

proof fn lemma_default_key_90(info: &Capabilities)
    ensures
        bound_unless_described(info, seq![27u8, 91u8, 50u8, 49u8, 59u8, 54u8, 126u8], Key { modifier: Modifier { bits: 4 }, value: Value::F(10) }),
{
    lemma_group_0(seq![27u8, 91u8, 50u8, 49u8, 59u8, 54u8, 126u8]);
    lemma_group_1(seq![27u8, 91u8, 50u8, 49u8, 59u8, 54u8, 126u8]);
    lemma_group_2(seq![27u8, 91u8, 50u8, 49u8, 59u8, 54u8, 126u8]);
    lemma_group_3(seq![27u8, 91u8, 50u8, 49u8, 59u8, 54u8, 126u8]);
    lemma_group_4(seq![27u8, 91u8, 50u8, 49u8, 59u8, 54u8, 126u8]);
    lemma_group_5(seq![27u8, 91u8, 50u8, 49u8, 59u8, 54u8, 126u8]);
    lemma_group_6(seq![27u8, 91u8, 50u8, 49u8, 59u8, 54u8, 126u8]);
    lemma_group_7(seq![27u8, 91u8, 50u8, 49u8, 59u8, 54u8, 126u8]);
    lemma_group_8(seq![27u8, 91u8, 50u8, 49u8, 59u8, 54u8, 126u8]);
    lemma_default_groups(seq![27u8, 91u8, 50u8, 49u8, 59u8, 54u8, 126u8]);
    if !described(info, seq![27u8, 91u8, 50u8, 49u8, 59u8, 54u8, 126u8]) {
        lemma_initial_default(info, seq![27u8, 91u8, 50u8, 49u8, 59u8, 54u8, 126u8]);
    }
}

proof fn lemma_default_key_91(info: &Capabilities)
    ensures
        bound_unless_described(info, seq![27u8, 91u8, 50u8, 49u8, 59u8, 50u8, 126u8], Key { modifier: Modifier { bits: 8 }, value: Value::F(10) }),
{
    lemma_group_0(seq![27u8, 91u8, 50u8, 49u8, 59u8, 50u8, 126u8]);
    lemma_group_1(seq![27u8, 91u8, 50u8, 49u8, 59u8, 50u8, 126u8]);
    lemma_group_2(seq![27u8, 91u8, 50u8, 49u8, 59u8, 50u8, 126u8]);
    lemma_group_3(seq![27u8, 91u8, 50u8, 49u8, 59u8, 50u8, 126u8]);
    lemma_group_4(seq![27u8, 91u8, 50u8, 49u8, 59u8, 50u8, 126u8]);
    lemma_group_5(seq![27u8, 91u8, 50u8, 49u8, 59u8, 50u8, 126u8]);
    lemma_group_6(seq![27u8, 91u8, 50u8, 49u8, 59u8, 50u8, 126u8]);
    lemma_group_7(seq![27u8, 91u8, 50u8, 49u8, 59u8, 50u8, 126u8]);
    lemma_group_8(seq![27u8, 91u8, 50u8, 49u8, 59u8, 50u8, 126u8]);
    lemma_default_groups(seq![27u8, 91u8, 50u8, 49u8, 59u8, 50u8, 126u8]);
    if !described(info, seq![27u8, 91u8, 50u8, 49u8, 59u8, 50u8, 126u8]) {
        lemma_initial_default(info, seq![27u8, 91u8, 50u8, 49u8, 59u8, 50u8, 126u8]);
    }
}

proof fn lemma_default_key_92(info: &Capabilities)
    ensures
        bound_unless_described(info, seq![27u8, 91u8, 50u8, 49u8, 126u8], Key { modifier: Modifier { bits: 0 }, value: Value::F(10) }),
{
    lemma_group_0(seq![27u8, 91u8, 50u8, 49u8, 126u8]);
    lemma_group_1(seq![27u8, 91u8, 50u8, 49u8, 126u8]);
    lemma_group_2(seq![27u8, 91u8, 50u8, 49u8, 126u8]);
    lemma_group_3(seq![27u8, 91u8, 50u8, 49u8, 126u8]);
    lemma_group_4(seq![27u8, 91u8, 50u8, 49u8, 126u8]);
    lemma_group_5(seq![27u8, 91u8, 50u8, 49u8, 126u8]);
    lemma_group_6(seq![27u8, 91u8, 50u8, 49u8, 126u8]);
    lemma_group_7(seq![27u8, 91u8, 50u8, 49u8, 126u8]);
    lemma_group_8(seq![27u8, 91u8, 50u8, 49u8, 126u8]);
    lemma_default_groups(seq![27u8, 91u8, 50u8, 49u8, 126u8]);
    if !described(info, seq![27u8, 91u8, 50u8, 49u8, 126u8]) {
        lemma_initial_default(info, seq![27u8, 91u8, 50u8, 49u8, 126u8]);
    }
}

proof fn lemma_default_key_93(info: &Capabilities)
    ensures
        bound_unless_described(info, seq![27u8, 91u8, 50u8, 51u8, 59u8, 53u8, 126u8], Key { modifier: Modifier { bits: 2 }, value: Value::F(11) }),
{
    lemma_group_0(seq![27u8, 91u8, 50u8, 51u8, 59u8, 53u8, 126u8]);
    lemma_group_1(seq![27u8, 91u8, 50u8, 51u8, 59u8, 53u8, 126u8]);
    lemma_group_2(seq![27u8, 91u8, 50u8, 51u8, 59u8, 53u8, 126u8]);
    lemma_group_3(seq![27u8, 91u8, 50u8, 51u8, 59u8, 53u8, 126u8]);
    lemma_group_4(seq![27u8, 91u8, 50u8, 51u8, 59u8, 53u8, 126u8]);
    lemma_group_5(seq![27u8, 91u8, 50u8, 51u8, 59u8, 53u8, 126u8]);
    lemma_group_6(seq![27u8, 91u8, 50u8, 51u8, 59u8, 53u8, 126u8]);
    lemma_group_7(seq![27u8, 91u8, 50u8, 51u8, 59u8, 53u8, 126u8]);
    lemma_group_8(seq![27u8, 91u8, 50u8, 51u8, 59u8, 53u8, 126u8]);
    lemma_default_groups(seq![27u8, 91u8, 50u8, 51u8, 59u8, 53u8, 126u8]);
    if !described(info, seq![27u8, 91u8, 50u8, 51u8, 59u8, 53u8, 126u8]) {
        lemma_initial_default(info, seq![27u8, 91u8, 50u8, 51u8, 59u8, 53u8, 126u8]);
    }
}

proof fn lemma_default_key_94(info: &Capabilities)
    ensures
        bound_unless_described(info, seq![27u8, 91u8, 50u8, 51u8, 59u8, 51u8, 126u8], Key { modifier: Modifier { bits: 1 }, value: Value::F(11) }),
{
    lemma_group_0(seq![27u8, 91u8, 50u8, 51u8, 59u8, 51u8, 126u8]);
    lemma_group_1(seq![27u8, 91u8, 50u8, 51u8, 59u8, 51u8, 126u8]);
    lemma_group_2(seq![27u8, 91u8, 50u8, 51u8, 59u8, 51u8, 126u8]);
    lemma_group_3(seq![27u8, 91u8, 50u8, 51u8, 59u8, 51u8, 126u8]);
    lemma_group_4(seq![27u8, 91u8, 50u8, 51u8, 59u8, 51u8, 126u8]);
    lemma_group_5(seq![27u8, 91u8, 50u8, 51u8, 59u8, 51u8, 126u8]);
    lemma_group_6(seq![27u8, 91u8, 50u8, 51u8, 59u8, 51u8, 126u8]);
    lemma_group_7(seq![27u8, 91u8, 50u8, 51u8, 59u8, 51u8, 126u8]);
    lemma_group_8(seq![27u8, 91u8, 50u8, 51u8, 59u8, 51u8, 126u8]);
    lemma_default_groups(seq![27u8, 91u8, 50u8, 51u8, 59u8, 51u8, 126u8]);
    if !described(info, seq![27u8, 91u8, 50u8, 51u8, 59u8, 51u8, 126u8]) {
        lemma_initial_default(info, seq![27u8, 91u8, 50u8, 51u8, 59u8, 51u8, 126u8]);
    }
}

proof fn lemma_default_key_95(info: &Capabilities)
    ensures
        bound_unless_described(info, seq![27u8, 91u8, 50u8, 51u8, 59u8, 54u8, 126u8], Key { modifier: Modifier { bits: 4 }, value: Value::F(11) }),
{
    lemma_group_0(seq![27u8, 91u8, 50u8, 51u8, 59u8, 54u8, 126u8]);
    lemma_group_1(seq![27u8, 91u8, 50u8, 51u8, 59u8, 54u8, 126u8]);
    lemma_group_2(seq![27u8, 91u8, 50u8, 51u8, 59u8, 54u8, 126u8]);
    lemma_group_3(seq![27u8, 91u8, 50u8, 51u8, 59u8, 54u8, 126u8]);
    lemma_group_4(seq![27u8, 91u8, 50u8, 51u8, 59u8, 54u8, 126u8]);
    lemma_group_5(seq![27u8, 91u8, 50u8, 51u8, 59u8, 54u8, 126u8]);
    lemma_group_6(seq![27u8, 91u8, 50u8, 51u8, 59u8, 54u8, 126u8]);
    lemma_group_7(seq![27u8, 91u8, 50u8, 51u8, 59u8, 54u8, 126u8]);
    lemma_group_8(seq![27u8, 91u8, 50u8, 51u8, 59u8, 54u8, 126u8]);
    lemma_default_groups(seq![27u8, 91u8, 50u8, 51u8, 59u8, 54u8, 126u8]);
    if !described(info, seq![27u8, 91u8, 50u8, 51u8, 59u8, 54u8, 126u8]) {
        lemma_initial_default(info, seq![27u8, 91u8, 50u8, 51u8, 59u8, 54u8, 126u8]);
    }
}

proof fn lemma_default_key_96(info: &Capabilities)
    ensures
        bound_unless_described(info, seq![27u8, 91u8, 50u8, 51u8, 59u8, 50u8, 126u8], Key { modifier: Modifier { bits: 8 }, value: Value::F(11) }),
{
    lemma_group_0(seq![27u8, 91u8, 50u8, 51u8, 59u8, 50u8, 126u8]);
    lemma_group_1(seq![27u8, 91u8, 50u8, 51u8, 59u8, 50u8, 126u8]);
    lemma_group_2(seq![27u8, 91u8, 50u8, 51u8, 59u8, 50u8, 126u8]);
    lemma_group_3(seq![27u8, 91u8, 50u8, 51u8, 59u8, 50u8, 126u8]);
    lemma_group_4(seq![27u8, 91u8, 50u8, 51u8, 59u8, 50u8, 126u8]);
    lemma_group_5(seq![27u8, 91u8, 50u8, 51u8, 59u8, 50u8, 126u8]);
    lemma_group_6(seq![27u8, 91u8, 50u8, 51u8, 59u8, 50u8, 126u8]);
    lemma_group_7(seq![27u8, 91u8, 50u8, 51u8, 59u8, 50u8, 126u8]);
    lemma_group_8(seq![27u8, 91u8, 50u8, 51u8, 59u8, 50u8, 126u8]);
    lemma_default_groups(seq![27u8, 91u8, 50u8, 51u8, 59u8, 50u8, 126u8]);
    if !described(info, seq![27u8, 91u8, 50u8, 51u8, 59u8, 50u8, 126u8]) {
        lemma_initial_default(info, seq![27u8, 91u8, 50u8, 51u8, 59u8, 50u8, 126u8]);
    }
}

proof fn lemma_default_key_97(info: &Capabilities)
    ensures
        bound_unless_described(info, seq![27u8, 91u8, 50u8, 51u8, 126u8], Key { modifier: Modifier { bits: 0 }, value: Value::F(11) }),
{
    lemma_group_0(seq![27u8, 91u8, 50u8, 51u8, 126u8]);
    lemma_group_1(seq![27u8, 91u8, 50u8, 51u8, 126u8]);
    lemma_group_2(seq![27u8, 91u8, 50u8, 51u8, 126u8]);
    lemma_group_3(seq![27u8, 91u8, 50u8, 51u8, 126u8]);
    lemma_group_4(seq![27u8, 91u8, 50u8, 51u8, 126u8]);
    lemma_group_5(seq![27u8, 91u8, 50u8, 51u8, 126u8]);
    lemma_group_6(seq![27u8, 91u8, 50u8, 51u8, 126u8]);
    lemma_group_7(seq![27u8, 91u8, 50u8, 51u8, 126u8]);
    lemma_group_8(seq![27u8, 91u8, 50u8, 51u8, 126u8]);
    lemma_default_groups(seq![27u8, 91u8, 50u8, 51u8, 126u8]);
    if !described(info, seq![27u8, 91u8, 50u8, 51u8, 126u8]) {
        lemma_initial_default(info, seq![27u8, 91u8, 50u8, 51u8, 126u8]);
    }
}

proof fn lemma_default_key_98(info: &Capabilities)
    ensures
        bound_unless_described(info, seq![27u8, 91u8, 50u8, 52u8, 59u8, 53u8, 126u8], Key { modifier: Modifier { bits: 2 }, value: Value::F(12) }),
{
    lemma_group_0(seq![27u8, 91u8, 50u8, 52u8, 59u8, 53u8, 126u8]);
    lemma_group_1(seq![27u8, 91u8, 50u8, 52u8, 59u8, 53u8, 126u8]);
    lemma_group_2(seq![27u8, 91u8, 50u8, 52u8, 59u8, 53u8, 126u8]);
    lemma_group_3(seq![27u8, 91u8, 50u8, 52u8, 59u8, 53u8, 126u8]);
    lemma_group_4(seq![27u8, 91u8, 50u8, 52u8, 59u8, 53u8, 126u8]);
    lemma_group_5(seq![27u8, 91u8, 50u8, 52u8, 59u8, 53u8, 126u8]);
    lemma_group_6(seq![27u8, 91u8, 50u8, 52u8, 59u8, 53u8, 126u8]);
    lemma_group_7(seq![27u8, 91u8, 50u8, 52u8, 59u8, 53u8, 126u8]);
    lemma_group_8(seq![27u8, 91u8, 50u8, 52u8, 59u8, 53u8, 126u8]);
    lemma_default_groups(seq![27u8, 91u8, 50u8, 52u8, 59u8, 53u8, 126u8]);
    if !described(info, seq![27u8, 91u8, 50u8, 52u8, 59u8, 53u8, 126u8]) {
        lemma_initial_default(info, seq![27u8, 91u8, 50u8, 52u8, 59u8, 53u8, 126u8]);
    }
}

proof fn lemma_default_key_99(info: &Capabilities)
    ensures
        bound_unless_described(info, seq![27u8, 91u8, 50u8, 52u8, 59u8, 51u8, 126u8], Key { modifier: Modifier { bits: 1 }, value: Value::F(12) }),
{
    lemma_group_0(seq![27u8, 91u8, 50u8, 52u8, 59u8, 51u8, 126u8]);
    lemma_group_1(seq![27u8, 91u8, 50u8, 52u8, 59u8, 51u8, 126u8]);
    lemma_group_2(seq![27u8, 91u8, 50u8, 52u8, 59u8, 51u8, 126u8]);
    lemma_group_3(seq![27u8, 91u8, 50u8, 52u8, 59u8, 51u8, 126u8]);
    lemma_group_4(seq![27u8, 91u8, 50u8, 52u8, 59u8, 51u8, 126u8]);
    lemma_group_5(seq![27u8, 91u8, 50u8, 52u8, 59u8, 51u8, 126u8]);
    lemma_group_6(seq![27u8, 91u8, 50u8, 52u8, 59u8, 51u8, 126u8]);
    lemma_group_7(seq![27u8, 91u8, 50u8, 52u8, 59u8, 51u8, 126u8]);
    lemma_group_8(seq![27u8, 91u8, 50u8, 52u8, 59u8, 51u8, 126u8]);
    lemma_group_9(seq![27u8, 91u8, 50u8, 52u8, 59u8, 51u8, 126u8]);
    lemma_default_groups(seq![27u8, 91u8, 50u8, 52u8, 59u8, 51u8, 126u8]);
    if !described(info, seq![27u8, 91u8, 50u8, 52u8, 59u8, 51u8, 126u8]) {
        lemma_initial_default(info, seq![27u8, 91u8, 50u8, 52u8, 59u8, 51u8, 126u8]);
    }
}

proof fn lemma_default_key_100(info: &Capabilities)
    ensures
        bound_unless_described(info, seq![27u8, 91u8, 50u8, 52u8, 59u8, 54u8, 126u8], Key { modifier: Modifier { bits: 4 }, value: Value::F(12) }),
{
    lemma_group_0(seq![27u8, 91u8, 50u8, 52u8, 59u8, 54u8, 126u8]);
    lemma_group_1(seq![27u8, 91u8, 50u8, 52u8, 59u8, 54u8, 126u8]);
    lemma_group_2(seq![27u8, 91u8, 50u8, 52u8, 59u8, 54u8, 126u8]);
    lemma_group_3(seq![27u8, 91u8, 50u8, 52u8, 59u8, 54u8, 126u8]);
    lemma_group_4(seq![27u8, 91u8, 50u8, 52u8, 59u8, 54u8, 126u8]);
    lemma_group_5(seq![27u8, 91u8, 50u8, 52u8, 59u8, 54u8, 126u8]);
    lemma_group_6(seq![27u8, 91u8, 50u8, 52u8, 59u8, 54u8, 126u8]);
    lemma_group_7(seq![27u8, 91u8, 50u8, 52u8, 59u8, 54u8, 126u8]);
    lemma_group_8(seq![27u8, 91u8, 50u8, 52u8, 59u8, 54u8, 126u8]);
    lemma_group_9(seq![27u8, 91u8, 50u8, 52u8, 59u8, 54u8, 126u8]);
    lemma_default_groups(seq![27u8, 91u8, 50u8, 52u8, 59u8, 54u8, 126u8]);
    if !described(info, seq![27u8, 91u8, 50u8, 52u8, 59u8, 54u8, 126u8]) {
        lemma_initial_default(info, seq![27u8, 91u8, 50u8, 52u8, 59u8, 54u8, 126u8]);
    }
}

proof fn lemma_default_key_101(info: &Capabilities)
    ensures
        bound_unless_described(info, seq![27u8, 91u8, 50u8, 52u8, 59u8, 50u8, 126u8], Key { modifier: Modifier { bits: 8 }, value: Value::F(12) }),
{
    lemma_group_0(seq![27u8, 91u8, 50u8, 52u8, 59u8, 50u8, 126u8]);
    lemma_group_1(seq![27u8, 91u8, 50u8, 52u8, 59u8, 50u8, 126u8]);
    lemma_group_2(seq![27u8, 91u8, 50u8, 52u8, 59u8, 50u8, 126u8]);
    lemma_group_3(seq![27u8, 91u8, 50u8, 52u8, 59u8, 50u8, 126u8]);
    lemma_group_4(seq![27u8, 91u8, 50u8, 52u8, 59u8, 50u8, 126u8]);
    lemma_group_5(seq![27u8, 91u8, 50u8, 52u8, 59u8, 50u8, 126u8]);
    lemma_group_6(seq![27u8, 91u8, 50u8, 52u8, 59u8, 50u8, 126u8]);
    lemma_group_7(seq![27u8, 91u8, 50u8, 52u8, 59u8, 50u8, 126u8]);
    lemma_group_8(seq![27u8, 91u8, 50u8, 52u8, 59u8, 50u8, 126u8]);
    lemma_group_9(seq![27u8, 91u8, 50u8, 52u8, 59u8, 50u8, 126u8]);
    lemma_default_groups(seq![27u8, 91u8, 50u8, 52u8, 59u8, 50u8, 126u8]);
    if !described(info, seq![27u8, 91u8, 50u8, 52u8, 59u8, 50u8, 126u8]) {
        lemma_initial_default(info, seq![27u8, 91u8, 50u8, 52u8, 59u8, 50u8, 126u8]);
    }
}

proof fn lemma_default_key_102(info: &Capabilities)
    ensures
        bound_unless_described(info, seq![27u8, 91u8, 50u8, 52u8, 126u8], Key { modifier: Modifier { bits: 0 }, value: Value::F(12) }),
{
    lemma_group_0(seq![27u8, 91u8, 50u8, 52u8, 126u8]);
    lemma_group_1(seq![27u8, 91u8, 50u8, 52u8, 126u8]);
    lemma_group_2(seq![27u8, 91u8, 50u8, 52u8, 126u8]);
    lemma_group_3(seq![27u8, 91u8, 50u8, 52u8, 126u8]);
    lemma_group_4(seq![27u8, 91u8, 50u8, 52u8, 126u8]);
    lemma_group_5(seq![27u8, 91u8, 50u8, 52u8, 126u8]);
    lemma_group_6(seq![27u8, 91u8, 50u8, 52u8, 126u8]);
    lemma_group_7(seq![27u8, 91u8, 50u8, 52u8, 126u8]);
    lemma_group_8(seq![27u8, 91u8, 50u8, 52u8, 126u8]);
    lemma_group_9(seq![27u8, 91u8, 50u8, 52u8, 126u8]);
    lemma_default_groups(seq![27u8, 91u8, 50u8, 52u8, 126u8]);
    if !described(info, seq![27u8, 91u8, 50u8, 52u8, 126u8]) {
        lemma_initial_default(info, seq![27u8, 91u8, 50u8, 52u8, 126u8]);
    }
}

/// The table `Keys::new` builds binds each built-in sequence that the
/// description does not bind to the key that the first built-in binding of
/// it names: among them ESC [ 5 ~ to PageUp and ESC [ 6 ~ to PageDown, DEL
/// to BackSpace, ESC [ Z to Shift+Tab, and ESC [ 1 ; 2 P to Shift+F1 (its
/// later binding to F13 does not count).
pub proof fn lemma_default_keys(info: &Capabilities)
    ensures
        bound_unless_described(info, seq![27u8, 91u8, 90u8], Key { modifier: Modifier { bits: 8 }, value: Value::Tab }),
        bound_unless_described(info, seq![27u8, 127u8], Key { modifier: Modifier { bits: 1 }, value: Value::BackSpace }),
        bound_unless_described(info, seq![127u8], Key { modifier: Modifier { bits: 0 }, value: Value::BackSpace }),
        bound_unless_described(info, seq![27u8, 13u8, 10u8], Key { modifier: Modifier { bits: 1 }, value: Value::Enter }),
        bound_unless_described(info, seq![27u8, 13u8], Key { modifier: Modifier { bits: 1 }, value: Value::Enter }),
        bound_unless_described(info, seq![27u8, 10u8], Key { modifier: Modifier { bits: 1 }, value: Value::Enter }),
        bound_unless_described(info, seq![13u8, 10u8], Key { modifier: Modifier { bits: 0 }, value: Value::Enter }),
        bound_unless_described(info, seq![13u8], Key { modifier: Modifier { bits: 0 }, value: Value::Enter }),
        bound_unless_described(info, seq![10u8], Key { modifier: Modifier { bits: 0 }, value: Value::Enter }),
        bound_unless_described(info, seq![27u8, 91u8, 51u8, 59u8, 53u8, 126u8], Key { modifier: Modifier { bits: 2 }, value: Value::Delete }),
        bound_unless_described(info, seq![27u8, 91u8, 51u8, 59u8, 50u8, 126u8], Key { modifier: Modifier { bits: 8 }, value: Value::Delete }),
        bound_unless_described(info, seq![27u8, 91u8, 51u8, 126u8], Key { modifier: Modifier { bits: 0 }, value: Value::Delete }),
        bound_unless_described(info, seq![27u8, 91u8, 50u8, 59u8, 53u8, 126u8], Key { modifier: Modifier { bits: 2 }, value: Value::Insert }),
        bound_unless_described(info, seq![27u8, 91u8, 50u8, 59u8, 50u8, 126u8], Key { modifier: Modifier { bits: 8 }, value: Value::Insert }),
        bound_unless_described(info, seq![27u8, 91u8, 50u8, 126u8], Key { modifier: Modifier { bits: 0 }, value: Value::Insert }),
        bound_unless_described(info, seq![27u8, 91u8, 49u8, 59u8, 50u8, 72u8], Key { modifier: Modifier { bits: 8 }, value: Value::Home }),
        bound_unless_described(info, seq![27u8, 91u8, 72u8], Key { modifier: Modifier { bits: 0 }, value: Value::Home }),
        bound_unless_described(info, seq![27u8, 91u8, 49u8, 59u8, 53u8, 70u8], Key { modifier: Modifier { bits: 2 }, value: Value::End }),
        bound_unless_described(info, seq![27u8, 91u8, 49u8, 59u8, 50u8, 70u8], Key { modifier: Modifier { bits: 8 }, value: Value::End }),
        bound_unless_described(info, seq![27u8, 91u8, 56u8, 126u8], Key { modifier: Modifier { bits: 0 }, value: Value::End }),
        bound_unless_described(info, seq![27u8, 91u8, 69u8], Key { modifier: Modifier { bits: 0 }, value: Value::Begin }),
        bound_unless_described(info, seq![27u8, 91u8, 53u8, 59u8, 53u8, 126u8], Key { modifier: Modifier { bits: 2 }, value: Value::PageUp }),
        bound_unless_described(info, seq![27u8, 91u8, 53u8, 59u8, 50u8, 126u8], Key { modifier: Modifier { bits: 8 }, value: Value::PageUp }),
        bound_unless_described(info, seq![27u8, 91u8, 53u8, 126u8], Key { modifier: Modifier { bits: 0 }, value: Value::PageUp }),
        bound_unless_described(info, seq![27u8, 91u8, 54u8, 59u8, 53u8, 126u8], Key { modifier: Modifier { bits: 2 }, value: Value::PageDown }),
        bound_unless_described(info, seq![27u8, 91u8, 54u8, 59u8, 50u8, 126u8], Key { modifier: Modifier { bits: 8 }, value: Value::PageDown }),
        bound_unless_described(info, seq![27u8, 91u8, 54u8, 126u8], Key { modifier: Modifier { bits: 0 }, value: Value::PageDown }),
        bound_unless_described(info, seq![27u8, 91u8, 49u8, 59u8, 53u8, 65u8], Key { modifier: Modifier { bits: 2 }, value: Value::Up }),
        bound_unless_described(info, seq![27u8, 91u8, 49u8, 59u8, 51u8, 65u8], Key { modifier: Modifier { bits: 1 }, value: Value::Up }),
        bound_unless_described(info, seq![27u8, 91u8, 49u8, 59u8, 50u8, 65u8], Key { modifier: Modifier { bits: 8 }, value: Value::Up }),
        bound_unless_described(info, seq![27u8, 66u8, 79u8, 65u8], Key { modifier: Modifier { bits: 0 }, value: Value::Up }),
        bound_unless_described(info, seq![27u8, 91u8, 49u8, 59u8, 53u8, 66u8], Key { modifier: Modifier { bits: 2 }, value: Value::Down }),
        bound_unless_described(info, seq![27u8, 91u8, 49u8, 59u8, 51u8, 66u8], Key { modifier: Modifier { bits: 1 }, value: Value::Down }),
        bound_unless_described(info, seq![27u8, 91u8, 49u8, 59u8, 50u8, 66u8], Key { modifier: Modifier { bits: 8 }, value: Value::Down }),
        bound_unless_described(info, seq![27u8, 66u8, 79u8, 66u8], Key { modifier: Modifier { bits: 0 }, value: Value::Down }),
        bound_unless_described(info, seq![27u8, 91u8, 49u8, 59u8, 53u8, 67u8], Key { modifier: Modifier { bits: 2 }, value: Value::Right }),
        bound_unless_described(info, seq![27u8, 91u8, 49u8, 59u8, 51u8, 67u8], Key { modifier: Modifier { bits: 1 }, value: Value::Right }),
        bound_unless_described(info, seq![27u8, 91u8, 49u8, 59u8, 50u8, 67u8], Key { modifier: Modifier { bits: 8 }, value: Value::Right }),
        bound_unless_described(info, seq![27u8, 66u8, 79u8, 67u8], Key { modifier: Modifier { bits: 0 }, value: Value::Right }),
        bound_unless_described(info, seq![27u8, 91u8, 49u8, 59u8, 53u8, 68u8], Key { modifier: Modifier { bits: 2 }, value: Value::Left }),
        bound_unless_described(info, seq![27u8, 91u8, 49u8, 59u8, 51u8, 68u8], Key { modifier: Modifier { bits: 1 }, value: Value::Left }),
        bound_unless_described(info, seq![27u8, 91u8, 49u8, 59u8, 50u8, 68u8], Key { modifier: Modifier { bits: 8 }, value: Value::Left }),
        bound_unless_described(info, seq![27u8, 66u8, 79u8, 68u8], Key { modifier: Modifier { bits: 0 }, value: Value::Left }),
        bound_unless_described(info, seq![27u8, 91u8, 49u8, 59u8, 53u8, 80u8], Key { modifier: Modifier { bits: 2 }, value: Value::F(1) }),
        bound_unless_described(info, seq![27u8, 91u8, 49u8, 59u8, 51u8, 80u8], Key { modifier: Modifier { bits: 1 }, value: Value::F(1) }),
        bound_unless_described(info, seq![27u8, 91u8, 49u8, 59u8, 54u8, 80u8], Key { modifier: Modifier { bits: 4 }, value: Value::F(1) }),
        bound_unless_described(info, seq![27u8, 91u8, 49u8, 59u8, 50u8, 80u8], Key { modifier: Modifier { bits: 8 }, value: Value::F(1) }),
        bound_unless_described(info, seq![27u8, 79u8, 80u8], Key { modifier: Modifier { bits: 0 }, value: Value::F(1) }),
        bound_unless_described(info, seq![27u8, 91u8, 49u8, 59u8, 53u8, 81u8], Key { modifier: Modifier { bits: 2 }, value: Value::F(2) }),
        bound_unless_described(info, seq![27u8, 91u8, 49u8, 59u8, 51u8, 81u8], Key { modifier: Modifier { bits: 1 }, value: Value::F(2) }),
        bound_unless_described(info, seq![27u8, 91u8, 49u8, 59u8, 54u8, 81u8], Key { modifier: Modifier { bits: 4 }, value: Value::F(2) }),
        bound_unless_described(info, seq![27u8, 91u8, 49u8, 59u8, 50u8, 81u8], Key { modifier: Modifier { bits: 8 }, value: Value::F(2) }),
        bound_unless_described(info, seq![27u8, 79u8, 81u8], Key { modifier: Modifier { bits: 0 }, value: Value::F(2) }),
        bound_unless_described(info, seq![27u8, 91u8, 49u8, 59u8, 53u8, 82u8], Key { modifier: Modifier { bits: 2 }, value: Value::F(3) }),
        bound_unless_described(info, seq![27u8, 91u8, 49u8, 59u8, 51u8, 82u8], Key { modifier: Modifier { bits: 1 }, value: Value::F(3) }),
        bound_unless_described(info, seq![27u8, 91u8, 49u8, 59u8, 54u8, 82u8], Key { modifier: Modifier { bits: 4 }, value: Value::F(3) }),
        bound_unless_described(info, seq![27u8, 91u8, 49u8, 59u8, 50u8, 82u8], Key { modifier: Modifier { bits: 8 }, value: Value::F(3) }),
        bound_unless_described(info, seq![27u8, 79u8, 82u8], Key { modifier: Modifier { bits: 0 }, value: Value::F(3) }),
        bound_unless_described(info, seq![27u8, 91u8, 49u8, 59u8, 53u8, 83u8], Key { modifier: Modifier { bits: 2 }, value: Value::F(4) }),
        bound_unless_described(info, seq![27u8, 91u8, 49u8, 59u8, 51u8, 83u8], Key { modifier: Modifier { bits: 1 }, value: Value::F(4) }),
        bound_unless_described(info, seq![27u8, 91u8, 49u8, 59u8, 54u8, 83u8], Key { modifier: Modifier { bits: 4 }, value: Value::F(4) }),
        bound_unless_described(info, seq![27u8, 91u8, 49u8, 59u8, 50u8, 83u8], Key { modifier: Modifier { bits: 8 }, value: Value::F(4) }),
        bound_unless_described(info, seq![27u8, 79u8, 83u8], Key { modifier: Modifier { bits: 0 }, value: Value::F(4) }),
        bound_unless_described(info, seq![27u8, 91u8, 49u8, 53u8, 59u8, 53u8, 126u8], Key { modifier: Modifier { bits: 2 }, value: Value::F(5) }),
        bound_unless_described(info, seq![27u8, 91u8, 49u8, 53u8, 59u8, 51u8, 126u8], Key { modifier: Modifier { bits: 1 }, value: Value::F(5) }),
        bound_unless_described(info, seq![27u8, 91u8, 49u8, 53u8, 59u8, 54u8, 126u8], Key { modifier: Modifier { bits: 4 }, value: Value::F(5) }),
        bound_unless_described(info, seq![27u8, 91u8, 49u8, 53u8, 59u8, 50u8, 126u8], Key { modifier: Modifier { bits: 8 }, value: Value::F(5) }),
        bound_unless_described(info, seq![27u8, 91u8, 49u8, 53u8, 126u8], Key { modifier: Modifier { bits: 0 }, value: Value::F(5) }),
        bound_unless_described(info, seq![27u8, 91u8, 49u8, 55u8, 59u8, 53u8, 126u8], Key { modifier: Modifier { bits: 2 }, value: Value::F(6) }),
        bound_unless_described(info, seq![27u8, 91u8, 49u8, 55u8, 59u8, 51u8, 126u8], Key { modifier: Modifier { bits: 1 }, value: Value::F(6) }),
        bound_unless_described(info, seq![27u8, 91u8, 49u8, 55u8, 59u8, 54u8, 126u8], Key { modifier: Modifier { bits: 4 }, value: Value::F(6) }),
        bound_unless_described(info, seq![27u8, 91u8, 49u8, 55u8, 59u8, 50u8, 126u8], Key { modifier: Modifier { bits: 8 }, value: Value::F(6) }),
        bound_unless_described(info, seq![27u8, 91u8, 49u8, 55u8, 126u8], Key { modifier: Modifier { bits: 0 }, value: Value::F(6) }),
        bound_unless_described(info, seq![27u8, 91u8, 49u8, 56u8, 59u8, 53u8, 126u8], Key { modifier: Modifier { bits: 2 }, value: Value::F(7) }),
        bound_unless_described(info, seq![27u8, 91u8, 49u8, 56u8, 59u8, 51u8, 126u8], Key { modifier: Modifier { bits: 1 }, value: Value::F(7) }),
        bound_unless_described(info, seq![27u8, 91u8, 49u8, 56u8, 59u8, 54u8, 126u8], Key { modifier: Modifier { bits: 4 }, value: Value::F(7) }),
        bound_unless_described(info, seq![27u8, 91u8, 49u8, 56u8, 59u8, 50u8, 126u8], Key { modifier: Modifier { bits: 8 }, value: Value::F(7) }),
        bound_unless_described(info, seq![27u8, 91u8, 49u8, 56u8, 126u8], Key { modifier: Modifier { bits: 0 }, value: Value::F(7) }),
        bound_unless_described(info, seq![27u8, 91u8, 49u8, 57u8, 59u8, 53u8, 126u8], Key { modifier: Modifier { bits: 2 }, value: Value::F(8) }),
        bound_unless_described(info, seq![27u8, 91u8, 49u8, 57u8, 59u8, 51u8, 126u8], Key { modifier: Modifier { bits: 1 }, value: Value::F(8) }),
        bound_unless_described(info, seq![27u8, 91u8, 49u8, 57u8, 59u8, 54u8, 126u8], Key { modifier: Modifier { bits: 4 }, value: Value::F(8) }),
        bound_unless_described(info, seq![27u8, 91u8, 49u8, 57u8, 59u8, 50u8, 126u8], Key { modifier: Modifier { bits: 8 }, value: Value::F(8) }),
        bound_unless_described(info, seq![27u8, 91u8, 49u8, 57u8, 126u8], Key { modifier: Modifier { bits: 0 }, value: Value::F(8) }),
        bound_unless_described(info, seq![27u8, 91u8, 50u8, 48u8, 59u8, 53u8, 126u8], Key { modifier: Modifier { bits: 2 }, value: Value::F(9) }),
        bound_unless_described(info, seq![27u8, 91u8, 50u8, 48u8, 59u8, 51u8, 126u8], Key { modifier: Modifier { bits: 1 }, value: Value::F(9) }),
        bound_unless_described(info, seq![27u8, 91u8, 50u8, 48u8, 59u8, 54u8, 126u8], Key { modifier: Modifier { bits: 4 }, value: Value::F(9) }),
        bound_unless_described(info, seq![27u8, 91u8, 50u8, 48u8, 59u8, 50u8, 126u8], Key { modifier: Modifier { bits: 8 }, value: Value::F(9) }),
        bound_unless_described(info, seq![27u8, 91u8, 50u8, 48u8, 126u8], Key { modifier: Modifier { bits: 0 }, value: Value::F(9) }),
        bound_unless_described(info, seq![27u8, 91u8, 50u8, 49u8, 59u8, 53u8, 126u8], Key { modifier: Modifier { bits: 2 }, value: Value::F(10) }),
        bound_unless_described(info, seq![27u8, 91u8, 50u8, 49u8, 59u8, 51u8, 126u8], Key { modifier: Modifier { bits: 1 }, value: Value::F(10) }),
        bound_unless_described(info, seq![27u8, 91u8, 50u8, 49u8, 59u8, 54u8, 126u8], Key { modifier: Modifier { bits: 4 }, value: Value::F(10) }),
        bound_unless_described(info, seq![27u8, 91u8, 50u8, 49u8, 59u8, 50u8, 126u8], Key { modifier: Modifier { bits: 8 }, value: Value::F(10) }),
        bound_unless_described(info, seq![27u8, 91u8, 50u8, 49u8, 126u8], Key { modifier: Modifier { bits: 0 }, value: Value::F(10) }),
        bound_unless_described(info, seq![27u8, 91u8, 50u8, 51u8, 59u8, 53u8, 126u8], Key { modifier: Modifier { bits: 2 }, value: Value::F(11) }),
        bound_unless_described(info, seq![27u8, 91u8, 50u8, 51u8, 59u8, 51u8, 126u8], Key { modifier: Modifier { bits: 1 }, value: Value::F(11) }),
        bound_unless_described(info, seq![27u8, 91u8, 50u8, 51u8, 59u8, 54u8, 126u8], Key { modifier: Modifier { bits: 4 }, value: Value::F(11) }),
        bound_unless_described(info, seq![27u8, 91u8, 50u8, 51u8, 59u8, 50u8, 126u8], Key { modifier: Modifier { bits: 8 }, value: Value::F(11) }),
        bound_unless_described(info, seq![27u8, 91u8, 50u8, 51u8, 126u8], Key { modifier: Modifier { bits: 0 }, value: Value::F(11) }),
        bound_unless_described(info, seq![27u8, 91u8, 50u8, 52u8, 59u8, 53u8, 126u8], Key { modifier: Modifier { bits: 2 }, value: Value::F(12) }),
        bound_unless_described(info, seq![27u8, 91u8, 50u8, 52u8, 59u8, 51u8, 126u8], Key { modifier: Modifier { bits: 1 }, value: Value::F(12) }),
        bound_unless_described(info, seq![27u8, 91u8, 50u8, 52u8, 59u8, 54u8, 126u8], Key { modifier: Modifier { bits: 4 }, value: Value::F(12) }),
        bound_unless_described(info, seq![27u8, 91u8, 50u8, 52u8, 59u8, 50u8, 126u8], Key { modifier: Modifier { bits: 8 }, value: Value::F(12) }),
        bound_unless_described(info, seq![27u8, 91u8, 50u8, 52u8, 126u8], Key { modifier: Modifier { bits: 0 }, value: Value::F(12) }),
{
    lemma_default_key_0(info);
    lemma_default_key_1(info);
    lemma_default_key_2(info);
    lemma_default_key_3(info);
    lemma_default_key_4(info);
    lemma_default_key_5(info);
    lemma_default_key_6(info);
    lemma_default_key_7(info);
    lemma_default_key_8(info);
    lemma_default_key_9(info);
    lemma_default_key_10(info);
    lemma_default_key_11(info);
    lemma_default_key_12(info);
    lemma_default_key_13(info);
    lemma_default_key_14(info);
    lemma_default_key_15(info);
    lemma_default_key_16(info);
    lemma_default_key_17(info);
    lemma_default_key_18(info);
    lemma_default_key_19(info);
    lemma_default_key_20(info);
    lemma_default_key_21(info);
    lemma_default_key_22(info);
    lemma_default_key_23(info);
    lemma_default_key_24(info);
    lemma_default_key_25(info);
    lemma_default_key_26(info);
    lemma_default_key_27(info);
    lemma_default_key_28(info);
    lemma_default_key_29(info);
    lemma_default_key_30(info);
    lemma_default_key_31(info);
    lemma_default_key_32(info);
    lemma_default_key_33(info);
    lemma_default_key_34(info);
    lemma_default_key_35(info);
    lemma_default_key_36(info);
    lemma_default_key_37(info);
    lemma_default_key_38(info);
    lemma_default_key_39(info);
    lemma_default_key_40(info);
    lemma_default_key_41(info);
    lemma_default_key_42(info);
    lemma_default_key_43(info);
    lemma_default_key_44(info);
    lemma_default_key_45(info);
    lemma_default_key_46(info);
    lemma_default_key_47(info);
    lemma_default_key_48(info);
    lemma_default_key_49(info);
    lemma_default_key_50(info);
    lemma_default_key_51(info);
    lemma_default_key_52(info);
    lemma_default_key_53(info);
    lemma_default_key_54(info);
    lemma_default_key_55(info);
    lemma_default_key_56(info);
    lemma_default_key_57(info);
    lemma_default_key_58(info);
    lemma_default_key_59(info);
    lemma_default_key_60(info);
    lemma_default_key_61(info);
    lemma_default_key_62(info);
    lemma_default_key_63(info);
    lemma_default_key_64(info);
    lemma_default_key_65(info);
    lemma_default_key_66(info);
    lemma_default_key_67(info);
    lemma_default_key_68(info);
    lemma_default_key_69(info);
    lemma_default_key_70(info);
    lemma_default_key_71(info);
    lemma_default_key_72(info);
    lemma_default_key_73(info);
    lemma_default_key_74(info);
    lemma_default_key_75(info);
    lemma_default_key_76(info);
    lemma_default_key_77(info);
    lemma_default_key_78(info);
    lemma_default_key_79(info);
    lemma_default_key_80(info);
    lemma_default_key_81(info);
    lemma_default_key_82(info);
    lemma_default_key_83(info);
    lemma_default_key_84(info);
    lemma_default_key_85(info);
    lemma_default_key_86(info);
    lemma_default_key_87(info);
    lemma_default_key_88(info);
    lemma_default_key_89(info);
    lemma_default_key_90(info);
    lemma_default_key_91(info);
    lemma_default_key_92(info);
    lemma_default_key_93(info);
    lemma_default_key_94(info);
    lemma_default_key_95(info);
    lemma_default_key_96(info);
    lemma_default_key_97(info);
    lemma_default_key_98(info);
    lemma_default_key_99(info);
    lemma_default_key_100(info);
    lemma_default_key_101(info);
    lemma_default_key_102(info);
}

} // verus!
