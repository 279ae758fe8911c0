//! The byte sequences that common terminals send for keys, bound by default.
use vstd::prelude::*;

use crate::keys::{Key, Modifier, Value};

verus! {

/// A sequence of one byte.
fn single(b: u8) -> (r: Vec<u8>)
    ensures
        r@ == seq![b],
{
    let mut r = Vec::new();
    r.push(b);
    r
}

/// The bindings `v` stands for, each sequence taken by its bytes.
pub open spec fn binding_views(v: Seq<(Vec<u8>, Key)>) -> Seq<(Seq<u8>, Key)> {
    v.map_values(|p: (Vec<u8>, Key)| (p.0@, p.1))
}

/// A part of the default bindings.
pub open spec fn default_group_0() -> Seq<(Seq<u8>, Key)> {
    seq![
        (seq![27u8, 91u8, 90u8], Key { modifier: Modifier { bits: 8 }, value: Value::Tab }),
        (seq![27u8, 127u8], Key { modifier: Modifier { bits: 1 }, value: Value::BackSpace }),
        (seq![127u8], Key { modifier: Modifier { bits: 0 }, value: Value::BackSpace }),
        (seq![27u8, 13u8, 10u8], Key { modifier: Modifier { bits: 1 }, value: Value::Enter }),
        (seq![27u8, 13u8], Key { modifier: Modifier { bits: 1 }, value: Value::Enter }),
        (seq![27u8, 10u8], Key { modifier: Modifier { bits: 1 }, value: Value::Enter }),
        (seq![13u8, 10u8], Key { modifier: Modifier { bits: 0 }, value: Value::Enter }),
        (seq![13u8], Key { modifier: Modifier { bits: 0 }, value: Value::Enter }),
        (seq![10u8], Key { modifier: Modifier { bits: 0 }, value: Value::Enter }),
        (seq![27u8, 91u8, 51u8, 59u8, 53u8, 126u8], Key { modifier: Modifier { bits: 2 }, value: Value::Delete }),
        (seq![27u8, 91u8, 51u8, 59u8, 50u8, 126u8], Key { modifier: Modifier { bits: 8 }, value: Value::Delete }),
    ]
}

/// A part of the default bindings.
pub open spec fn default_group_1() -> Seq<(Seq<u8>, Key)> {
    seq![
        (seq![27u8, 91u8, 51u8, 126u8], Key { modifier: Modifier { bits: 0 }, value: Value::Delete }),
        (seq![27u8, 91u8, 50u8, 59u8, 53u8, 126u8], Key { modifier: Modifier { bits: 2 }, value: Value::Insert }),
        (seq![27u8, 91u8, 50u8, 59u8, 50u8, 126u8], Key { modifier: Modifier { bits: 8 }, value: Value::Insert }),
        (seq![27u8, 91u8, 50u8, 126u8], Key { modifier: Modifier { bits: 0 }, value: Value::Insert }),
        (seq![27u8, 91u8, 49u8, 59u8, 50u8, 72u8], Key { modifier: Modifier { bits: 8 }, value: Value::Home }),
        (seq![27u8, 91u8, 72u8], Key { modifier: Modifier { bits: 0 }, value: Value::Home }),
        (seq![27u8, 91u8, 49u8, 59u8, 53u8, 70u8], Key { modifier: Modifier { bits: 2 }, value: Value::End }),
        (seq![27u8, 91u8, 49u8, 59u8, 50u8, 70u8], Key { modifier: Modifier { bits: 8 }, value: Value::End }),
        (seq![27u8, 91u8, 56u8, 126u8], Key { modifier: Modifier { bits: 0 }, value: Value::End }),
        (seq![27u8, 91u8, 69u8], Key { modifier: Modifier { bits: 0 }, value: Value::Begin }),
        (seq![27u8, 91u8, 53u8, 59u8, 53u8, 126u8], Key { modifier: Modifier { bits: 2 }, value: Value::PageUp }),
    ]
}

/// A part of the default bindings.
pub open spec fn default_group_2() -> Seq<(Seq<u8>, Key)> {
    seq![
        (seq![27u8, 91u8, 53u8, 59u8, 50u8, 126u8], Key { modifier: Modifier { bits: 8 }, value: Value::PageUp }),
        (seq![27u8, 91u8, 53u8, 126u8], Key { modifier: Modifier { bits: 0 }, value: Value::PageUp }),
        (seq![27u8, 91u8, 54u8, 59u8, 53u8, 126u8], Key { modifier: Modifier { bits: 2 }, value: Value::PageDown }),
        (seq![27u8, 91u8, 54u8, 59u8, 50u8, 126u8], Key { modifier: Modifier { bits: 8 }, value: Value::PageDown }),
        (seq![27u8, 91u8, 54u8, 126u8], Key { modifier: Modifier { bits: 0 }, value: Value::PageDown }),
        (seq![27u8, 91u8, 49u8, 59u8, 53u8, 65u8], Key { modifier: Modifier { bits: 2 }, value: Value::Up }),
        (seq![27u8, 91u8, 49u8, 59u8, 51u8, 65u8], Key { modifier: Modifier { bits: 1 }, value: Value::Up }),
        (seq![27u8, 91u8, 49u8, 59u8, 50u8, 65u8], Key { modifier: Modifier { bits: 8 }, value: Value::Up }),
        (seq![27u8, 66u8, 79u8, 65u8], Key { modifier: Modifier { bits: 0 }, value: Value::Up }),
        (seq![27u8, 91u8, 49u8, 59u8, 53u8, 66u8], Key { modifier: Modifier { bits: 2 }, value: Value::Down }),
        (seq![27u8, 91u8, 49u8, 59u8, 51u8, 66u8], Key { modifier: Modifier { bits: 1 }, value: Value::Down }),
    ]
}

/// A part of the default bindings.
pub open spec fn default_group_3() -> Seq<(Seq<u8>, Key)> {
    seq![
        (seq![27u8, 91u8, 49u8, 59u8, 50u8, 66u8], Key { modifier: Modifier { bits: 8 }, value: Value::Down }),
        (seq![27u8, 66u8, 79u8, 66u8], Key { modifier: Modifier { bits: 0 }, value: Value::Down }),
        (seq![27u8, 91u8, 49u8, 59u8, 53u8, 67u8], Key { modifier: Modifier { bits: 2 }, value: Value::Right }),
        (seq![27u8, 91u8, 49u8, 59u8, 51u8, 67u8], Key { modifier: Modifier { bits: 1 }, value: Value::Right }),
        (seq![27u8, 91u8, 49u8, 59u8, 50u8, 67u8], Key { modifier: Modifier { bits: 8 }, value: Value::Right }),
        (seq![27u8, 66u8, 79u8, 67u8], Key { modifier: Modifier { bits: 0 }, value: Value::Right }),
        (seq![27u8, 91u8, 49u8, 59u8, 53u8, 68u8], Key { modifier: Modifier { bits: 2 }, value: Value::Left }),
        (seq![27u8, 91u8, 49u8, 59u8, 51u8, 68u8], Key { modifier: Modifier { bits: 1 }, value: Value::Left }),
        (seq![27u8, 91u8, 49u8, 59u8, 50u8, 68u8], Key { modifier: Modifier { bits: 8 }, value: Value::Left }),
        (seq![27u8, 66u8, 79u8, 68u8], Key { modifier: Modifier { bits: 0 }, value: Value::Left }),
        (seq![27u8, 91u8, 49u8, 59u8, 53u8, 80u8], Key { modifier: Modifier { bits: 2 }, value: Value::F(1) }),
    ]
}

/// A part of the default bindings.
pub open spec fn default_group_4() -> Seq<(Seq<u8>, Key)> {
    seq![
        (seq![27u8, 91u8, 49u8, 59u8, 51u8, 80u8], Key { modifier: Modifier { bits: 1 }, value: Value::F(1) }),
        (seq![27u8, 91u8, 49u8, 59u8, 54u8, 80u8], Key { modifier: Modifier { bits: 4 }, value: Value::F(1) }),
        (seq![27u8, 91u8, 49u8, 59u8, 50u8, 80u8], Key { modifier: Modifier { bits: 8 }, value: Value::F(1) }),
        (seq![27u8, 79u8, 80u8], Key { modifier: Modifier { bits: 0 }, value: Value::F(1) }),
        (seq![27u8, 91u8, 49u8, 59u8, 53u8, 81u8], Key { modifier: Modifier { bits: 2 }, value: Value::F(2) }),
        (seq![27u8, 91u8, 49u8, 59u8, 51u8, 81u8], Key { modifier: Modifier { bits: 1 }, value: Value::F(2) }),
        (seq![27u8, 91u8, 49u8, 59u8, 54u8, 81u8], Key { modifier: Modifier { bits: 4 }, value: Value::F(2) }),
        (seq![27u8, 91u8, 49u8, 59u8, 50u8, 81u8], Key { modifier: Modifier { bits: 8 }, value: Value::F(2) }),
        (seq![27u8, 79u8, 81u8], Key { modifier: Modifier { bits: 0 }, value: Value::F(2) }),
        (seq![27u8, 91u8, 49u8, 59u8, 53u8, 82u8], Key { modifier: Modifier { bits: 2 }, value: Value::F(3) }),
        (seq![27u8, 91u8, 49u8, 59u8, 51u8, 82u8], Key { modifier: Modifier { bits: 1 }, value: Value::F(3) }),
    ]
}

/// A part of the default bindings.
pub open spec fn default_group_5() -> Seq<(Seq<u8>, Key)> {
    seq![
        (seq![27u8, 91u8, 49u8, 59u8, 54u8, 82u8], Key { modifier: Modifier { bits: 4 }, value: Value::F(3) }),
        (seq![27u8, 91u8, 49u8, 59u8, 50u8, 82u8], Key { modifier: Modifier { bits: 8 }, value: Value::F(3) }),
        (seq![27u8, 79u8, 82u8], Key { modifier: Modifier { bits: 0 }, value: Value::F(3) }),
        (seq![27u8, 91u8, 49u8, 59u8, 53u8, 83u8], Key { modifier: Modifier { bits: 2 }, value: Value::F(4) }),
        (seq![27u8, 91u8, 49u8, 59u8, 51u8, 83u8], Key { modifier: Modifier { bits: 1 }, value: Value::F(4) }),
        (seq![27u8, 91u8, 49u8, 59u8, 54u8, 83u8], Key { modifier: Modifier { bits: 4 }, value: Value::F(4) }),
        (seq![27u8, 91u8, 49u8, 59u8, 50u8, 83u8], Key { modifier: Modifier { bits: 8 }, value: Value::F(4) }),
        (seq![27u8, 79u8, 83u8], Key { modifier: Modifier { bits: 0 }, value: Value::F(4) }),
        (seq![27u8, 91u8, 49u8, 53u8, 59u8, 53u8, 126u8], Key { modifier: Modifier { bits: 2 }, value: Value::F(5) }),
        (seq![27u8, 91u8, 49u8, 53u8, 59u8, 51u8, 126u8], Key { modifier: Modifier { bits: 1 }, value: Value::F(5) }),
        (seq![27u8, 91u8, 49u8, 53u8, 59u8, 54u8, 126u8], Key { modifier: Modifier { bits: 4 }, value: Value::F(5) }),
    ]
}

/// A part of the default bindings.
pub open spec fn default_group_6() -> Seq<(Seq<u8>, Key)> {
    seq![
        (seq![27u8, 91u8, 49u8, 53u8, 59u8, 50u8, 126u8], Key { modifier: Modifier { bits: 8 }, value: Value::F(5) }),
        (seq![27u8, 91u8, 49u8, 53u8, 126u8], Key { modifier: Modifier { bits: 0 }, value: Value::F(5) }),
        (seq![27u8, 91u8, 49u8, 55u8, 59u8, 53u8, 126u8], Key { modifier: Modifier { bits: 2 }, value: Value::F(6) }),
        (seq![27u8, 91u8, 49u8, 55u8, 59u8, 51u8, 126u8], Key { modifier: Modifier { bits: 1 }, value: Value::F(6) }),
        (seq![27u8, 91u8, 49u8, 55u8, 59u8, 54u8, 126u8], Key { modifier: Modifier { bits: 4 }, value: Value::F(6) }),
        (seq![27u8, 91u8, 49u8, 55u8, 59u8, 50u8, 126u8], Key { modifier: Modifier { bits: 8 }, value: Value::F(6) }),
        (seq![27u8, 91u8, 49u8, 55u8, 126u8], Key { modifier: Modifier { bits: 0 }, value: Value::F(6) }),
        (seq![27u8, 91u8, 49u8, 56u8, 59u8, 53u8, 126u8], Key { modifier: Modifier { bits: 2 }, value: Value::F(7) }),
        (seq![27u8, 91u8, 49u8, 56u8, 59u8, 51u8, 126u8], Key { modifier: Modifier { bits: 1 }, value: Value::F(7) }),
        (seq![27u8, 91u8, 49u8, 56u8, 59u8, 54u8, 126u8], Key { modifier: Modifier { bits: 4 }, value: Value::F(7) }),
        (seq![27u8, 91u8, 49u8, 56u8, 59u8, 50u8, 126u8], Key { modifier: Modifier { bits: 8 }, value: Value::F(7) }),
    ]
}

/// A part of the default bindings.
pub open spec fn default_group_7() -> Seq<(Seq<u8>, Key)> {
    seq![
        (seq![27u8, 91u8, 49u8, 56u8, 126u8], Key { modifier: Modifier { bits: 0 }, value: Value::F(7) }),
        (seq![27u8, 91u8, 49u8, 57u8, 59u8, 53u8, 126u8], Key { modifier: Modifier { bits: 2 }, value: Value::F(8) }),
        (seq![27u8, 91u8, 49u8, 57u8, 59u8, 51u8, 126u8], Key { modifier: Modifier { bits: 1 }, value: Value::F(8) }),
        (seq![27u8, 91u8, 49u8, 57u8, 59u8, 54u8, 126u8], Key { modifier: Modifier { bits: 4 }, value: Value::F(8) }),
        (seq![27u8, 91u8, 49u8, 57u8, 59u8, 50u8, 126u8], Key { modifier: Modifier { bits: 8 }, value: Value::F(8) }),
        (seq![27u8, 91u8, 49u8, 57u8, 126u8], Key { modifier: Modifier { bits: 0 }, value: Value::F(8) }),
        (seq![27u8, 91u8, 50u8, 48u8, 59u8, 53u8, 126u8], Key { modifier: Modifier { bits: 2 }, value: Value::F(9) }),
        (seq![27u8, 91u8, 50u8, 48u8, 59u8, 51u8, 126u8], Key { modifier: Modifier { bits: 1 }, value: Value::F(9) }),
        (seq![27u8, 91u8, 50u8, 48u8, 59u8, 54u8, 126u8], Key { modifier: Modifier { bits: 4 }, value: Value::F(9) }),
        (seq![27u8, 91u8, 50u8, 48u8, 59u8, 50u8, 126u8], Key { modifier: Modifier { bits: 8 }, value: Value::F(9) }),
        (seq![27u8, 91u8, 50u8, 48u8, 126u8], Key { modifier: Modifier { bits: 0 }, value: Value::F(9) }),
    ]
}

/// A part of the default bindings.
pub open spec fn default_group_8() -> Seq<(Seq<u8>, Key)> {
    seq![
        (seq![27u8, 91u8, 50u8, 49u8, 59u8, 53u8, 126u8], Key { modifier: Modifier { bits: 2 }, value: Value::F(10) }),
        (seq![27u8, 91u8, 50u8, 49u8, 59u8, 51u8, 126u8], Key { modifier: Modifier { bits: 1 }, value: Value::F(10) }),
        (seq![27u8, 91u8, 50u8, 49u8, 59u8, 54u8, 126u8], Key { modifier: Modifier { bits: 4 }, value: Value::F(10) }),
        (seq![27u8, 91u8, 50u8, 49u8, 59u8, 50u8, 126u8], Key { modifier: Modifier { bits: 8 }, value: Value::F(10) }),
        (seq![27u8, 91u8, 50u8, 49u8, 126u8], Key { modifier: Modifier { bits: 0 }, value: Value::F(10) }),
        (seq![27u8, 91u8, 50u8, 51u8, 59u8, 53u8, 126u8], Key { modifier: Modifier { bits: 2 }, value: Value::F(11) }),
        (seq![27u8, 91u8, 50u8, 51u8, 59u8, 51u8, 126u8], Key { modifier: Modifier { bits: 1 }, value: Value::F(11) }),
        (seq![27u8, 91u8, 50u8, 51u8, 59u8, 54u8, 126u8], Key { modifier: Modifier { bits: 4 }, value: Value::F(11) }),
        (seq![27u8, 91u8, 50u8, 51u8, 59u8, 50u8, 126u8], Key { modifier: Modifier { bits: 8 }, value: Value::F(11) }),
        (seq![27u8, 91u8, 50u8, 51u8, 126u8], Key { modifier: Modifier { bits: 0 }, value: Value::F(11) }),
        (seq![27u8, 91u8, 50u8, 52u8, 59u8, 53u8, 126u8], Key { modifier: Modifier { bits: 2 }, value: Value::F(12) }),
    ]
}

/// A part of the default bindings.
pub open spec fn default_group_9() -> Seq<(Seq<u8>, Key)> {
    seq![
        (seq![27u8, 91u8, 50u8, 52u8, 59u8, 51u8, 126u8], Key { modifier: Modifier { bits: 1 }, value: Value::F(12) }),
        (seq![27u8, 91u8, 50u8, 52u8, 59u8, 54u8, 126u8], Key { modifier: Modifier { bits: 4 }, value: Value::F(12) }),
        (seq![27u8, 91u8, 50u8, 52u8, 59u8, 50u8, 126u8], Key { modifier: Modifier { bits: 8 }, value: Value::F(12) }),
        (seq![27u8, 91u8, 50u8, 52u8, 126u8], Key { modifier: Modifier { bits: 0 }, value: Value::F(12) }),
        (seq![27u8, 91u8, 49u8, 59u8, 50u8, 80u8], Key { modifier: Modifier { bits: 0 }, value: Value::F(13) }),
        (seq![27u8, 91u8, 49u8, 59u8, 50u8, 81u8], Key { modifier: Modifier { bits: 0 }, value: Value::F(14) }),
        (seq![27u8, 91u8, 49u8, 59u8, 50u8, 82u8], Key { modifier: Modifier { bits: 0 }, value: Value::F(15) }),
        (seq![27u8, 91u8, 49u8, 59u8, 50u8, 83u8], Key { modifier: Modifier { bits: 0 }, value: Value::F(16) }),
        (seq![27u8, 91u8, 49u8, 53u8, 59u8, 50u8, 126u8], Key { modifier: Modifier { bits: 0 }, value: Value::F(17) }),
        (seq![27u8, 91u8, 49u8, 55u8, 59u8, 50u8, 126u8], Key { modifier: Modifier { bits: 0 }, value: Value::F(18) }),
        (seq![27u8, 91u8, 49u8, 56u8, 59u8, 50u8, 126u8], Key { modifier: Modifier { bits: 0 }, value: Value::F(19) }),
    ]
}

/// A part of the default bindings.
pub open spec fn default_group_10() -> Seq<(Seq<u8>, Key)> {
    seq![
        (seq![27u8, 91u8, 49u8, 57u8, 59u8, 50u8, 126u8], Key { modifier: Modifier { bits: 0 }, value: Value::F(20) }),
        (seq![27u8, 91u8, 50u8, 48u8, 59u8, 50u8, 126u8], Key { modifier: Modifier { bits: 0 }, value: Value::F(21) }),
        (seq![27u8, 91u8, 50u8, 49u8, 59u8, 50u8, 126u8], Key { modifier: Modifier { bits: 0 }, value: Value::F(22) }),
        (seq![27u8, 91u8, 50u8, 51u8, 59u8, 50u8, 126u8], Key { modifier: Modifier { bits: 0 }, value: Value::F(23) }),
        (seq![27u8, 91u8, 50u8, 52u8, 59u8, 50u8, 126u8], Key { modifier: Modifier { bits: 0 }, value: Value::F(24) }),
        (seq![27u8, 91u8, 49u8, 59u8, 53u8, 80u8], Key { modifier: Modifier { bits: 0 }, value: Value::F(25) }),
        (seq![27u8, 91u8, 49u8, 59u8, 53u8, 81u8], Key { modifier: Modifier { bits: 0 }, value: Value::F(26) }),
        (seq![27u8, 91u8, 49u8, 59u8, 53u8, 82u8], Key { modifier: Modifier { bits: 0 }, value: Value::F(27) }),
        (seq![27u8, 91u8, 49u8, 59u8, 53u8, 83u8], Key { modifier: Modifier { bits: 0 }, value: Value::F(28) }),
        (seq![27u8, 91u8, 49u8, 53u8, 59u8, 53u8, 126u8], Key { modifier: Modifier { bits: 0 }, value: Value::F(29) }),
        (seq![27u8, 91u8, 49u8, 55u8, 59u8, 53u8, 126u8], Key { modifier: Modifier { bits: 0 }, value: Value::F(30) }),
    ]
}

/// A part of the default bindings.
pub open spec fn default_group_11() -> Seq<(Seq<u8>, Key)> {
    seq![
        (seq![27u8, 91u8, 49u8, 56u8, 59u8, 53u8, 126u8], Key { modifier: Modifier { bits: 0 }, value: Value::F(31) }),
        (seq![27u8, 91u8, 49u8, 57u8, 59u8, 53u8, 126u8], Key { modifier: Modifier { bits: 0 }, value: Value::F(32) }),
        (seq![27u8, 91u8, 50u8, 48u8, 59u8, 53u8, 126u8], Key { modifier: Modifier { bits: 0 }, value: Value::F(33) }),
        (seq![27u8, 91u8, 50u8, 49u8, 59u8, 53u8, 126u8], Key { modifier: Modifier { bits: 0 }, value: Value::F(34) }),
        (seq![27u8, 91u8, 50u8, 51u8, 59u8, 53u8, 126u8], Key { modifier: Modifier { bits: 0 }, value: Value::F(35) }),
    ]
}

/// The default bindings, in the order they are bound: where a sequence
/// occurs twice, the first binding counts.
pub open spec fn default_bindings() -> Seq<(Seq<u8>, Key)> {
    default_group_0()
        + default_group_1()
        + default_group_2()
        + default_group_3()
        + default_group_4()
        + default_group_5()
        + default_group_6()
        + default_group_7()
        + default_group_8()
        + default_group_9()
        + default_group_10()
        + default_group_11()
}

/// Whether every sequence of `s` from index `i` on holds a byte.
pub open spec fn nonempty_from(s: Seq<(Seq<u8>, Key)>, i: int) -> bool
    decreases s.len() - i,
{
    i >= s.len() || (i >= 0 && s[i].0.len() > 0 && nonempty_from(s, i + 1))
}

proof fn lemma_nonempty_from(s: Seq<(Seq<u8>, Key)>, i: int)
    requires
        0 <= i,
        nonempty_from(s, i),
    ensures
        forall|j: int| i <= j < s.len() ==> #[trigger] s[j].0.len() > 0,
    decreases s.len() - i,
{
    if i < s.len() {
        lemma_nonempty_from(s, i + 1);
    }
}

proof fn lemma_group_nonempty(g: Seq<(Seq<u8>, Key)>)
    requires
        nonempty_from(g, 0),
    ensures
        forall|j: int| 0 <= j < g.len() ==> #[trigger] g[j].0.len() > 0,
{
    lemma_nonempty_from(g, 0);
}

/// No default binding is of the empty sequence.
pub proof fn lemma_defaults_nonempty()
    ensures
        forall|i: int| 0 <= i < default_bindings().len() ==> #[trigger] default_bindings()[i].0.len() > 0,
{
    reveal_with_fuel(nonempty_from, 12);
    assert(nonempty_from(default_group_0(), 0));
    assert(nonempty_from(default_group_1(), 0));
    assert(nonempty_from(default_group_2(), 0));
    assert(nonempty_from(default_group_3(), 0));
    assert(nonempty_from(default_group_4(), 0));
    assert(nonempty_from(default_group_5(), 0));
    assert(nonempty_from(default_group_6(), 0));
    assert(nonempty_from(default_group_7(), 0));
    assert(nonempty_from(default_group_8(), 0));
    assert(nonempty_from(default_group_9(), 0));
    assert(nonempty_from(default_group_10(), 0));
    assert(nonempty_from(default_group_11(), 0));
    lemma_group_nonempty(default_group_0());
    lemma_group_nonempty(default_group_1());
    lemma_group_nonempty(default_group_2());
    lemma_group_nonempty(default_group_3());
    lemma_group_nonempty(default_group_4());
    lemma_group_nonempty(default_group_5());
    lemma_group_nonempty(default_group_6());
    lemma_group_nonempty(default_group_7());
    lemma_group_nonempty(default_group_8());
    lemma_group_nonempty(default_group_9());
    lemma_group_nonempty(default_group_10());
    lemma_group_nonempty(default_group_11());
}

fn push_default_group_0(v: &mut Vec<(Vec<u8>, Key)>)
    ensures
        binding_views(final(v)@) == binding_views(old(v)@) + default_group_0(),
{
    let ghost start = v@;
    v.push((vec![27u8, 91u8, 90u8], Key { modifier: Modifier { bits: 8 }, value: Value::Tab }));
    v.push((vec![27u8, 127u8], Key { modifier: Modifier { bits: 1 }, value: Value::BackSpace }));
    v.push((single(127u8), Key { modifier: Modifier { bits: 0 }, value: Value::BackSpace }));
    v.push((vec![27u8, 13u8, 10u8], Key { modifier: Modifier { bits: 1 }, value: Value::Enter }));
    v.push((vec![27u8, 13u8], Key { modifier: Modifier { bits: 1 }, value: Value::Enter }));
    v.push((vec![27u8, 10u8], Key { modifier: Modifier { bits: 1 }, value: Value::Enter }));
    v.push((vec![13u8, 10u8], Key { modifier: Modifier { bits: 0 }, value: Value::Enter }));
    v.push((single(13u8), Key { modifier: Modifier { bits: 0 }, value: Value::Enter }));
    v.push((single(10u8), Key { modifier: Modifier { bits: 0 }, value: Value::Enter }));
    v.push((vec![27u8, 91u8, 51u8, 59u8, 53u8, 126u8], Key { modifier: Modifier { bits: 2 }, value: Value::Delete }));
    v.push((vec![27u8, 91u8, 51u8, 59u8, 50u8, 126u8], Key { modifier: Modifier { bits: 8 }, value: Value::Delete }));
    assert(binding_views(v@) =~= binding_views(start) + default_group_0());
}

fn push_default_group_1(v: &mut Vec<(Vec<u8>, Key)>)
    ensures
        binding_views(final(v)@) == binding_views(old(v)@) + default_group_1(),
{
    let ghost start = v@;
    v.push((vec![27u8, 91u8, 51u8, 126u8], Key { modifier: Modifier { bits: 0 }, value: Value::Delete }));
    v.push((vec![27u8, 91u8, 50u8, 59u8, 53u8, 126u8], Key { modifier: Modifier { bits: 2 }, value: Value::Insert }));
    v.push((vec![27u8, 91u8, 50u8, 59u8, 50u8, 126u8], Key { modifier: Modifier { bits: 8 }, value: Value::Insert }));
    v.push((vec![27u8, 91u8, 50u8, 126u8], Key { modifier: Modifier { bits: 0 }, value: Value::Insert }));
    v.push((vec![27u8, 91u8, 49u8, 59u8, 50u8, 72u8], Key { modifier: Modifier { bits: 8 }, value: Value::Home }));
    v.push((vec![27u8, 91u8, 72u8], Key { modifier: Modifier { bits: 0 }, value: Value::Home }));
    v.push((vec![27u8, 91u8, 49u8, 59u8, 53u8, 70u8], Key { modifier: Modifier { bits: 2 }, value: Value::End }));
    v.push((vec![27u8, 91u8, 49u8, 59u8, 50u8, 70u8], Key { modifier: Modifier { bits: 8 }, value: Value::End }));
    v.push((vec![27u8, 91u8, 56u8, 126u8], Key { modifier: Modifier { bits: 0 }, value: Value::End }));
    v.push((vec![27u8, 91u8, 69u8], Key { modifier: Modifier { bits: 0 }, value: Value::Begin }));
    v.push((vec![27u8, 91u8, 53u8, 59u8, 53u8, 126u8], Key { modifier: Modifier { bits: 2 }, value: Value::PageUp }));
    assert(binding_views(v@) =~= binding_views(start) + default_group_1());
}

fn push_default_group_2(v: &mut Vec<(Vec<u8>, Key)>)
    ensures
        binding_views(final(v)@) == binding_views(old(v)@) + default_group_2(),
{
    let ghost start = v@;
    v.push((vec![27u8, 91u8, 53u8, 59u8, 50u8, 126u8], Key { modifier: Modifier { bits: 8 }, value: Value::PageUp }));
    v.push((vec![27u8, 91u8, 53u8, 126u8], Key { modifier: Modifier { bits: 0 }, value: Value::PageUp }));
    v.push((vec![27u8, 91u8, 54u8, 59u8, 53u8, 126u8], Key { modifier: Modifier { bits: 2 }, value: Value::PageDown }));
    v.push((vec![27u8, 91u8, 54u8, 59u8, 50u8, 126u8], Key { modifier: Modifier { bits: 8 }, value: Value::PageDown }));
    v.push((vec![27u8, 91u8, 54u8, 126u8], Key { modifier: Modifier { bits: 0 }, value: Value::PageDown }));
    v.push((vec![27u8, 91u8, 49u8, 59u8, 53u8, 65u8], Key { modifier: Modifier { bits: 2 }, value: Value::Up }));
    v.push((vec![27u8, 91u8, 49u8, 59u8, 51u8, 65u8], Key { modifier: Modifier { bits: 1 }, value: Value::Up }));
    v.push((vec![27u8, 91u8, 49u8, 59u8, 50u8, 65u8], Key { modifier: Modifier { bits: 8 }, value: Value::Up }));
    v.push((vec![27u8, 66u8, 79u8, 65u8], Key { modifier: Modifier { bits: 0 }, value: Value::Up }));
    v.push((vec![27u8, 91u8, 49u8, 59u8, 53u8, 66u8], Key { modifier: Modifier { bits: 2 }, value: Value::Down }));
    v.push((vec![27u8, 91u8, 49u8, 59u8, 51u8, 66u8], Key { modifier: Modifier { bits: 1 }, value: Value::Down }));
    assert(binding_views(v@) =~= binding_views(start) + default_group_2());
}

fn push_default_group_3(v: &mut Vec<(Vec<u8>, Key)>)
    ensures
        binding_views(final(v)@) == binding_views(old(v)@) + default_group_3(),
{
    let ghost start = v@;
    v.push((vec![27u8, 91u8, 49u8, 59u8, 50u8, 66u8], Key { modifier: Modifier { bits: 8 }, value: Value::Down }));
    v.push((vec![27u8, 66u8, 79u8, 66u8], Key { modifier: Modifier { bits: 0 }, value: Value::Down }));
    v.push((vec![27u8, 91u8, 49u8, 59u8, 53u8, 67u8], Key { modifier: Modifier { bits: 2 }, value: Value::Right }));
    v.push((vec![27u8, 91u8, 49u8, 59u8, 51u8, 67u8], Key { modifier: Modifier { bits: 1 }, value: Value::Right }));
    v.push((vec![27u8, 91u8, 49u8, 59u8, 50u8, 67u8], Key { modifier: Modifier { bits: 8 }, value: Value::Right }));
    v.push((vec![27u8, 66u8, 79u8, 67u8], Key { modifier: Modifier { bits: 0 }, value: Value::Right }));
    v.push((vec![27u8, 91u8, 49u8, 59u8, 53u8, 68u8], Key { modifier: Modifier { bits: 2 }, value: Value::Left }));
    v.push((vec![27u8, 91u8, 49u8, 59u8, 51u8, 68u8], Key { modifier: Modifier { bits: 1 }, value: Value::Left }));
    v.push((vec![27u8, 91u8, 49u8, 59u8, 50u8, 68u8], Key { modifier: Modifier { bits: 8 }, value: Value::Left }));
    v.push((vec![27u8, 66u8, 79u8, 68u8], Key { modifier: Modifier { bits: 0 }, value: Value::Left }));
    v.push((vec![27u8, 91u8, 49u8, 59u8, 53u8, 80u8], Key { modifier: Modifier { bits: 2 }, value: Value::F(1) }));
    assert(binding_views(v@) =~= binding_views(start) + default_group_3());
}

fn push_default_group_4(v: &mut Vec<(Vec<u8>, Key)>)
    ensures
        binding_views(final(v)@) == binding_views(old(v)@) + default_group_4(),
{
    let ghost start = v@;
    v.push((vec![27u8, 91u8, 49u8, 59u8, 51u8, 80u8], Key { modifier: Modifier { bits: 1 }, value: Value::F(1) }));
    v.push((vec![27u8, 91u8, 49u8, 59u8, 54u8, 80u8], Key { modifier: Modifier { bits: 4 }, value: Value::F(1) }));
    v.push((vec![27u8, 91u8, 49u8, 59u8, 50u8, 80u8], Key { modifier: Modifier { bits: 8 }, value: Value::F(1) }));
    v.push((vec![27u8, 79u8, 80u8], Key { modifier: Modifier { bits: 0 }, value: Value::F(1) }));
    v.push((vec![27u8, 91u8, 49u8, 59u8, 53u8, 81u8], Key { modifier: Modifier { bits: 2 }, value: Value::F(2) }));
    v.push((vec![27u8, 91u8, 49u8, 59u8, 51u8, 81u8], Key { modifier: Modifier { bits: 1 }, value: Value::F(2) }));
    v.push((vec![27u8, 91u8, 49u8, 59u8, 54u8, 81u8], Key { modifier: Modifier { bits: 4 }, value: Value::F(2) }));
    v.push((vec![27u8, 91u8, 49u8, 59u8, 50u8, 81u8], Key { modifier: Modifier { bits: 8 }, value: Value::F(2) }));
    v.push((vec![27u8, 79u8, 81u8], Key { modifier: Modifier { bits: 0 }, value: Value::F(2) }));
    v.push((vec![27u8, 91u8, 49u8, 59u8, 53u8, 82u8], Key { modifier: Modifier { bits: 2 }, value: Value::F(3) }));
    v.push((vec![27u8, 91u8, 49u8, 59u8, 51u8, 82u8], Key { modifier: Modifier { bits: 1 }, value: Value::F(3) }));
    assert(binding_views(v@) =~= binding_views(start) + default_group_4());
}

fn push_default_group_5(v: &mut Vec<(Vec<u8>, Key)>)
    ensures
        binding_views(final(v)@) == binding_views(old(v)@) + default_group_5(),
{
    let ghost start = v@;
    v.push((vec![27u8, 91u8, 49u8, 59u8, 54u8, 82u8], Key { modifier: Modifier { bits: 4 }, value: Value::F(3) }));
    v.push((vec![27u8, 91u8, 49u8, 59u8, 50u8, 82u8], Key { modifier: Modifier { bits: 8 }, value: Value::F(3) }));
    v.push((vec![27u8, 79u8, 82u8], Key { modifier: Modifier { bits: 0 }, value: Value::F(3) }));
    v.push((vec![27u8, 91u8, 49u8, 59u8, 53u8, 83u8], Key { modifier: Modifier { bits: 2 }, value: Value::F(4) }));
    v.push((vec![27u8, 91u8, 49u8, 59u8, 51u8, 83u8], Key { modifier: Modifier { bits: 1 }, value: Value::F(4) }));
    v.push((vec![27u8, 91u8, 49u8, 59u8, 54u8, 83u8], Key { modifier: Modifier { bits: 4 }, value: Value::F(4) }));
    v.push((vec![27u8, 91u8, 49u8, 59u8, 50u8, 83u8], Key { modifier: Modifier { bits: 8 }, value: Value::F(4) }));
    v.push((vec![27u8, 79u8, 83u8], Key { modifier: Modifier { bits: 0 }, value: Value::F(4) }));
    v.push((vec![27u8, 91u8, 49u8, 53u8, 59u8, 53u8, 126u8], Key { modifier: Modifier { bits: 2 }, value: Value::F(5) }));
    v.push((vec![27u8, 91u8, 49u8, 53u8, 59u8, 51u8, 126u8], Key { modifier: Modifier { bits: 1 }, value: Value::F(5) }));
    v.push((vec![27u8, 91u8, 49u8, 53u8, 59u8, 54u8, 126u8], Key { modifier: Modifier { bits: 4 }, value: Value::F(5) }));
    assert(binding_views(v@) =~= binding_views(start) + default_group_5());
}

fn push_default_group_6(v: &mut Vec<(Vec<u8>, Key)>)
    ensures
        binding_views(final(v)@) == binding_views(old(v)@) + default_group_6(),
{
    let ghost start = v@;
    v.push((vec![27u8, 91u8, 49u8, 53u8, 59u8, 50u8, 126u8], Key { modifier: Modifier { bits: 8 }, value: Value::F(5) }));
    v.push((vec![27u8, 91u8, 49u8, 53u8, 126u8], Key { modifier: Modifier { bits: 0 }, value: Value::F(5) }));
    v.push((vec![27u8, 91u8, 49u8, 55u8, 59u8, 53u8, 126u8], Key { modifier: Modifier { bits: 2 }, value: Value::F(6) }));
    v.push((vec![27u8, 91u8, 49u8, 55u8, 59u8, 51u8, 126u8], Key { modifier: Modifier { bits: 1 }, value: Value::F(6) }));
    v.push((vec![27u8, 91u8, 49u8, 55u8, 59u8, 54u8, 126u8], Key { modifier: Modifier { bits: 4 }, value: Value::F(6) }));
    v.push((vec![27u8, 91u8, 49u8, 55u8, 59u8, 50u8, 126u8], Key { modifier: Modifier { bits: 8 }, value: Value::F(6) }));
    v.push((vec![27u8, 91u8, 49u8, 55u8, 126u8], Key { modifier: Modifier { bits: 0 }, value: Value::F(6) }));
    v.push((vec![27u8, 91u8, 49u8, 56u8, 59u8, 53u8, 126u8], Key { modifier: Modifier { bits: 2 }, value: Value::F(7) }));
    v.push((vec![27u8, 91u8, 49u8, 56u8, 59u8, 51u8, 126u8], Key { modifier: Modifier { bits: 1 }, value: Value::F(7) }));
    v.push((vec![27u8, 91u8, 49u8, 56u8, 59u8, 54u8, 126u8], Key { modifier: Modifier { bits: 4 }, value: Value::F(7) }));
    v.push((vec![27u8, 91u8, 49u8, 56u8, 59u8, 50u8, 126u8], Key { modifier: Modifier { bits: 8 }, value: Value::F(7) }));
    assert(binding_views(v@) =~= binding_views(start) + default_group_6());
}

fn push_default_group_7(v: &mut Vec<(Vec<u8>, Key)>)
    ensures
        binding_views(final(v)@) == binding_views(old(v)@) + default_group_7(),
{
    let ghost start = v@;
    v.push((vec![27u8, 91u8, 49u8, 56u8, 126u8], Key { modifier: Modifier { bits: 0 }, value: Value::F(7) }));
    v.push((vec![27u8, 91u8, 49u8, 57u8, 59u8, 53u8, 126u8], Key { modifier: Modifier { bits: 2 }, value: Value::F(8) }));
    v.push((vec![27u8, 91u8, 49u8, 57u8, 59u8, 51u8, 126u8], Key { modifier: Modifier { bits: 1 }, value: Value::F(8) }));
    v.push((vec![27u8, 91u8, 49u8, 57u8, 59u8, 54u8, 126u8], Key { modifier: Modifier { bits: 4 }, value: Value::F(8) }));
    v.push((vec![27u8, 91u8, 49u8, 57u8, 59u8, 50u8, 126u8], Key { modifier: Modifier { bits: 8 }, value: Value::F(8) }));
    v.push((vec![27u8, 91u8, 49u8, 57u8, 126u8], Key { modifier: Modifier { bits: 0 }, value: Value::F(8) }));
    v.push((vec![27u8, 91u8, 50u8, 48u8, 59u8, 53u8, 126u8], Key { modifier: Modifier { bits: 2 }, value: Value::F(9) }));
    v.push((vec![27u8, 91u8, 50u8, 48u8, 59u8, 51u8, 126u8], Key { modifier: Modifier { bits: 1 }, value: Value::F(9) }));
    v.push((vec![27u8, 91u8, 50u8, 48u8, 59u8, 54u8, 126u8], Key { modifier: Modifier { bits: 4 }, value: Value::F(9) }));
    v.push((vec![27u8, 91u8, 50u8, 48u8, 59u8, 50u8, 126u8], Key { modifier: Modifier { bits: 8 }, value: Value::F(9) }));
    v.push((vec![27u8, 91u8, 50u8, 48u8, 126u8], Key { modifier: Modifier { bits: 0 }, value: Value::F(9) }));
    assert(binding_views(v@) =~= binding_views(start) + default_group_7());
}

fn push_default_group_8(v: &mut Vec<(Vec<u8>, Key)>)
    ensures
        binding_views(final(v)@) == binding_views(old(v)@) + default_group_8(),
{
    let ghost start = v@;
    v.push((vec![27u8, 91u8, 50u8, 49u8, 59u8, 53u8, 126u8], Key { modifier: Modifier { bits: 2 }, value: Value::F(10) }));
    v.push((vec![27u8, 91u8, 50u8, 49u8, 59u8, 51u8, 126u8], Key { modifier: Modifier { bits: 1 }, value: Value::F(10) }));
    v.push((vec![27u8, 91u8, 50u8, 49u8, 59u8, 54u8, 126u8], Key { modifier: Modifier { bits: 4 }, value: Value::F(10) }));
    v.push((vec![27u8, 91u8, 50u8, 49u8, 59u8, 50u8, 126u8], Key { modifier: Modifier { bits: 8 }, value: Value::F(10) }));
    v.push((vec![27u8, 91u8, 50u8, 49u8, 126u8], Key { modifier: Modifier { bits: 0 }, value: Value::F(10) }));
    v.push((vec![27u8, 91u8, 50u8, 51u8, 59u8, 53u8, 126u8], Key { modifier: Modifier { bits: 2 }, value: Value::F(11) }));
    v.push((vec![27u8, 91u8, 50u8, 51u8, 59u8, 51u8, 126u8], Key { modifier: Modifier { bits: 1 }, value: Value::F(11) }));
    v.push((vec![27u8, 91u8, 50u8, 51u8, 59u8, 54u8, 126u8], Key { modifier: Modifier { bits: 4 }, value: Value::F(11) }));
    v.push((vec![27u8, 91u8, 50u8, 51u8, 59u8, 50u8, 126u8], Key { modifier: Modifier { bits: 8 }, value: Value::F(11) }));
    v.push((vec![27u8, 91u8, 50u8, 51u8, 126u8], Key { modifier: Modifier { bits: 0 }, value: Value::F(11) }));
    v.push((vec![27u8, 91u8, 50u8, 52u8, 59u8, 53u8, 126u8], Key { modifier: Modifier { bits: 2 }, value: Value::F(12) }));
    assert(binding_views(v@) =~= binding_views(start) + default_group_8());
}

fn push_default_group_9(v: &mut Vec<(Vec<u8>, Key)>)
    ensures
        binding_views(final(v)@) == binding_views(old(v)@) + default_group_9(),
{
    let ghost start = v@;
    v.push((vec![27u8, 91u8, 50u8, 52u8, 59u8, 51u8, 126u8], Key { modifier: Modifier { bits: 1 }, value: Value::F(12) }));
    v.push((vec![27u8, 91u8, 50u8, 52u8, 59u8, 54u8, 126u8], Key { modifier: Modifier { bits: 4 }, value: Value::F(12) }));
    v.push((vec![27u8, 91u8, 50u8, 52u8, 59u8, 50u8, 126u8], Key { modifier: Modifier { bits: 8 }, value: Value::F(12) }));
    v.push((vec![27u8, 91u8, 50u8, 52u8, 126u8], Key { modifier: Modifier { bits: 0 }, value: Value::F(12) }));
    v.push((vec![27u8, 91u8, 49u8, 59u8, 50u8, 80u8], Key { modifier: Modifier { bits: 0 }, value: Value::F(13) }));
    v.push((vec![27u8, 91u8, 49u8, 59u8, 50u8, 81u8], Key { modifier: Modifier { bits: 0 }, value: Value::F(14) }));
    v.push((vec![27u8, 91u8, 49u8, 59u8, 50u8, 82u8], Key { modifier: Modifier { bits: 0 }, value: Value::F(15) }));
    v.push((vec![27u8, 91u8, 49u8, 59u8, 50u8, 83u8], Key { modifier: Modifier { bits: 0 }, value: Value::F(16) }));
    v.push((vec![27u8, 91u8, 49u8, 53u8, 59u8, 50u8, 126u8], Key { modifier: Modifier { bits: 0 }, value: Value::F(17) }));
    v.push((vec![27u8, 91u8, 49u8, 55u8, 59u8, 50u8, 126u8], Key { modifier: Modifier { bits: 0 }, value: Value::F(18) }));
    v.push((vec![27u8, 91u8, 49u8, 56u8, 59u8, 50u8, 126u8], Key { modifier: Modifier { bits: 0 }, value: Value::F(19) }));
    assert(binding_views(v@) =~= binding_views(start) + default_group_9());
}

fn push_default_group_10(v: &mut Vec<(Vec<u8>, Key)>)
    ensures
        binding_views(final(v)@) == binding_views(old(v)@) + default_group_10(),
{
    let ghost start = v@;
    v.push((vec![27u8, 91u8, 49u8, 57u8, 59u8, 50u8, 126u8], Key { modifier: Modifier { bits: 0 }, value: Value::F(20) }));
    v.push((vec![27u8, 91u8, 50u8, 48u8, 59u8, 50u8, 126u8], Key { modifier: Modifier { bits: 0 }, value: Value::F(21) }));
    v.push((vec![27u8, 91u8, 50u8, 49u8, 59u8, 50u8, 126u8], Key { modifier: Modifier { bits: 0 }, value: Value::F(22) }));
    v.push((vec![27u8, 91u8, 50u8, 51u8, 59u8, 50u8, 126u8], Key { modifier: Modifier { bits: 0 }, value: Value::F(23) }));
    v.push((vec![27u8, 91u8, 50u8, 52u8, 59u8, 50u8, 126u8], Key { modifier: Modifier { bits: 0 }, value: Value::F(24) }));
    v.push((vec![27u8, 91u8, 49u8, 59u8, 53u8, 80u8], Key { modifier: Modifier { bits: 0 }, value: Value::F(25) }));
    v.push((vec![27u8, 91u8, 49u8, 59u8, 53u8, 81u8], Key { modifier: Modifier { bits: 0 }, value: Value::F(26) }));
    v.push((vec![27u8, 91u8, 49u8, 59u8, 53u8, 82u8], Key { modifier: Modifier { bits: 0 }, value: Value::F(27) }));
    v.push((vec![27u8, 91u8, 49u8, 59u8, 53u8, 83u8], Key { modifier: Modifier { bits: 0 }, value: Value::F(28) }));
    v.push((vec![27u8, 91u8, 49u8, 53u8, 59u8, 53u8, 126u8], Key { modifier: Modifier { bits: 0 }, value: Value::F(29) }));
    v.push((vec![27u8, 91u8, 49u8, 55u8, 59u8, 53u8, 126u8], Key { modifier: Modifier { bits: 0 }, value: Value::F(30) }));
    assert(binding_views(v@) =~= binding_views(start) + default_group_10());
}

fn push_default_group_11(v: &mut Vec<(Vec<u8>, Key)>)
    ensures
        binding_views(final(v)@) == binding_views(old(v)@) + default_group_11(),
{
    let ghost start = v@;
    v.push((vec![27u8, 91u8, 49u8, 56u8, 59u8, 53u8, 126u8], Key { modifier: Modifier { bits: 0 }, value: Value::F(31) }));
    v.push((vec![27u8, 91u8, 49u8, 57u8, 59u8, 53u8, 126u8], Key { modifier: Modifier { bits: 0 }, value: Value::F(32) }));
    v.push((vec![27u8, 91u8, 50u8, 48u8, 59u8, 53u8, 126u8], Key { modifier: Modifier { bits: 0 }, value: Value::F(33) }));
    v.push((vec![27u8, 91u8, 50u8, 49u8, 59u8, 53u8, 126u8], Key { modifier: Modifier { bits: 0 }, value: Value::F(34) }));
    v.push((vec![27u8, 91u8, 50u8, 51u8, 59u8, 53u8, 126u8], Key { modifier: Modifier { bits: 0 }, value: Value::F(35) }));
    assert(binding_views(v@) =~= binding_views(start) + default_group_11());
}

/// The default bindings.
pub fn default_table() -> (r: Vec<(Vec<u8>, Key)>)
    ensures
        binding_views(r@) == default_bindings(),
{
    let mut v: Vec<(Vec<u8>, Key)> = Vec::new();
    assert(binding_views(v@) =~= Seq::<(Seq<u8>, Key)>::empty());
    push_default_group_0(&mut v);
    push_default_group_1(&mut v);
    push_default_group_2(&mut v);
    push_default_group_3(&mut v);
    push_default_group_4(&mut v);
    push_default_group_5(&mut v);
    push_default_group_6(&mut v);
    push_default_group_7(&mut v);
    push_default_group_8(&mut v);
    push_default_group_9(&mut v);
    push_default_group_10(&mut v);
    push_default_group_11(&mut v);
    assert(binding_views(v@) =~= default_bindings());
    v
}

} // verus!
