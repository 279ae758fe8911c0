//! The parametrized strings that the library hands to terminfo for
//! expansion: those that parse item by item and whose arithmetic stays
//! within `i32` for the given parameters.
//!
//! A parametrized string is literal text and items that start with `%`:
//! `%%`, a character `%'c'`, a number `%{n}` (any number of digits), a
//! parameter `%p1`..`%p9`, a variable `%Pa`/`%ga` (letters), `%l`, an
//! operation (`+ - * / m i & | ^ ~ A O ! = > <`), a conditional
//! (`? t e ;`), or a print `%[:][flags][width][.precision]` with a format out
//! of `d o x X s c` (widths and precisions of any number of digits). A `%`
//! that starts no such item is refused: terminfo either loops forever on it
//! or stops with an error.
//!
//! The bound on the arithmetic: every value an expansion can hold lies in
//! `[-b, b]` for a bound `b` that starts at the largest magnitude of a
//! parameter and grows along the string: to the value of each number and
//! character met; to `2b` at each `+`, `-`, `&`, `|` and `^` (a bitwise
//! result of values in `[-b, b]` lies in `[-2^m, 2^m)` for the least `2^m`
//! above `b`, and `2^m <= 2b`); to `b * b` at each `*`; to `b + 1` at each
//! `~` and `%i`; to at least 1 at each comparison and logical operation;
//! `/` and `%m` never give a larger magnitude than their first operand
//! (`-b / -1` is `b`). The bound is capped at `2^31`. A string with
//! `+ - * / m` is accepted where the final bound is at most `i32::MAX`, so
//! that no value and no result leaves `i32` and `i32::MIN` never occurs; a
//! string without them where, if it holds `%i`, the first two parameters
//! are below `i32::MAX`.
use vstd::prelude::*;

verus! {

/// An ASCII digit.
pub open spec fn is_digit(b: u8) -> bool {
    48 <= b <= 57
}

/// An ASCII letter.
pub open spec fn is_letter(b: u8) -> bool {
    (65 <= b <= 90) || (97 <= b <= 122)
}

/// A print flag: space, `-`, `+` or `#`.
pub open spec fn is_flag(b: u8) -> bool {
    b == 32 || b == 45 || b == 43 || b == 35
}

/// A print format: `d`, `o`, `x`, `X`, `s` or `c`.
pub open spec fn is_format(b: u8) -> bool {
    b == 100 || b == 111 || b == 120 || b == 88 || b == 115 || b == 99
}

/// An operation: `+ - * / m i & | ^ ~ A O ! = > <`.
pub open spec fn is_operation(b: u8) -> bool {
    b == 43 || b == 45 || b == 42 || b == 47 || b == 109 || b == 105 || b == 38 || b == 124 || b == 94
        || b == 126 || b == 65 || b == 79 || b == 33 || b == 61 || b == 62 || b == 60
}

/// A conditional: `?`, `t`, `e` or `;`.
pub open spec fn is_conditional(b: u8) -> bool {
    b == 63 || b == 116 || b == 101 || b == 59
}

/// An operation that can overflow: `+ - * / m`.
pub open spec fn is_arithmetic(b: u8) -> bool {
    b == 43 || b == 45 || b == 42 || b == 47 || b == 109
}

/// The number of digits in `t` from `j` on.
pub open spec fn digits_from(t: Seq<u8>, j: int) -> nat
    decreases t.len() - j,
{
    if 0 <= j < t.len() && is_digit(t[j]) {
        1 + digits_from(t, j + 1)
    } else {
        0
    }
}

/// The number of print flags in `t` from `j` on.
pub open spec fn flags_from(t: Seq<u8>, j: int) -> nat
    decreases t.len() - j,
{
    if 0 <= j < t.len() && is_flag(t[j]) {
        1 + flags_from(t, j + 1)
    } else {
        0
    }
}

/// The end of the print whose specification starts at `j`, right after
/// its `%`; -1 where no print of the accepted shape starts there.
pub open spec fn print_end(t: Seq<u8>, j: int) -> int {
    let a = if 0 <= j < t.len() && t[j] == 58 { j + 1 } else { j };
    let b = a + flags_from(t, a);
    let w = digits_from(t, b);
    let c = b + w;
    let p: int = if 0 <= c < t.len() && t[c] == 46 { digits_from(t, c + 1) as int } else { -1 };
    let d = if p >= 0 { c + 1 + p } else { c };
    if 0 <= d < t.len() && is_format(t[d]) {
        d + 1
    } else {
        -1
    }
}

/// The end of the item that starts with the `%` at `i`; -1 where no item
/// of the accepted shape starts there.
pub open spec fn item_end(t: Seq<u8>, i: int) -> int {
    if i < 0 || i + 1 >= t.len() {
        -1
    } else {
        let c = t[i + 1];
        if c == 37 || c == 108 || is_operation(c) || is_conditional(c) {
            i + 2
        } else if c == 39 {
            if i + 3 < t.len() && t[i + 3] == 39 { i + 4 } else { -1 }
        } else if c == 123 {
            let n = digits_from(t, i + 2);
            if i + 2 + n < t.len() && t[i + 2 + n] == 125 { i + 3 + n } else { -1 }
        } else if c == 112 {
            if i + 2 < t.len() && 49 <= t[i + 2] <= 57 { i + 3 } else { -1 }
        } else if c == 80 || c == 103 {
            if i + 2 < t.len() && is_letter(t[i + 2]) { i + 3 } else { -1 }
        } else {
            print_end(t, i + 1)
        }
    }
}

/// `x` capped at `2^31`.
pub open spec fn capped(x: nat) -> nat {
    if x > 2147483648 { 2147483648 } else { x }
}

/// The larger of `a` and `b`.
pub open spec fn larger(a: nat, b: nat) -> nat {
    if a >= b { a } else { b }
}

/// The bound after the operation or other one-byte item `c`, capped.
pub open spec fn grow(b: nat, c: u8) -> nat {
    if c == 43 || c == 45 || c == 38 || c == 124 || c == 94 {
        capped(2 * b)
    } else if c == 42 {
        capped(b * b)
    } else if c == 105 || c == 126 {
        capped(b + 1)
    } else if c == 65 || c == 79 || c == 33 || c == 61 || c == 62 || c == 60 {
        larger(b, 1)
    } else {
        b
    }
}

/// The value of the `n` digits of `t` from `j` on, read after `acc` and
/// capped at `2^31` at each step.
pub open spec fn number_value(t: Seq<u8>, j: int, n: nat, acc: nat) -> nat
    decreases n,
{
    if n == 0 {
        acc
    } else {
        let d: nat = if 0 <= j < t.len() && is_digit(t[j]) { (t[j] - 48) as nat } else { 0 };
        number_value(t, j + 1, (n - 1) as nat, capped(acc * 10 + d))
    }
}

/// The bound after the item that starts with the `%` at `i`.
pub open spec fn next_bound(t: Seq<u8>, i: int, b: nat) -> nat {
    let c = t[i + 1];
    if c == 123 {
        larger(b, number_value(t, i + 2, digits_from(t, i + 2), 0))
    } else if c == 39 {
        larger(b, t[i + 2] as nat)
    } else {
        grow(b, c)
    }
}

/// Reading `t` from `i` on with the bound `b`: the final bound, whether an
/// operation that can overflow occurs, and whether `%i` occurs; `None` where
/// an item is not of the accepted shape.
pub open spec fn scan(t: Seq<u8>, i: int, b: nat) -> Option<(nat, bool, bool)>
    decreases t.len() - i,
{
    if i < 0 || i >= t.len() {
        Some((b, false, false))
    } else if t[i] != 37 {
        scan(t, i + 1, b)
    } else {
        let e = item_end(t, i);
        if e <= i || e > t.len() {
            None
        } else {
            let c = t[i + 1];
            match scan(t, e, next_bound(t, i, b)) {
                Some((bf, a, inc)) => Some((bf, a || is_arithmetic(c), inc || c == 105)),
                None => None,
            }
        }
    }
}

/// Parameter `n`, 0 where there is none.
pub open spec fn param(params: Seq<i32>, n: int) -> int {
    if 0 <= n < params.len() { params[n] as int } else { 0 }
}

/// The magnitude of `x`.
pub open spec fn magnitude(x: i32) -> nat {
    if x < 0 { (-(x as int)) as nat } else { x as nat }
}

/// The largest magnitude of a parameter, 0 where there is none.
pub open spec fn params_bound(params: Seq<i32>) -> nat
    decreases params.len(),
{
    if params.len() == 0 {
        0
    } else {
        larger(params_bound(params.drop_last()), magnitude(params.last()))
    }
}

/// Whether `t` is of the accepted shape and its arithmetic stays within
/// `i32` for `params` (see the module's documentation).
pub open spec fn tame(t: Seq<u8>, params: Seq<i32>) -> bool {
    match scan(t, 0, params_bound(params)) {
        None => false,
        Some((b, arith, incr)) => if arith {
            b <= 2147483647
        } else {
            !incr || (param(params, 0) < i32::MAX && param(params, 1) < i32::MAX)
        },
    }
}

/// A text without `%` is of the accepted shape.
pub proof fn lemma_plain_text(t: Seq<u8>, i: int, b: nat)
    requires
        !t.contains(37u8),
    ensures
        scan(t, i, b) == Some((b, false, false)),
    decreases t.len() - i,
{
    if 0 <= i < t.len() {
        assert(t[i] != 37u8);
        lemma_plain_text(t, i + 1, b);
    }
}

fn digit(b: u8) -> (r: bool)
    ensures
        r == is_digit(b),
{
    48 <= b && b <= 57
}

/// The number of digits in `t` from `j` on.
fn count_digits(t: &[u8], j: usize) -> (r: usize)
    ensures
        r == digits_from(t@, j as int),
        j <= t@.len() ==> j + r <= t@.len(),
{
    if j >= t.len() {
        return 0;
    }
    let mut n = j;
    while n < t.len() && digit(t[n])
        invariant
            j <= n <= t@.len(),
            digits_from(t@, j as int) == (n - j) + digits_from(t@, n as int),
        decreases t@.len() - n,
    {
        n = n + 1;
    }
    n - j
}

/// The number of print flags in `t` from `j` on.
fn count_flags(t: &[u8], j: usize) -> (r: usize)
    ensures
        r == flags_from(t@, j as int),
        j <= t@.len() ==> j + r <= t@.len(),
{
    if j >= t.len() {
        return 0;
    }
    let mut n = j;
    while n < t.len() && (t[n] == 32 || t[n] == 45 || t[n] == 43 || t[n] == 35)
        invariant
            j <= n <= t@.len(),
            flags_from(t@, j as int) == (n - j) + flags_from(t@, n as int),
        decreases t@.len() - n,
    {
        n = n + 1;
    }
    n - j
}

/// The end of the print whose specification starts at `j`.
fn find_print_end(t: &[u8], j: usize) -> (r: Option<usize>)
    requires
        1 <= j <= t@.len(),
    ensures
        match r {
            Some(e) => e == print_end(t@, j as int) && e <= t@.len(),
            None => print_end(t@, j as int) == -1,
        },
{
    let a = if j < t.len() && t[j] == 58 { j + 1 } else { j };
    let b = a + count_flags(t, a);
    let w = count_digits(t, b);
    let c = b + w;
    let d = if c < t.len() && t[c] == 46 {
        let p = count_digits(t, c + 1);
        c + 1 + p
    } else {
        c
    };
    if d < t.len() && (t[d] == 100 || t[d] == 111 || t[d] == 120 || t[d] == 88 || t[d] == 115 || t[d] == 99) {
        Some(d + 1)
    } else {
        None
    }
}

/// The end of the item that starts with the `%` at `i`.
fn find_item_end(t: &[u8], i: usize) -> (r: Option<usize>)
    requires
        i < t@.len(),
    ensures
        match r {
            Some(e) => e == item_end(t@, i as int) && i < e <= t@.len(),
            None => !(i < item_end(t@, i as int) <= t@.len()),
        },
{
    if t.len() - i <= 1 {
        return None;
    }
    let c = t[i + 1];
    if c == 37 || c == 108 || c == 43 || c == 45 || c == 42 || c == 47 || c == 109 || c == 105 || c == 38
        || c == 124 || c == 94 || c == 126 || c == 65 || c == 79 || c == 33 || c == 61 || c == 62 || c == 60
        || c == 63 || c == 116 || c == 101 || c == 59 {
        Some(i + 2)
    } else if c == 39 {
        if t.len() - i > 3 && t[i + 3] == 39 { Some(i + 4) } else { None }
    } else if c == 123 {
        let n = count_digits(t, i + 2);
        if i + 2 + n < t.len() && t[i + 2 + n] == 125 { Some(i + 3 + n) } else { None }
    } else if c == 112 {
        if i + 2 < t.len() && 49 <= t[i + 2] && t[i + 2] <= 57 { Some(i + 3) } else { None }
    } else if c == 80 || c == 103 {
        if i + 2 < t.len() && ((65 <= t[i + 2] && t[i + 2] <= 90) || (97 <= t[i + 2] && t[i + 2] <= 122)) {
            Some(i + 3)
        } else {
            None
        }
    } else {
        find_print_end(t, i + 1)
    }
}

fn capped_u64(x: u64) -> (r: u64)
    ensures
        r == capped(x as nat),
{
    if x > 2147483648 { 2147483648 } else { x }
}

fn larger_u64(a: u64, b: u64) -> (r: u64)
    ensures
        r == larger(a as nat, b as nat),
{
    if a >= b { a } else { b }
}

/// The bound after the one-byte item `c`.
fn grown(b: u64, c: u8) -> (r: u64)
    requires
        b <= 2147483648,
    ensures
        r == grow(b as nat, c),
        r <= 2147483648,
{
    if c == 43 || c == 45 || c == 38 || c == 124 || c == 94 {
        capped_u64(2 * b)
    } else if c == 42 {
        assert(b * b <= 2147483648 * 2147483648) by (nonlinear_arith)
            requires
                b <= 2147483648,
        ;
        capped_u64(b * b)
    } else if c == 105 || c == 126 {
        capped_u64(b + 1)
    } else if c == 65 || c == 79 || c == 33 || c == 61 || c == 62 || c == 60 {
        larger_u64(b, 1)
    } else {
        b
    }
}

/// The value of the `n` digits of `t` from `j` on, capped.
fn number_at(t: &[u8], j: usize, n: usize) -> (r: u64)
    requires
        j + n <= t@.len(),
    ensures
        r == number_value(t@, j as int, n as nat, 0),
        r <= 2147483648,
{
    let mut acc: u64 = 0;
    let mut m: usize = 0;
    let len = t.len();
    while m < n
        invariant
            m <= n,
            len == t@.len(),
            j + n <= t@.len(),
            acc <= 2147483648,
            number_value(t@, j as int, n as nat, 0) == number_value(t@, (j + m) as int, (n - m) as nat, acc as nat),
        decreases n - m,
    {
        assert(j + m < t@.len());
        let ch = t[j + m];
        let d: u64 = if digit(ch) { (ch - 48) as u64 } else { 0 };
        acc = capped_u64(acc * 10 + d);
        m = m + 1;
    }
    acc
}

/// The bound after the item that starts with the `%` at `i` and ends at `e`.
fn bound_after(t: &[u8], i: usize, e: usize, b: u64) -> (r: u64)
    requires
        i < e <= t@.len(),
        e == item_end(t@, i as int),
        b <= 2147483648,
    ensures
        r == next_bound(t@, i as int, b as nat),
        r <= 2147483648,
{
    let c = t[i + 1];
    if c == 123 {
        let n = count_digits(t, i + 2);
        larger_u64(b, number_at(t, i + 2, n))
    } else if c == 39 {
        larger_u64(b, t[i + 2] as u64)
    } else {
        grown(b, c)
    }
}

/// `scan` from some point on, after what came before it.
pub open spec fn after(rest: Option<(nat, bool, bool)>, arith: bool, incr: bool) -> Option<(nat, bool, bool)> {
    match rest {
        Some((k, a, inc)) => Some((k, a || arith, inc || incr)),
        None => None,
    }
}

fn magnitude_u64(x: i32) -> (r: u64)
    ensures
        r == magnitude(x),
        r <= 2147483648,
{
    if x < 0 { (-(x as i64)) as u64 } else { x as u64 }
}

/// Whether the parametrized string `t` is accepted for expansion with
/// `params`.
pub fn tame_template(t: &[u8], params: &[i32]) -> (r: bool)
    ensures
        r == tame(t@, params@),
{
    let mut b: u64 = 0;
    let mut n: usize = 0;
    while n < params.len()
        invariant
            n <= params@.len(),
            b <= 2147483648,
            b == params_bound(params@.take(n as int)),
        decreases params@.len() - n,
    {
        assert(params@.take(n + 1).drop_last() =~= params@.take(n as int));
        b = larger_u64(b, magnitude_u64(params[n]));
        n = n + 1;
    }
    assert(params@.take(n as int) =~= params@);
    let ghost b0: nat = params_bound(params@);
    let mut arith = false;
    let mut incr = false;
    let mut i: usize = 0;
    while i < t.len()
        invariant
            b <= 2147483648,
            i <= t@.len(),
            b0 == params_bound(params@),
            scan(t@, 0, b0) == after(scan(t@, i as int, b as nat), arith, incr),
        decreases t@.len() - i,
    {
        if t[i] != 37 {
            i = i + 1;
        } else {
            match find_item_end(t, i) {
                None => {
                    assert(scan(t@, i as int, b as nat) is None);
                    return false;
                },
                Some(e) => {
                    let c = t[i + 1];
                    let b2 = bound_after(t, i, e, b);
                    assert(scan(t@, i as int, b as nat) == after(scan(t@, e as int, b2 as nat), c == 43 || c == 45 || c == 42 || c == 47 || c == 109, c == 105));
                    arith = arith || c == 43 || c == 45 || c == 42 || c == 47 || c == 109;
                    incr = incr || c == 105;
                    b = b2;
                    i = e;
                },
            }
        }
    }
    if arith {
        b <= 2147483647
    } else {
        let p0: i32 = if params.len() > 0 { params[0] } else { 0 };
        let p1: i32 = if params.len() > 1 { params[1] } else { 0 };
        !incr || (p0 < i32::MAX && p1 < i32::MAX)
    }
}

} // verus!
