//! Decimal rendering of integers and of fixed-point values with three
//! decimals (values are held in thousandths of a unit).
use vstd::prelude::*;
use crate::text::push_str;

verus! {

/// The character of a decimal digit.
pub open spec fn digit(d: nat) -> char {
    seq!['0', '1', '2', '3', '4', '5', '6', '7', '8', '9'][d as int]
}

/// The decimal digits of `n`, most significant first, without leading zeros.
pub open spec fn decimal(n: nat) -> Seq<char>
    decreases n,
{
    if n < 10 {
        seq![digit(n)]
    } else {
        decimal(n / 10).push(digit(n % 10))
    }
}

fn digit_char(d: u64) -> (c: char)
    requires
        d < 10,
    ensures
        c == digit(d as nat),
{
    if d == 0 { '0' }
    else if d == 1 { '1' }
    else if d == 2 { '2' }
    else if d == 3 { '3' }
    else if d == 4 { '4' }
    else if d == 5 { '5' }
    else if d == 6 { '6' }
    else if d == 7 { '7' }
    else if d == 8 { '8' }
    else { '9' }
}

/// Appends the decimal digits of `n`.
pub fn push_decimal(s: &mut String, n: u64)
    ensures
        final(s)@ == old(s)@ + decimal(n as nat),
    decreases n,
{
    if n >= 10 {
        push_decimal(s, n / 10);
    }
    s.push(digit_char(n % 10));
    assert(final(s)@ == old(s)@ + decimal(n as nat)) by {
        assert(n >= 10 ==> decimal(n as nat) == decimal((n / 10) as nat).push(digit((n % 10) as nat)));
    }
}

/// The three digits of `m` (below one thousand), leading zeros kept.
pub open spec fn three_digits(m: nat) -> Seq<char> {
    seq![digit(m / 100), digit((m / 10) % 10), digit(m % 10)]
}

/// A non-negative count of thousandths, written with exactly three decimals.
pub open spec fn fixed3_mag(m: nat) -> Seq<char> {
    decimal(m / 1000).push('.') + three_digits(m % 1000)
}

/// A signed count of thousandths, written with exactly three decimals;
/// zero carries no sign.
pub open spec fn fixed3(v: int) -> Seq<char> {
    if v < 0 {
        seq!['-'] + fixed3_mag((-v) as nat)
    } else {
        fixed3_mag(v as nat)
    }
}

/// A signed integer in decimal.
pub open spec fn signed_decimal(v: int) -> Seq<char> {
    if v < 0 {
        seq!['-'] + decimal((-v) as nat)
    } else {
        decimal(v as nat)
    }
}

/// Appends `m` thousandths with three decimals.
pub fn push_fixed3_mag(s: &mut String, m: u64)
    ensures
        final(s)@ == old(s)@ + fixed3_mag(m as nat),
{
    push_decimal(s, m / 1000);
    s.push('.');
    let f = m % 1000;
    s.push(digit_char(f / 100));
    s.push(digit_char((f / 10) % 10));
    s.push(digit_char(f % 10));
    assert(final(s)@ == old(s)@ + fixed3_mag(m as nat));
}

/// Appends a value given by its sign and its magnitude in thousandths.
fn push_fixed3_signed(s: &mut String, negative: bool, m: u64)
    ensures
        final(s)@ == old(s)@ + (if negative && m > 0 { seq!['-'] + fixed3_mag(m as nat) } else {
            fixed3_mag(m as nat)
        }),
{
    if negative && m > 0 {
        s.push('-');
    }
    push_fixed3_mag(s, m);
    assert(final(s)@ == old(s)@ + (if negative && m > 0 { seq!['-'] + fixed3_mag(m as nat) } else {
        fixed3_mag(m as nat)
    }));
}

/// The magnitude of `v`, which always fits in a `u64`.
pub fn magnitude(v: i64) -> (m: u64)
    ensures
        m as int == if v < 0 { -v } else { v as int },
{
    if v < 0 {
        ((-(v + 1)) as u64) + 1
    } else {
        v as u64
    }
}

/// Appends `v` thousandths with three decimals.
pub fn push_fixed3(s: &mut String, v: i64)
    ensures
        final(s)@ == old(s)@ + fixed3(v as int),
{
    push_fixed3_signed(s, v < 0, magnitude(v));
}

/// Appends minus `v` thousandths with three decimals.
pub fn push_fixed3_negated(s: &mut String, v: i64)
    ensures
        final(s)@ == old(s)@ + fixed3(-v),
{
    push_fixed3_signed(s, v > 0, magnitude(v));
}

/// Appends the signed integer `v` in decimal.
pub fn push_signed_decimal(s: &mut String, v: i64)
    ensures
        final(s)@ == old(s)@ + signed_decimal(v as int),
{
    if v < 0 {
        s.push('-');
    }
    push_decimal(s, magnitude(v));
    assert(final(s)@ == old(s)@ + signed_decimal(v as int));
}

/// `v` thousandths written with three decimals.
pub fn format_fixed3(v: i64) -> (r: String)
    ensures
        r@ == fixed3(v as int),
{
    let mut s = String::new();
    push_fixed3(&mut s, v);
    assert(s@ == fixed3(v as int));
    s
}

} // verus!
