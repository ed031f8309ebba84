//! Colors: a packed 32-bit value whose low byte is red, then green, then
//! blue, with alpha in the high byte, written as `rgba(R, G, B, A)` with
//! every channel (alpha too) in 0..=255.
use vstd::prelude::*;
use crate::number::{decimal, push_decimal};
use crate::text::push_str;

verus! {

pub open spec fn red(x: u32) -> nat {
    (x % 256) as nat
}

pub open spec fn green(x: u32) -> nat {
    ((x / 256) % 256) as nat
}

pub open spec fn blue(x: u32) -> nat {
    ((x / 65536) % 256) as nat
}

pub open spec fn alpha(x: u32) -> nat {
    (x / 16777216) as nat
}

/// The packed value of four channels.
pub open spec fn pack(r: u8, g: u8, b: u8, a: u8) -> int {
    a * 16777216 + b * 65536 + g * 256 + r
}

/// `rgba(R, G, B, A)` with the four channels in decimal.
pub open spec fn rgba_text(r: nat, g: nat, b: nat, a: nat) -> Seq<char> {
    "rgba("@ + decimal(r) + ", "@ + decimal(g) + ", "@ + decimal(b) + ", "@ + decimal(a) + ")"@
}

/// The CSS text of a packed color.
pub open spec fn css_color(x: u32) -> Seq<char> {
    rgba_text(red(x), green(x), blue(x), alpha(x))
}

/// Appends the CSS text of the packed color `x`.
pub fn push_color(s: &mut String, x: i32)
    ensures
        final(s)@ == old(s)@ + css_color(x as u32),
{
    let u = x as u32;
    push_str(s, "rgba(");
    push_decimal(s, (u % 256) as u64);
    push_str(s, ", ");
    push_decimal(s, ((u / 256) % 256) as u64);
    push_str(s, ", ");
    push_decimal(s, ((u / 65536) % 256) as u64);
    push_str(s, ", ");
    push_decimal(s, (u / 16777216) as u64);
    push_str(s, ")");
    assert(final(s)@ == old(s)@ + css_color(x as u32));
}

/// The CSS text `rgba(R, G, B, A)` of the packed color `x`.
pub fn i32_to_csscolor(x: i32) -> (r: String)
    ensures
        r@ == css_color(x as u32),
{
    let mut s = String::new();
    push_color(&mut s, x);
    assert(s@ == css_color(x as u32));
    s
}

/// Packing four channels and reading them back gives the same channels, so
/// the CSS text of the packed value lists them in the order red, green,
/// blue, alpha.
pub proof fn lemma_color_round_trip(r: u8, g: u8, b: u8, a: u8)
    ensures
        0 <= pack(r, g, b, a) <= u32::MAX,
        red(pack(r, g, b, a) as u32) == r,
        green(pack(r, g, b, a) as u32) == g,
        blue(pack(r, g, b, a) as u32) == b,
        alpha(pack(r, g, b, a) as u32) == a,
        css_color(pack(r, g, b, a) as u32) == rgba_text(r as nat, g as nat, b as nat, a as nat),
{
    let p = pack(r, g, b, a);
    assert(0 <= p <= u32::MAX) by (nonlinear_arith)
        requires
            p == a * 16777216 + b * 65536 + g * 256 + r,
            0 <= r < 256,
            0 <= g < 256,
            0 <= b < 256,
            0 <= a < 256,
    ;
    assert(p % 256 == r && (p / 256) % 256 == g && (p / 65536) % 256 == b && p / 16777216 == a)
        by (nonlinear_arith)
        requires
            p == a * 16777216 + b * 65536 + g * 256 + r,
            0 <= r < 256,
            0 <= g < 256,
            0 <= b < 256,
            0 <= a < 256,
    ;
}

/// Every packed value is the packing of its four channels.
pub proof fn lemma_color_channels_pack(x: u32)
    ensures
        red(x) < 256 && green(x) < 256 && blue(x) < 256 && alpha(x) < 256,
        pack(red(x) as u8, green(x) as u8, blue(x) as u8, alpha(x) as u8) == x,
{
    let xi = x as int;
    assert(xi == (xi / 16777216) * 16777216 + ((xi / 65536) % 256) * 65536 + ((xi / 256) % 256)
        * 256 + xi % 256 && xi / 16777216 < 256) by (nonlinear_arith)
        requires
            0 <= xi <= u32::MAX,
    ;
}

} // verus!
