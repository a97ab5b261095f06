//! Decimal and hexadecimal rendering of unsigned integers.

use vstd::prelude::*;

verus! {

/// The sixteen digit characters, lower-case.
pub open spec fn hex_digits() -> Seq<char> {
    seq!['0', '1', '2', '3', '4', '5', '6', '7', '8', '9', 'a', 'b', 'c', 'd', 'e', 'f']
}

/// The character of digit `d` (below sixteen).
pub open spec fn digit_char(d: nat) -> char {
    hex_digits()[d as int]
}

/// The decimal form of `n`, without sign or leading zeros.
pub open spec fn decimal(n: nat) -> Seq<char>
    decreases n,
{
    if n < 10 {
        seq![digit_char(n)]
    } else {
        decimal(n / 10).push(digit_char(n % 10))
    }
}

/// The two lower-case hexadecimal digits of a byte.
pub open spec fn hex_byte(b: u8) -> Seq<char> {
    seq![digit_char((b / 16) as nat), digit_char((b % 16) as nat)]
}

/// The one-character string of digit `d`.
pub fn digit_str(d: u64) -> (r: &'static str)
    requires
        d < 16,
    ensures
        r@ == seq![digit_char(d as nat)],
{
    let all = "0123456789abcdef";
    proof {
        reveal_strlit("0123456789abcdef");
        assert(all@ =~= hex_digits());
    }
    let r = all.substring_ascii(d as usize, (d + 1) as usize);
    assert(r@ =~= seq![digit_char(d as nat)]);
    r
}

/// Appends the decimal form of `n` to `out`.
pub fn push_decimal(out: &mut String, n: u128)
    ensures
        final(out)@ == old(out)@ + decimal(n as nat),
    decreases n,
{
    if n >= 10 {
        push_decimal(out, n / 10);
    }
    out.append(digit_str((n % 10) as u64));
    assert(decimal(n as nat) =~= if n < 10 {
        seq![digit_char(n as nat)]
    } else {
        decimal((n / 10) as nat).push(digit_char((n % 10) as nat))
    });
    if n >= 10 {
        assert(final(out)@ =~= old(out)@ + decimal(n as nat));
    }
}

/// Appends the two lower-case hexadecimal digits of `b` to `out`.
pub fn push_hex_byte(out: &mut String, b: u8)
    ensures
        final(out)@ == old(out)@ + hex_byte(b),
{
    out.append(digit_str((b / 16) as u64));
    out.append(digit_str((b % 16) as u64));
    assert(final(out)@ =~= old(out)@ + hex_byte(b));
}

/// The decimal form of `n` as a new string.
pub fn decimal_string(n: u64) -> (r: String)
    ensures
        r@ == decimal(n as nat),
{
    let mut s = String::new();
    push_decimal(&mut s, n as u128);
    assert(s@ =~= decimal(n as nat));
    s
}

/// Sub-pixel units in one pixel: positions carry 24 bits of fraction.
pub const SUBPIXELS: u128 = 16777216;

/// Five to the power 24: `v / 2^24 == v * 5^24 / 10^24`.
pub const FIVE_POW_24: u128 = 59604644775390625;

/// The last `w` decimal digits of `n`, leading zeros included.
pub open spec fn padded(n: nat, w: nat) -> Seq<char>
    decreases w,
{
    if w == 0 {
        seq![]
    } else {
        padded(n / 10, (w - 1) as nat).push(digit_char(n % 10))
    }
}

/// `w` digits of fraction `n`, without the trailing zeros: the digits
/// left and how many they are.
pub open spec fn trimmed(n: nat, w: nat) -> (nat, nat)
    decreases w,
{
    if w > 0 && n % 10 == 0 {
        trimmed(n / 10, (w - 1) as nat)
    } else {
        (n, w)
    }
}

/// The exact decimal form of `v / 2^24`: the whole part, then, unless the
/// value is whole, a point and the fraction without trailing zeros.
pub open spec fn fixed_text(v: nat) -> Seq<char> {
    let t = trimmed((v % SUBPIXELS as nat) * FIVE_POW_24 as nat, 24);
    decimal(v / SUBPIXELS as nat) + if t.1 == 0 {
        Seq::<char>::empty()
    } else {
        seq!['.'] + padded(t.0, t.1)
    }
}

fn push_padded(out: &mut String, n: u128, w: u32)
    ensures
        final(out)@ == old(out)@ + padded(n as nat, w as nat),
    decreases w,
{
    if w > 0 {
        push_padded(out, n / 10, w - 1);
        out.append(digit_str((n % 10) as u64));
        assert(final(out)@ =~= old(out)@ + padded(n as nat, w as nat));
    } else {
        assert(final(out)@ =~= old(out)@ + padded(n as nat, w as nat));
    }
}

fn trim(n: u128, w: u32) -> (r: (u128, u32))
    ensures
        (r.0 as nat, r.1 as nat) == trimmed(n as nat, w as nat),
{
    let mut m = n;
    let mut k = w;
    while k > 0 && m % 10 == 0
        invariant
            trimmed(m as nat, k as nat) == trimmed(n as nat, w as nat),
        decreases k,
    {
        m = m / 10;
        k = k - 1;
    }
    (m, k)
}

/// Appends the exact decimal form of `v / 2^24`.
pub fn push_fixed(out: &mut String, v: u128)
    ensures
        final(out)@ == old(out)@ + fixed_text(v as nat),
{
    push_decimal(out, v / SUBPIXELS);
    let f = v % SUBPIXELS;
    assert(f * FIVE_POW_24 < SUBPIXELS * FIVE_POW_24) by (nonlinear_arith)
        requires
            f < SUBPIXELS,
    ;
    let (n, w) = trim(f * FIVE_POW_24, 24);
    let ghost mid = out@;
    if w > 0 {
        out.append(".");
        proof {
            reveal_strlit(".");
        }
        push_padded(out, n, w);
    }
    assert(final(out)@ =~= old(out)@ + fixed_text(v as nat));
}

/// The exact decimal form of `v / 2^24`, as a new string.
pub fn fixed_string(v: u128) -> (r: String)
    ensures
        r@ == fixed_text(v as nat),
{
    let mut s = String::new();
    push_fixed(&mut s, v);
    assert(s@ =~= fixed_text(v as nat));
    s
}

} // verus!
