//! Writing numbers as decimal text.

use vstd::prelude::*;
use crate::decimal::round_div;
use crate::text::{all_digits, digits_value, to_chars};

verus! {

/// The character for the digit `d`.
pub open spec fn digit_char(d: int) -> char {
    ('0' as int + d) as char
}

/// The digits of `n` in base ten, without leading zeros; `0` for zero.
pub open spec fn decimal_text(n: nat) -> Seq<char>
    decreases n,
{
    if n < 10 {
        seq![digit_char(n as int)]
    } else {
        decimal_text(n / 10).push(digit_char((n % 10) as int))
    }
}

/// The last `width` digits of `n` in base ten, with leading zeros.
pub open spec fn padded_text(n: nat, width: nat) -> Seq<char>
    decreases width,
{
    if width == 0 {
        Seq::<char>::empty()
    } else {
        padded_text(n / 10, (width - 1) as nat).push(digit_char((n % 10) as int))
    }
}

/// The text of `v / 10^4` with four decimals: a minus sign where `v` is
/// negative, the whole part, a point, and four digits.
pub open spec fn fixed4_text(v: int) -> Seq<char> {
    let a = if v < 0 {
        (-v) as nat
    } else {
        v as nat
    };
    let sign = if v < 0 {
        seq!['-']
    } else {
        Seq::<char>::empty()
    };
    sign + decimal_text(a / 10_000).push('.') + padded_text(a % 10_000, 4)
}

/// The text of an angle given in units of 1e-7 degree, in degrees with four
/// decimals, rounded halves away from zero.
pub open spec fn degrees_text(angle: int) -> Seq<char> {
    fixed4_text(round_div(angle, 1000))
}

fn digit_to_char(d: u8) -> (c: char)
    requires
        d <= 9,
    ensures
        c == digit_char(d as int),
{
    (('0' as u8) + d) as char
}

/// Appends the digits of `n`.
pub fn push_decimal(out: &mut Vec<char>, n: u64)
    ensures
        final(out)@ == old(out)@ + decimal_text(n as nat),
    decreases n,
{
    if n >= 10 {
        push_decimal(out, n / 10);
    }
    out.push(digit_to_char((n % 10) as u8));
}

/// Appends the last `width` digits of `n`, with leading zeros.
pub fn push_padded(out: &mut Vec<char>, n: u64, width: usize)
    ensures
        final(out)@ == old(out)@ + padded_text(n as nat, width as nat),
    decreases width,
{
    if width > 0 {
        push_padded(out, n / 10, width - 1);
        out.push(digit_to_char((n % 10) as u8));
    }
}

/// Appends the characters of `s`.
pub fn push_text(out: &mut Vec<char>, s: &str)
    ensures
        final(out)@ == old(out)@ + s@,
{
    let chars = to_chars(s);
    let mut i: usize = 0;
    while i < chars.len()
        invariant
            i <= chars@.len(),
            chars@ == s@,
            out@ == old(out)@ + chars@.take(i as int),
        decreases chars@.len() - i,
    {
        out.push(chars[i]);
        assert(chars@.take(i + 1) == chars@.take(i as int).push(chars@[i as int]));
        i += 1;
    }
    assert(chars@.take(i as int) == chars@);
}

/// Appends an angle given in units of 1e-7 degree, in degrees with four decimals.
pub fn push_degrees(out: &mut Vec<char>, angle: i64)
    ensures
        final(out)@ == old(out)@ + degrees_text(angle as int),
{
    let wide: i128 = angle as i128;
    let magnitude: u64 = if wide >= 0 {
        ((2 * wide + 1000) / 2000) as u64
    } else {
        ((1000 - 2 * wide) / 2000) as u64
    };
    let negative: bool = wide < 0 && magnitude > 0;
    let ghost q = round_div(angle as int, 1000);
    assert(q == if wide >= 0 { magnitude as int } else { -(magnitude as int) });
    if negative {
        out.push('-');
    }
    push_decimal(out, magnitude / 10_000);
    out.push('.');
    push_padded(out, magnitude % 10_000, 4);
    proof {
        let sign = if q < 0 { seq!['-'] } else { Seq::<char>::empty() };
        assert(out@ == old(out)@ + (sign + decimal_text((magnitude / 10_000) as nat).push('.')
            + padded_text((magnitude % 10_000) as nat, 4)));
    }
}

/// The digits that `decimal_text` writes spell the number back.
pub proof fn decimal_text_reads_back(n: nat)
    ensures
        all_digits(decimal_text(n)),
        digits_value(decimal_text(n)) == n,
        decimal_text(n).len() >= 1,
    decreases n,
{
    if n < 10 {
        let s = decimal_text(n);
        assert(s.drop_last() == Seq::<char>::empty());
        assert(digits_value(s.drop_last()) == 0);
    } else {
        decimal_text_reads_back(n / 10);
        let s = decimal_text(n);
        assert(s.drop_last() == decimal_text(n / 10));
        assert forall|i: int| 0 <= i < s.len() implies crate::text::is_digit(#[trigger] s[i]) by {
            if i < s.len() - 1 {
                assert(s[i] == decimal_text(n / 10)[i]);
            }
        }
    }
}

} // verus!
