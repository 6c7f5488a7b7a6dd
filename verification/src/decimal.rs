//! Decimal numbers read exactly from text, and their conversion to
//! fixed-point integers with rounding half away from zero.

use vstd::prelude::*;
use crate::text::{
    all_digits, digit_of, digits_value, find_char, first_index, lemma_digits_value_prefix,
    lemma_digits_value_push,
};

verus! {

/// The largest mantissa a `Decimal` holds: eighteen nines.
pub const MAX_MANTISSA: u64 = 999_999_999_999_999_999;

/// The largest number of fractional digits a `Decimal` holds.
pub const MAX_SCALE: u8 = 18;

/// Ten to the power `k`.
pub open spec fn pow10(k: nat) -> nat
    decreases k,
{
    if k == 0 {
        1
    } else {
        10 * pow10((k - 1) as nat)
    }
}

/// The quotient `n / d` rounded to the nearest integer, halves away from zero (`d > 0`).
#[verifier::inline]
pub open spec fn round_div(n: int, d: int) -> int {
    if n >= 0 {
        (2 * n + d) / (2 * d)
    } else {
        -((d - 2 * n) / (2 * d))
    }
}

/// `x` brought into the range `lo..=hi`.
pub open spec fn clamp(x: int, lo: int, hi: int) -> int {
    if x < lo {
        lo
    } else if x > hi {
        hi
    } else {
        x
    }
}

/// A decimal number: `mantissa / 10^scale`, negated where `negative` is set.
#[derive(Clone, Copy, Debug, PartialEq, Eq, Structural)]
pub struct Decimal {
    pub negative: bool,
    pub mantissa: u64,
    pub scale: u8,
}

impl Decimal {
    /// The mantissa and the scale are within their limits.
    pub open spec fn wf(self) -> bool {
        self.mantissa <= MAX_MANTISSA && self.scale <= MAX_SCALE
    }

    /// The signed mantissa.
    pub open spec fn numerator(self) -> int {
        if self.negative {
            -(self.mantissa as int)
        } else {
            self.mantissa as int
        }
    }

    /// The number times `num / den`, rounded to the nearest integer, halves away from zero.
    pub open spec fn scaled(self, num: int, den: int) -> int {
        round_div(self.numerator() * num, pow10(self.scale as nat) * den)
    }

    /// Whether the mantissa and the scale are within their limits.
    pub fn is_wf(&self) -> (r: bool)
        ensures
            r == self.wf(),
    {
        self.mantissa <= MAX_MANTISSA && self.scale <= MAX_SCALE
    }

    /// The number times `num / den` as an integer, rounded halves away from
    /// zero and held to the range of `i64`.
    pub fn scale_round(&self, num: u32, den: u32) -> (r: i64)
        requires
            self.wf(),
            den > 0,
        ensures
            r == clamp(self.scaled(num as int, den as int), i64::MIN as int, i64::MAX as int),
    {
        let p: u128 = pow10_of(self.scale);
        let m: u128 = self.mantissa as u128;
        assert(m * num <= 999_999_999_999_999_999 * 0xffff_ffff) by (nonlinear_arith)
            requires
                m <= 999_999_999_999_999_999,
                num <= 0xffff_ffff,
        ;
        assert(0 < p * den <= 1_000_000_000_000_000_000 * 0xffff_ffff) by (nonlinear_arith)
            requires
                0 < p <= 1_000_000_000_000_000_000,
                0 < den <= 0xffff_ffff,
        ;
        let n: u128 = m * (num as u128);
        let d: u128 = p * (den as u128);
        let q: u128 = (2 * n + d) / (2 * d);
        proof {
            let x = self.mantissa as int;
            assert((-x) * (num as int) == -(x * (num as int))) by (nonlinear_arith);
            let sn = self.numerator() * (num as int);
            let sd = pow10(self.scale as nat) * (den as int);
            assert(sd == d);
            assert(sn == if self.negative { -(n as int) } else { n as int });
            assert(n == 0 ==> q == 0) by (nonlinear_arith)
                requires
                    d > 0,
                    q == (2 * n + d) / (2 * d),
            ;
        }
        if self.negative {
            if q > 0x8000_0000_0000_0000 {
                i64::MIN
            } else if q == 0x8000_0000_0000_0000 {
                i64::MIN
            } else {
                -(q as i64)
            }
        } else {
            if q > 0x7fff_ffff_ffff_ffff {
                i64::MAX
            } else {
                q as i64
            }
        }
    }
}

/// `pow10` does not shrink as the exponent grows.
pub proof fn lemma_pow10_monotone(i: nat, j: nat)
    requires
        i <= j,
    ensures
        0 < pow10(i) <= pow10(j),
    decreases j,
{
    if j > 0 {
        if i < j {
            lemma_pow10_monotone(i, (j - 1) as nat);
        } else {
            lemma_pow10_monotone((i - 1) as nat, (j - 1) as nat);
        }
    }
}

/// Ten to the power `k`, for `k` up to `MAX_SCALE`.
fn pow10_of(k: u8) -> (r: u128)
    requires
        k <= MAX_SCALE,
    ensures
        r == pow10(k as nat),
        0 < r <= 1_000_000_000_000_000_000,
{
    let mut r: u128 = 1;
    let mut i: u8 = 0;
    proof {
        reveal_with_fuel(pow10, 19);
        assert(pow10(18) == 1_000_000_000_000_000_000);
    }
    while i < k
        invariant
            i <= k <= 18,
            r == pow10(i as nat),
            pow10(18) == 1_000_000_000_000_000_000,
        decreases k - i,
    {
        proof {
            lemma_pow10_monotone((i + 1) as nat, 18);
        }
        r = r * 10;
        i += 1;
    }
    proof {
        lemma_pow10_monotone(k as nat, 18);
    }
    r
}

/// Reads the digits `v[from..to]` after the digits `prefix`, whose value is
/// `acc`, as one number that must not exceed `limit`.
pub(crate) fn read_digits(
    v: &[char],
    from: usize,
    to: usize,
    acc: u64,
    limit: u64,
    Ghost(prefix): Ghost<Seq<char>>,
) -> (r: Option<u64>)
    requires
        from <= to <= v@.len(),
        acc == digits_value(prefix),
        acc <= limit,
    ensures
        ({
            let run = v@.subrange(from as int, to as int);
            r == if all_digits(run) && digits_value(prefix + run) <= limit {
                Some(digits_value(prefix + run) as u64)
            } else {
                None
            }
        }),
{
    let ghost run = v@.subrange(from as int, to as int);
    let mut cur: u64 = acc;
    let mut i: usize = from;
    assert(prefix + v@.subrange(from as int, from as int) == prefix);
    while i < to
        invariant
            from <= i <= to <= v@.len(),
            run == v@.subrange(from as int, to as int),
            all_digits(v@.subrange(from as int, i as int)),
            cur == digits_value(prefix + v@.subrange(from as int, i as int)),
            cur <= limit,
        decreases to - i,
    {
        let ghost seen = prefix + v@.subrange(from as int, i as int);
        let ghost grown = prefix + v@.subrange(from as int, i + 1);
        proof {
            assert(grown == seen.push(v@[i as int]));
            lemma_digits_value_push(seen, v@[i as int]);
            assert((prefix + run).take(prefix.len() + (i + 1 - from)) == grown);
            lemma_digits_value_prefix(prefix + run, prefix.len() + (i + 1 - from));
        }
        match digit_of(v[i]) {
            None => {
                assert(run[i - from] == v@[i as int]);
                return None;
            },
            Some(d) => {
                let next: u128 = cur as u128 * 10 + d as u128;
                if next > limit as u128 {
                    return None;
                }
                cur = next as u64;
                assert forall|j: int| 0 <= j < i + 1 - from implies crate::text::is_digit(
                    #[trigger] v@.subrange(from as int, i + 1)[j],
                ) by {
                    if j < i - from {
                        assert(v@.subrange(from as int, i as int)[j] == v@[from + j]);
                    }
                }
            },
        }
        i += 1;
    }
    assert(v@.subrange(from as int, i as int) == run);
    Some(cur)
}

/// Whether `s` begins with a plus or a minus sign.
pub open spec fn has_sign(s: Seq<char>) -> bool {
    s.len() > 0 && (s[0] == '+' || s[0] == '-')
}

/// `s` without its sign.
pub open spec fn unsigned_part(s: Seq<char>) -> Seq<char> {
    if has_sign(s) {
        s.skip(1)
    } else {
        s
    }
}

/// What stands before the first decimal point of `b`.
pub open spec fn int_digits(b: Seq<char>) -> Seq<char> {
    b.take(first_index(b, '.'))
}

/// What stands after the first decimal point of `b`; empty where there is none.
pub open spec fn frac_digits(b: Seq<char>) -> Seq<char> {
    let p = first_index(b, '.');
    if p < b.len() {
        b.skip(p + 1)
    } else {
        Seq::<char>::empty()
    }
}

/// The number that `s` writes: an optional sign, digits, and optionally a
/// decimal point followed by digits, with at least one digit in all. `None`
/// where `s` is not of that form, has more than `MAX_SCALE` fractional
/// digits, or spells a mantissa above `MAX_MANTISSA`.
pub open spec fn parse_decimal_spec(s: Seq<char>) -> Option<Decimal> {
    let b = unsigned_part(s);
    let digits = int_digits(b) + frac_digits(b);
    if digits.len() > 0 && all_digits(digits) && frac_digits(b).len() <= MAX_SCALE
        && digits_value(digits) <= MAX_MANTISSA {
        Some(
            Decimal {
                negative: has_sign(s) && s[0] == '-',
                mantissa: digits_value(digits) as u64,
                scale: frac_digits(b).len() as u8,
            },
        )
    } else {
        None
    }
}

/// Reads a decimal number from its text.
pub fn parse_decimal(v: &[char]) -> (r: Option<Decimal>)
    ensures
        r == parse_decimal_spec(v@),
        r matches Some(d) ==> d.wf(),
{
    let n: usize = v.len();
    let signed: bool = n > 0 && (v[0] == '+' || v[0] == '-');
    let negative: bool = signed && v[0] == '-';
    let start: usize = if signed { 1 } else { 0 };
    let p: usize = find_char(v, '.', start);
    let ghost b = unsigned_part(v@);
    let ghost ints = int_digits(b);
    let ghost fracs = frac_digits(b);
    proof {
        assert(b == v@.skip(start as int));
        assert(ints == v@.subrange(start as int, p as int));
        if p < n {
            assert(fracs == v@.subrange(p + 1, n as int));
        }
        assert(Seq::<char>::empty() + ints == ints);
    }
    let frac_from: usize = if p < n { p + 1 } else { n };
    assert(fracs == v@.subrange(frac_from as int, n as int));
    if n - frac_from > MAX_SCALE as usize || (p - start) + (n - frac_from) == 0 {
        return None;
    }
    let whole = match read_digits(v, start, p, 0, MAX_MANTISSA, Ghost(Seq::<char>::empty())) {
        Some(w) => w,
        None => {
            proof {
                if all_digits(ints + fracs) {
                    assert forall|j: int| 0 <= j < ints.len() implies crate::text::is_digit(
                        #[trigger] ints[j],
                    ) by {
                        assert((ints + fracs)[j] == ints[j]);
                    }
                    assert((ints + fracs).take(ints.len() as int) == ints);
                    lemma_digits_value_prefix(ints + fracs, ints.len() as int);
                }
            }
            return None;
        },
    };
    let mantissa = match read_digits(v, frac_from, n, whole, MAX_MANTISSA, Ghost(ints)) {
        Some(m) => m,
        None => {
            proof {
                if all_digits(ints + fracs) {
                    assert forall|j: int| 0 <= j < fracs.len() implies crate::text::is_digit(
                        #[trigger] fracs[j],
                    ) by {
                        assert((ints + fracs)[ints.len() + j] == fracs[j]);
                    }
                }
            }
            return None;
        },
    };
    Some(Decimal { negative, mantissa, scale: (n - frac_from) as u8 })
}

/// The integer that `s` writes: an optional sign and at least one digit.
/// `None` where `s` is not of that form or the number is outside `i64`.
pub open spec fn parse_int_spec(s: Seq<char>) -> Option<i64> {
    let b = unsigned_part(s);
    let v = if has_sign(s) && s[0] == '-' {
        -(digits_value(b) as int)
    } else {
        digits_value(b) as int
    };
    if b.len() > 0 && all_digits(b) && i64::MIN <= v <= i64::MAX {
        Some(v as i64)
    } else {
        None
    }
}

/// Reads a signed integer from its text.
pub fn parse_int(v: &[char]) -> (r: Option<i64>)
    ensures
        r == parse_int_spec(v@),
{
    let n: usize = v.len();
    let signed: bool = n > 0 && (v[0] == '+' || v[0] == '-');
    let negative: bool = signed && v[0] == '-';
    let start: usize = if signed { 1 } else { 0 };
    if start == n {
        return None;
    }
    let limit: u64 = if negative { 0x8000_0000_0000_0000 } else { 0x7fff_ffff_ffff_ffff };
    proof {
        assert(unsigned_part(v@) == v@.subrange(start as int, n as int));
        assert(Seq::<char>::empty() + unsigned_part(v@) == unsigned_part(v@));
    }
    match read_digits(v, start, n, 0, limit, Ghost(Seq::<char>::empty())) {
        None => None,
        Some(m) => {
            if negative {
                if m == 0x8000_0000_0000_0000 {
                    Some(i64::MIN)
                } else {
                    Some(-(m as i64))
                }
            } else {
                Some(m as i64)
            }
        },
    }
}

} // verus!
