//! The fields of a beacon line: flags byte, coordinates, receive time and
//! signal strength.

use vstd::prelude::*;
use vstd::slice::slice_subrange;
use crate::clock::{time_of_day_is_kept, timestamp_on_day, valid_time_of_day, with_time_of_day};
use crate::data_structures::{AddressType, AircraftType};
use crate::decimal::{
    clamp, parse_decimal, parse_decimal_spec, read_digits, Decimal, MAX_MANTISSA, MAX_SCALE,
};
use crate::text::{
    all_digits, digits_value, find_char, find_text, find_token_start, first_index,
    first_occurrence, is_digit, lemma_digits_value_prefix, same_text, to_chars, token_start,
};

verus! {

/// The signal strength recorded where a line gives none: -1 dB.
pub open spec fn no_signal() -> Decimal {
    Decimal { negative: true, mantissa: 1, scale: 0 }
}

/// The number a hexadecimal digit stands for; `None` for any other character.
pub open spec fn hex_digit(c: char) -> Option<nat> {
    if '0' <= c <= '9' {
        Some((c as int - '0' as int) as nat)
    } else if 'a' <= c <= 'f' {
        Some((c as int - 'a' as int + 10) as nat)
    } else if 'A' <= c <= 'F' {
        Some((c as int - 'A' as int + 10) as nat)
    } else {
        None
    }
}

/// Every character of `s` is a hexadecimal digit.
pub open spec fn all_hex(s: Seq<char>) -> bool {
    forall|i: int| 0 <= i < s.len() ==> hex_digit(#[trigger] s[i]) is Some
}

/// The number that the hexadecimal digits of `s` spell; 0 for the empty sequence.
pub open spec fn hex_value(s: Seq<char>) -> nat
    decreases s.len(),
{
    if s.len() == 0 {
        0
    } else {
        hex_value(s.drop_last()) * 16 + hex_digit(s.last()).unwrap_or(0)
    }
}

/// The byte that `s` writes in hexadecimal: an optional plus sign and at
/// least one digit; `None` where `s` is not of that form or the number is
/// above 255.
pub open spec fn hex_byte_spec(s: Seq<char>) -> Option<u8> {
    let digits = if s.len() > 0 && s[0] == '+' {
        s.skip(1)
    } else {
        s
    };
    if digits.len() > 0 && all_hex(digits) && hex_value(digits) <= 255 {
        Some(hex_value(digits) as u8)
    } else {
        None
    }
}

proof fn lemma_hex_value_prefix(s: Seq<char>, n: int)
    requires
        0 <= n <= s.len(),
    ensures
        hex_value(s.take(n)) <= hex_value(s),
    decreases s.len() - n,
{
    if n == s.len() {
        assert(s.take(n) == s);
    } else {
        lemma_hex_value_prefix(s.drop_last(), n);
        assert(s.drop_last().take(n) == s.take(n));
    }
}

fn hex_digit_of(c: char) -> (r: Option<u8>)
    ensures
        r is Some <==> hex_digit(c) is Some,
        r matches Some(d) ==> hex_digit(c) == Some(d as nat) && d <= 15,
{
    if c >= '0' && c <= '9' {
        Some((c as u32 - '0' as u32) as u8)
    } else if c >= 'a' && c <= 'f' {
        Some((c as u32 - 'a' as u32 + 10) as u8)
    } else if c >= 'A' && c <= 'F' {
        Some((c as u32 - 'A' as u32 + 10) as u8)
    } else {
        None
    }
}

/// Reads a byte written in hexadecimal.
pub fn parse_hex_byte(text: &str) -> (r: Option<u8>)
    ensures
        r == hex_byte_spec(text@),
{
    let v = to_chars(text);
    let n: usize = v.len();
    let start: usize = if n > 0 && v[0] == '+' { 1 } else { 0 };
    if start == n {
        return None;
    }
    let ghost digits = v@.subrange(start as int, n as int);
    assert(digits == if v@.len() > 0 && v@[0] == '+' { v@.skip(1) } else { v@ });
    let mut acc: u8 = 0;
    let mut i: usize = start;
    assert(digits.take(0) == Seq::<char>::empty());
    while i < n
        invariant
            start <= i <= n == v@.len(),
            start < n,
            v@ == text@,
            digits == v@.subrange(start as int, n as int),
            digits == if v@.len() > 0 && v@[0] == '+' {
                v@.skip(1)
            } else {
                v@
            },
            all_hex(digits.take(i - start)),
            acc == hex_value(digits.take(i - start)),
        decreases n - i,
    {
        let ghost grown = digits.take(i + 1 - start);
        proof {
            assert(grown.drop_last() == digits.take(i - start));
            assert(grown.last() == v@[i as int]);
            lemma_hex_value_prefix(digits, i + 1 - start);
        }
        match hex_digit_of(v[i]) {
            None => {
                assert(hex_digit(digits[i - start]) is None);
                return None;
            },
            Some(d) => {
                assert(hex_value(grown) == acc * 16 + d);
                let next: u16 = acc as u16 * 16 + d as u16;
                if next > 255 {
                    return None;
                }
                acc = next as u8;
                assert forall|j: int| 0 <= j < grown.len() implies hex_digit(
                    #[trigger] grown[j],
                ) is Some by {
                    if j < i - start {
                        assert(digits.take(i - start)[j] == grown[j]);
                    }
                }
            },
        }
        i += 1;
    }
    assert(digits.take(n - start) == digits);
    Some(acc)
}

/// What the flags byte of a beacon says.
#[derive(Clone, Copy, Debug, PartialEq, Eq, Structural)]
pub struct Flags {
    pub stealth: bool,
    pub do_not_track: bool,
    pub aircraft_type: AircraftType,
    pub address_type: AddressType,
}

/// The flags byte taken apart: bit 7 is stealth, bit 6 is do-not-track, bits
/// 5 to 2 are the aircraft type and bits 1 and 0 the address type.
pub open spec fn decode_flags_spec(flags: u8) -> Flags {
    Flags {
        stealth: flags >= 128,
        do_not_track: (flags / 64) % 2 == 1,
        aircraft_type: AircraftType::from_code(((flags / 4) % 16) as int),
        address_type: AddressType::from_code((flags % 4) as int),
    }
}

/// Takes the flags byte apart.
pub fn decode_flags(flags: u8) -> (r: Flags)
    ensures
        r == decode_flags_spec(flags),
{
    assert((flags & 0b1000_0000 > 0) == (flags >= 128)) by (bit_vector);
    assert((flags & 0b0100_0000 > 0) == ((flags / 64) % 2 == 1)) by (bit_vector);
    assert((flags >> 2) & 0x0f == (flags / 4) % 16) by (bit_vector);
    assert(flags & 0b0000_0011 == flags % 4) by (bit_vector);
    Flags {
        stealth: flags & 0b1000_0000 > 0,
        do_not_track: flags & 0b0100_0000 > 0,
        aircraft_type: AircraftType::from((flags >> 2) & 0x0f),
        address_type: AddressType::from(flags & 0b0000_0011),
    }
}

/// The address type that a beacon class stands for; `Unknown` for any other text.
pub open spec fn address_type_of_prefix(prefix: Seq<char>) -> AddressType {
    if prefix == "OGN"@ {
        AddressType::Ogn
    } else if prefix == "ICA"@ {
        AddressType::Icao
    } else if prefix == "FLR"@ {
        AddressType::Flarm
    } else if prefix == "SKY"@ {
        AddressType::SafeSky
    } else {
        AddressType::Unknown
    }
}

/// The address type that a beacon class stands for.
pub fn prefix_address_type(prefix: &str) -> (r: AddressType)
    ensures
        r == address_type_of_prefix(prefix@),
{
    if same_text(prefix, "OGN") {
        AddressType::Ogn
    } else if same_text(prefix, "ICA") {
        AddressType::Icao
    } else if same_text(prefix, "FLR") {
        AddressType::Flarm
    } else if same_text(prefix, "SKY") {
        AddressType::SafeSky
    } else {
        AddressType::Unknown
    }
}

/// The beacon class under which a relayed beacon of the given address type is recorded.
pub open spec fn prefix_of_address_type(t: AddressType) -> Seq<char> {
    match t {
        AddressType::Icao => "ICA"@,
        AddressType::Ogn => "OGN"@,
        AddressType::Flarm => "FLR"@,
        AddressType::SafeSky => "SKY"@,
        AddressType::Unknown => "NEMO"@,
    }
}

/// The beacon class under which a relayed beacon of the given address type is recorded.
pub fn relay_prefix(t: AddressType) -> (r: String)
    ensures
        r@ == prefix_of_address_type(t),
{
    match t {
        AddressType::Icao => "ICA".to_owned(),
        AddressType::Ogn => "OGN".to_owned(),
        AddressType::Flarm => "FLR".to_owned(),
        AddressType::SafeSky => "SKY".to_owned(),
        AddressType::Unknown => "NEMO".to_owned(),
    }
}

/// The angle that `s` writes in degrees and decimal minutes, in units of
/// 1e-7 degree and held to the range of `i64`.
///
/// The two digits before the decimal point and what follows it are minutes;
/// the digits before those, of which there is at least one, are degrees.
/// `None` where `s` is not of that form, has more than `MAX_SCALE` digits
/// after the point, or spells degrees or minutes above `MAX_MANTISSA`.
pub open spec fn coordinate_spec(s: Seq<char>) -> Option<i64> {
    let p = first_index(s, '.');
    let degrees = s.subrange(0, p - 2);
    let whole_minutes = s.subrange(p - 2, p);
    let fraction = s.subrange(p + 1, s.len() as int);
    let minutes = Decimal {
        negative: false,
        mantissa: digits_value(whole_minutes + fraction) as u64,
        scale: fraction.len() as u8,
    };
    if 3 <= p < s.len() && all_digits(degrees) && all_digits(whole_minutes) && all_digits(fraction)
        && fraction.len() <= MAX_SCALE && digits_value(degrees) <= MAX_MANTISSA && digits_value(
        whole_minutes + fraction,
    ) <= MAX_MANTISSA {
        Some(
            clamp(
                digits_value(degrees) * 10_000_000 + minutes.scaled(10_000_000, 60),
                0,
                i64::MAX as int,
            ) as i64,
        )
    } else {
        None
    }
}

/// Reads an unsigned angle in degrees and decimal minutes.
pub fn parse_coordinate(text: &str) -> (r: Option<i64>)
    ensures
        r == coordinate_spec(text@),
        r matches Some(v) ==> v >= 0,
{
    let v = to_chars(text);
    let n: usize = v.len();
    let p: usize = find_char(v.as_slice(), '.', 0);
    assert(v@.skip(0) == v@);
    if p < 3 || p >= n {
        return None;
    }
    let ghost degrees = v@.subrange(0, p - 2);
    let ghost whole_minutes = v@.subrange(p - 2, p as int);
    let ghost fraction = v@.subrange(p + 1, n as int);
    assert(Seq::<char>::empty() + degrees == degrees);
    assert(Seq::<char>::empty() + whole_minutes == whole_minutes);
    let d: u64 = match read_digits(
        v.as_slice(),
        0,
        p - 2,
        0,
        MAX_MANTISSA,
        Ghost(Seq::<char>::empty()),
    ) {
        Some(d) => d,
        None => {
            return None;
        },
    };
    let m: u64 = match read_digits(
        v.as_slice(),
        p - 2,
        p,
        0,
        MAX_MANTISSA,
        Ghost(Seq::<char>::empty()),
    ) {
        Some(m) => m,
        None => {
            proof {
                assert((whole_minutes + fraction).take(2) == whole_minutes);
                lemma_digits_value_prefix(whole_minutes + fraction, 2);
            }
            return None;
        },
    };
    if n - (p + 1) > MAX_SCALE as usize {
        return None;
    }
    let mantissa: u64 = match read_digits(
        v.as_slice(),
        p + 1,
        n,
        m,
        MAX_MANTISSA,
        Ghost(whole_minutes),
    ) {
        Some(x) => x,
        None => {
            return None;
        },
    };
    let minutes = Decimal { negative: false, mantissa, scale: (n - (p + 1)) as u8 };
    let part: i64 = minutes.scale_round(10_000_000, 60);
    proof {
        let num: int = minutes.numerator() * 10_000_000;
        let den: int = (crate::decimal::pow10(minutes.scale as nat) * 60) as int;
        crate::decimal::lemma_pow10_monotone(0, minutes.scale as nat);
        assert(num >= 0) by (nonlinear_arith)
            requires
                num == minutes.numerator() * 10_000_000,
                minutes.numerator() >= 0,
        ;
        assert(den > 0) by (nonlinear_arith)
            requires
                den == crate::decimal::pow10(minutes.scale as nat) * 60,
                crate::decimal::pow10(minutes.scale as nat) > 0,
        ;
        assert((2 * num + den) / (2 * den) >= 0) by (nonlinear_arith)
            requires
                num >= 0,
                den > 0,
        ;
    }
    let total: i128 = (d as i128) * 10_000_000 + (part as i128);
    if total > i64::MAX as i128 {
        Some(i64::MAX)
    } else {
        Some(total as i64)
    }
}

/// The signed angle for a coordinate text and its hemisphere letter, in
/// units of 1e-7 degree: positive where the letter is `positive`, negative
/// otherwise, and 0 where the text is no coordinate.
pub open spec fn signed_coordinate_spec(
    text: Seq<char>,
    hemisphere: Seq<char>,
    positive: Seq<char>,
) -> i64 {
    let magnitude: i64 = match coordinate_spec(text) {
        Some(v) => v,
        None => 0,
    };
    if hemisphere == positive {
        magnitude
    } else {
        (-magnitude) as i64
    }
}

/// Reads a coordinate and gives it the sign of its hemisphere.
pub fn signed_coordinate(text: &str, hemisphere: &str, positive: &str) -> (r: i64)
    ensures
        r == signed_coordinate_spec(text@, hemisphere@, positive@),
{
    let magnitude: i64 = match parse_coordinate(text) {
        Some(v) => v,
        None => 0,
    };
    if same_text(hemisphere, positive) {
        magnitude
    } else {
        -magnitude
    }
}

/// The signal strength that a line reports in dB, as the line writes it:
/// the number written by the space-delimited token that ends where `dB`
/// first stands; `no_signal()` where `dB` stands nowhere or the token is no
/// number.
pub open spec fn signal_strength_spec(line: Seq<char>) -> Decimal {
    match first_occurrence(line, "dB"@) {
        None => no_signal(),
        Some(at) => match parse_decimal_spec(line.subrange(token_start(line, at), at)) {
            Some(d) => d,
            None => no_signal(),
        },
    }
}

pub fn parse_signal_strength(line: &str) -> (r: Decimal)
    ensures
        r == signal_strength_spec(line@),
        r.wf(),
{
    let v = to_chars(line);
    let marker = to_chars("dB");
    let absent = Decimal { negative: true, mantissa: 1, scale: 0 };
    match find_text(v.as_slice(), marker.as_slice()) {
        None => absent,
        Some(at) => {
            let start: usize = find_token_start(v.as_slice(), at);
            let token = slice_subrange(v.as_slice(), start, at);
            match parse_decimal(token) {
                Some(d) => d,
                None => absent,
            }
        },
    }
}

/// Why a receive time gives no timestamp.
#[derive(Clone, Copy, Debug, PartialEq, Eq, Structural)]
pub enum TimeError {
    /// The text is not two digits of hours, two of minutes and at least one of seconds.
    Malformed,
    /// The digits name no time of day, or the timestamp is outside `i64`.
    OutOfRange,
}

/// The hours that a receive time writes.
pub open spec fn rx_hour(s: Seq<char>) -> int {
    digits_value(s.subrange(0, 2)) as int
}

/// The minutes that a receive time writes.
pub open spec fn rx_minute(s: Seq<char>) -> int {
    digits_value(s.subrange(2, 4)) as int
}

/// The seconds that a receive time writes.
pub open spec fn rx_second(s: Seq<char>) -> int {
    digits_value(s.skip(4)) as int
}

/// A receive time reads as three numbers: at least five characters, all
/// digits, the seconds not above `u32::MAX`.
pub open spec fn rx_time_wellformed(s: Seq<char>) -> bool {
    s.len() >= 5 && all_digits(s) && rx_second(s) <= u32::MAX
}

/// The timestamp of the receive time `s` (hours, minutes, seconds as
/// `HHMMSS`) on the UTC day of `now`.
pub open spec fn rx_time_spec(s: Seq<char>, now: int) -> Result<i64, TimeError> {
    if rx_time_wellformed(s) {
        match timestamp_on_day(now, rx_hour(s), rx_minute(s), rx_second(s)) {
            Some(ts) => Ok(ts),
            None => Err(TimeError::OutOfRange),
        }
    } else {
        Err(TimeError::Malformed)
    }
}

/// A receive time of six digits that name a time of day gives a timestamp
/// on the UTC day of `now` that shows that time of day, wherever `now` is
/// at least a day away from the ends of `i64`; and a receive time whose
/// digits name no time of day gives none.
pub proof fn receive_time_is_kept(s: Seq<char>, now: int)
    requires
        s.len() == 6,
        all_digits(s),
    ensures
        valid_time_of_day(rx_hour(s), rx_minute(s), rx_second(s)) && i64::MIN + 86_400 <= now
            <= i64::MAX - 86_400 ==> rx_time_spec(s, now) is Ok,
        !valid_time_of_day(rx_hour(s), rx_minute(s), rx_second(s)) ==> rx_time_spec(s, now)
            == Err::<i64, TimeError>(TimeError::OutOfRange),
        rx_time_spec(s, now) matches Ok(ts) ==> {
            &&& ts / 86_400 == now / 86_400
            &&& (ts % 86_400) / 3600 == rx_hour(s)
            &&& (ts % 3600) / 60 == rx_minute(s)
            &&& ts % 60 == rx_second(s)
        },
{
    let tail = s.skip(4);
    assert(tail.len() == 2);
    assert forall|j: int| 0 <= j < tail.len() implies is_digit(#[trigger] tail[j]) by {
        assert(tail[j] == s[j + 4]);
    }
    lemma_two_digits(tail);
    if valid_time_of_day(rx_hour(s), rx_minute(s), rx_second(s)) {
        time_of_day_is_kept(now, rx_hour(s), rx_minute(s), rx_second(s));
    }
}

/// Combines the receive time of a line with the UTC day of `now`.
pub fn rx_time_to_utc_ts(rx_time: &str, now: i64) -> (r: Result<i64, TimeError>)
    ensures
        r == rx_time_spec(rx_time@, now as int),
{
    let v = to_chars(rx_time);
    let n: usize = v.len();
    if n < 5 {
        return Err(TimeError::Malformed);
    }
    let ghost s = v@;
    let ghost hh = s.subrange(0, 2);
    let ghost mm = s.subrange(2, 4);
    let ghost ss = s.subrange(4, n as int);
    proof {
        assert(ss == s.skip(4));
        assert(Seq::<char>::empty() + hh == hh);
        assert(Seq::<char>::empty() + mm == mm);
        assert(Seq::<char>::empty() + ss == ss);
        assert(all_digits(s) <==> all_digits(hh) && all_digits(mm) && all_digits(ss)) by {
            if all_digits(s) {
                assert forall|j: int| 0 <= j < hh.len() implies is_digit(#[trigger] hh[j]) by {
                    assert(hh[j] == s[j]);
                }
                assert forall|j: int| 0 <= j < mm.len() implies is_digit(#[trigger] mm[j]) by {
                    assert(mm[j] == s[j + 2]);
                }
                assert forall|j: int| 0 <= j < ss.len() implies is_digit(#[trigger] ss[j]) by {
                    assert(ss[j] == s[j + 4]);
                }
            }
            if all_digits(hh) && all_digits(mm) && all_digits(ss) {
                assert forall|j: int| 0 <= j < s.len() implies is_digit(#[trigger] s[j]) by {
                    if j < 2 {
                        assert(s[j] == hh[j]);
                    } else if j < 4 {
                        assert(s[j] == mm[j - 2]);
                    } else {
                        assert(s[j] == ss[j - 4]);
                    }
                }
            }
        }
    }
    let limit: u64 = u32::MAX as u64;
    let hour = match read_digits(v.as_slice(), 0, 2, 0, limit, Ghost(Seq::<char>::empty())) {
        Some(x) => x,
        None => {
            proof {
                if all_digits(hh) {
                    lemma_two_digits(hh);
                }
            }
            return Err(TimeError::Malformed);
        },
    };
    let min = match read_digits(v.as_slice(), 2, 4, 0, limit, Ghost(Seq::<char>::empty())) {
        Some(x) => x,
        None => {
            proof {
                if all_digits(mm) {
                    lemma_two_digits(mm);
                }
            }
            return Err(TimeError::Malformed);
        },
    };
    let sec = match read_digits(v.as_slice(), 4, n, 0, limit, Ghost(Seq::<char>::empty())) {
        Some(x) => x,
        None => {
            return Err(TimeError::Malformed);
        },
    };
    match with_time_of_day(now, hour as u32, min as u32, sec as u32) {
        Some(ts) => Ok(ts),
        None => Err(TimeError::OutOfRange),
    }
}

/// Two digits spell a number below one hundred.
proof fn lemma_two_digits(s: Seq<char>)
    requires
        s.len() == 2,
        all_digits(s),
    ensures
        digits_value(s) <= 99,
{
    reveal_with_fuel(digits_value, 3);
    assert(is_digit(s[0]) && is_digit(s[1]));
    assert(s.drop_last().last() == s[0]);
}

} // verus!
