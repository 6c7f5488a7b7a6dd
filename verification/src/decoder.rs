//! The beacon decoder: grammar selection, field extraction, and the line
//! listener that hands decoded beacons on.

use vstd::prelude::*;
use regex::Regex;
use crate::configuration::{
    AIRCRAFT_REGEX1, AIRCRAFT_REGEX2, AIRCRAFT_REGEX3, AIRCRAFT_REGEX4, NEMO_REGEX, SKY_REGEX,
};
use crate::data_structures::{AddressType, AircraftBeacon, BeaconData, Observer};
use crate::decimal::{clamp, Decimal};
use crate::fields::{
    address_type_of_prefix, decode_flags, decode_flags_spec, hex_byte_spec, parse_hex_byte,
    parse_signal_strength, prefix_address_type, prefix_of_address_type, relay_prefix,
    rx_time_spec, rx_time_to_utc_ts, signal_strength_spec, signed_coordinate,
    signed_coordinate_spec, Flags, TimeError,
};
use crate::pattern::{captures, group_texts, regex_captures, regex_compiles, regex_pattern};
use crate::text::{contains, contains_text, starts_with, to_chars};
use crate::units::{
    climb_rate_spec, feet_to_meters, fpm_to_m_per_s, knots_to_kmh, knots_to_kmh_spec,
};
use crate::utils::{
    from_caps, from_caps_float, from_caps_int, group_decimal, group_int, group_text, Groups,
};

verus! {

/// Why a line gives no beacon.
#[derive(Clone, Copy, Debug, PartialEq, Eq, Structural)]
pub enum DropReason {
    /// The line has fewer than three characters.
    TooShort,
    /// The line begins with no supported beacon class and is no relayed beacon.
    UnsupportedPrefix,
    /// The line does not match the grammar selected for it.
    NoMatch,
    /// The receive time of the line gives no timestamp.
    ReceiveTime(TimeError),
}

/// The six shapes of line that the decoder knows.
#[derive(Clone, Copy, Debug, PartialEq, Eq, Structural)]
pub enum Grammar {
    /// An aircraft beacon with device id, vertical speed and turn rate.
    Full,
    /// An aircraft beacon with device id and vertical speed.
    VerticalSpeed,
    /// An aircraft beacon with device id only.
    DeviceId,
    /// An aircraft beacon with position, course, speed and altitude only.
    Minimal,
    /// A SafeSky beacon.
    Sky,
    /// A beacon relayed in the NEMO wrapper.
    Nemo,
}

impl Grammar {
    /// The regular expression of the grammar.
    pub open spec fn pattern(self) -> Seq<char> {
        match self {
            Grammar::Full => AIRCRAFT_REGEX1@,
            Grammar::VerticalSpeed => AIRCRAFT_REGEX2@,
            Grammar::DeviceId => AIRCRAFT_REGEX3@,
            Grammar::Minimal => AIRCRAFT_REGEX4@,
            Grammar::Sky => SKY_REGEX@,
            Grammar::Nemo => NEMO_REGEX@,
        }
    }

    /// Whether the grammar has a vertical-speed field.
    pub open spec fn spec_has_vertical_speed(self) -> bool {
        self == Grammar::Full || self == Grammar::VerticalSpeed || self == Grammar::Sky || self
            == Grammar::Nemo
    }

    /// Whether the grammar has a turn-rate field.
    pub open spec fn spec_has_turn_rate(self) -> bool {
        self == Grammar::Full || self == Grammar::Nemo
    }

    /// By how many places the groups from the receive time on stand earlier
    /// than in the aircraft grammars: the relay grammar has no address group
    /// before them.
    pub open spec fn spec_shift(self) -> int {
        if self == Grammar::Nemo {
            1
        } else {
            0
        }
    }

    #[verifier::when_used_as_spec(spec_has_vertical_speed)]
    pub fn has_vertical_speed(self) -> (r: bool)
        ensures
            r == self.spec_has_vertical_speed(),
    {
        match self {
            Grammar::Full | Grammar::VerticalSpeed | Grammar::Sky | Grammar::Nemo => true,
            Grammar::DeviceId | Grammar::Minimal => false,
        }
    }

    #[verifier::when_used_as_spec(spec_has_turn_rate)]
    pub fn has_turn_rate(self) -> (r: bool)
        ensures
            r == self.spec_has_turn_rate(),
    {
        match self {
            Grammar::Full | Grammar::Nemo => true,
            _ => false,
        }
    }

    pub fn shift(self) -> (r: usize)
        ensures
            r == self.spec_shift(),
    {
        match self {
            Grammar::Nemo => 1,
            _ => 0,
        }
    }
}

/// One of the four beacon classes that the decoder takes at the start of a line.
pub open spec fn supported_prefix(prefix: Seq<char>) -> bool {
    prefix == "OGN"@ || prefix == "FLR"@ || prefix == "ICA"@ || prefix == "SKY"@
}

/// The aircraft grammar for a line: the line is probed for `rot`, then
/// `fpm`, then `id`, and the first that is found selects the richest grammar
/// that has that field; a line with none of them gets the minimal grammar.
pub open spec fn aircraft_grammar_spec(line: Seq<char>) -> Grammar {
    if contains_text(line, "rot"@) {
        Grammar::Full
    } else if contains_text(line, "fpm"@) {
        Grammar::VerticalSpeed
    } else if contains_text(line, "id"@) {
        Grammar::DeviceId
    } else {
        Grammar::Minimal
    }
}

/// Selects the aircraft grammar for a line.
pub fn aircraft_grammar(line: &[char]) -> (r: Grammar)
    ensures
        r == aircraft_grammar_spec(line@),
{
    if contains(line, "rot") {
        Grammar::Full
    } else if contains(line, "fpm") {
        Grammar::VerticalSpeed
    } else if contains(line, "id") {
        Grammar::DeviceId
    } else {
        Grammar::Minimal
    }
}

/// The grammar that applies to a line.
///
/// A line of fewer than three characters has none. A line that begins with
/// no supported beacon class is a relayed beacon where `OGNEMO` stands in it,
/// and has no grammar otherwise. A `SKY` line has its own grammar, and a
/// line of any other supported class has its aircraft grammar.
pub open spec fn select_grammar_spec(line: Seq<char>) -> Result<Grammar, DropReason> {
    if line.len() < 3 {
        Err(DropReason::TooShort)
    } else if !supported_prefix(line.take(3)) {
        if contains_text(line, "OGNEMO"@) {
            Ok(Grammar::Nemo)
        } else {
            Err(DropReason::UnsupportedPrefix)
        }
    } else if line.take(3) == "SKY"@ {
        Ok(Grammar::Sky)
    } else {
        Ok(aircraft_grammar_spec(line))
    }
}

/// Selects the grammar for a line.
pub fn select_grammar(line: &[char]) -> (r: Result<Grammar, DropReason>)
    ensures
        r == select_grammar_spec(line@),
{
    if line.len() < 3 {
        return Err(DropReason::TooShort);
    }
    proof {
        reveal_strlit("OGN");
        reveal_strlit("FLR");
        reveal_strlit("ICA");
        reveal_strlit("SKY");
        assert(line@.take(3) == line@.subrange(0, 3));
    }
    let sky: bool = starts_with(line, "SKY");
    if !(sky || starts_with(line, "OGN") || starts_with(line, "FLR") || starts_with(line, "ICA")) {
        if contains(line, "OGNEMO") {
            return Ok(Grammar::Nemo);
        } else {
            return Err(DropReason::UnsupportedPrefix);
        }
    }
    if sky {
        Ok(Grammar::Sky)
    } else {
        Ok(aircraft_grammar(line))
    }
}

/// A line in which `rot` stands gets the full aircraft grammar whatever else
/// stands in it, provided it begins with an aircraft beacon class; and a
/// line without `rot`, `fpm` and `id` still gets a grammar, the minimal one.
pub proof fn richest_grammar_wins(line: Seq<char>)
    requires
        line.len() >= 3,
        supported_prefix(line.take(3)),
        line.take(3) != "SKY"@,
    ensures
        contains_text(line, "rot"@) ==> select_grammar_spec(line) == Ok::<Grammar, DropReason>(
            Grammar::Full,
        ),
        !contains_text(line, "rot"@) && !contains_text(line, "fpm"@) && !contains_text(
            line,
            "id"@,
        ) ==> select_grammar_spec(line) == Ok::<Grammar, DropReason>(Grammar::Minimal),
{
}

/// A whole number from the feed as an unsigned one; a negative number counts as 0.
pub open spec fn non_negative(v: i64) -> u64 {
    if v >= 0 {
        v as u64
    } else {
        0
    }
}

/// The flags that the groups of a match give; a flags group that is no
/// hexadecimal byte counts as 0.
pub open spec fn flags_of(grammar: Grammar, groups: Seq<Option<Seq<char>>>) -> Flags {
    decode_flags_spec(
        match hex_byte_spec(group_text(groups, 12 - grammar.spec_shift(), "0"@)) {
            Some(b) => b,
            None => 0u8,
        },
    )
}

/// The address type of a beacon: fixed for a SafeSky beacon, taken from the
/// flags for a relayed one, and for an aircraft beacon taken from the flags
/// or, where they say `Unknown`, from the beacon class.
pub open spec fn address_type_of(grammar: Grammar, groups: Seq<Option<Seq<char>>>) -> AddressType {
    let from_flags = flags_of(grammar, groups).address_type;
    match grammar {
        Grammar::Sky => AddressType::SafeSky,
        Grammar::Nemo => from_flags,
        _ => if from_flags == AddressType::Unknown {
            address_type_of_prefix(group_text(groups, 1, ""@))
        } else {
            from_flags
        },
    }
}

/// The beacon that the groups of a match give under a grammar, for the line
/// they were taken from and the current time `now`.
///
/// Only a receive time that gives no timestamp drops the beacon. Every other
/// field that cannot be read takes its default: 0, or the text that the
/// grammar would have had there. Altitude and speed are rounded to whole
/// metres and km/h; the climb rate, the turn rate and the signal strength
/// are held as written, not rounded.
pub open spec fn beacon_spec(
    grammar: Grammar,
    groups: Seq<Option<Seq<char>>>,
    line: Seq<char>,
    now: int,
) -> Result<BeaconData, DropReason> {
    let k = grammar.spec_shift();
    let zero = Decimal { negative: false, mantissa: 0, scale: 0 };
    let flags = flags_of(grammar, groups);
    let address_type = address_type_of(grammar, groups);
    match rx_time_spec(group_text(groups, 3 - k, "000000"@), now) {
        Err(e) => Err(DropReason::ReceiveTime(e)),
        Ok(ts) => Ok(
            BeaconData {
                ts,
                prefix: if grammar == Grammar::Nemo {
                    prefix_of_address_type(address_type)
                } else {
                    group_text(groups, 1, ""@)
                },
                addr: match grammar {
                    Grammar::Sky => group_text(groups, 13, "0"@),
                    Grammar::Nemo => group_text(groups, 12, "0"@),
                    _ => group_text(groups, 2, ""@),
                },
                addr_type: address_type,
                lat: signed_coordinate_spec(
                    group_text(groups, 4 - k, "0"@),
                    group_text(groups, 5 - k, "N"@),
                    "N"@,
                ),
                lon: signed_coordinate_spec(
                    group_text(groups, 6 - k, "0"@),
                    group_text(groups, 7 - k, "E"@),
                    "E"@,
                ),
                altitude: clamp(
                    group_decimal(groups, 11 - k, zero).scaled(3048, 10_000),
                    i32::MIN as int,
                    i32::MAX as int,
                ) as i32,
                agl: 0,
                course: non_negative(group_int(groups, 9 - k, 0)),
                speed: clamp(
                    knots_to_kmh_spec(non_negative(group_int(groups, 10 - k, 0)) as int),
                    0,
                    u32::MAX as int,
                ) as u32,
                climb_rate: if grammar.spec_has_vertical_speed() {
                    match climb_rate_spec(group_decimal(groups, 14 - k, zero)) {
                        Some(v) => v,
                        None => zero,
                    }
                } else {
                    zero
                },
                turn_rate: if grammar.spec_has_turn_rate() {
                    group_decimal(groups, 15 - k, zero)
                } else {
                    zero
                },
                stealth: flags.stealth,
                do_not_track: flags.do_not_track,
                aircraft_type: flags.aircraft_type,
                registration: if grammar == Grammar::Nemo {
                    group_text(groups, 1, ""@)
                } else {
                    Seq::<char>::empty()
                },
                signal_strength: signal_strength_spec(line),
            },
        ),
    }
}

/// A decoding result with the beacon as the data it holds.
pub open spec fn outcome_view(r: Result<AircraftBeacon, DropReason>) -> Result<
    BeaconData,
    DropReason,
> {
    match r {
        Ok(b) => Ok(b@),
        Err(e) => Err(e),
    }
}

/// An optional beacon as the data it holds.
pub open spec fn beacon_view(r: Option<AircraftBeacon>) -> Option<BeaconData> {
    match r {
        Some(b) => Some(b@),
        None => None,
    }
}

fn unsigned(v: i64) -> (r: u64)
    ensures
        r == non_negative(v),
{
    if v >= 0 {
        v as u64
    } else {
        0
    }
}

/// Builds the beacon from the capture groups of a match.
pub fn beacon_from_captures(grammar: Grammar, caps: &Groups, line: &str, now: i64) -> (r: Result<
    AircraftBeacon,
    DropReason,
>)
    ensures
        outcome_view(r) == beacon_spec(grammar, group_texts(caps@), line@, now as int),
        r matches Ok(b) ==> b.rates_wf() && b.signal_strength.wf(),
{
    let k: usize = grammar.shift();
    let zero = Decimal { negative: false, mantissa: 0, scale: 0 };
    let ts: i64 = match rx_time_to_utc_ts(from_caps(caps, 3 - k, "000000"), now) {
        Ok(ts) => ts,
        Err(e) => {
            return Err(DropReason::ReceiveTime(e));
        },
    };
    let lat: i64 = signed_coordinate(from_caps(caps, 4 - k, "0"), from_caps(caps, 5 - k, "N"), "N");
    let lon: i64 = signed_coordinate(from_caps(caps, 6 - k, "0"), from_caps(caps, 7 - k, "E"), "E");
    let course: u64 = unsigned(from_caps_int(caps, 9 - k, 0));
    let speed: u32 = knots_to_kmh(unsigned(from_caps_int(caps, 10 - k, 0)));
    let altitude: i32 = feet_to_meters(from_caps_float(caps, 11 - k, zero));
    let flags_byte: u8 = match parse_hex_byte(from_caps(caps, 12 - k, "0")) {
        Some(b) => b,
        None => 0,
    };
    let flags = decode_flags(flags_byte);
    let climb_rate: Decimal = if grammar.has_vertical_speed() {
        match fpm_to_m_per_s(from_caps_float(caps, 14 - k, zero)) {
            Some(v) => v,
            None => zero,
        }
    } else {
        zero
    };
    let turn_rate: Decimal = if grammar.has_turn_rate() {
        from_caps_float(caps, 15 - k, zero)
    } else {
        zero
    };
    let first: &str = from_caps(caps, 1, "");
    let address_type: AddressType = match grammar {
        Grammar::Sky => AddressType::SafeSky,
        Grammar::Nemo => flags.address_type,
        _ => if flags.address_type == AddressType::Unknown {
            prefix_address_type(first)
        } else {
            flags.address_type
        },
    };
    let prefix: String = match grammar {
        Grammar::Nemo => relay_prefix(address_type),
        _ => first.to_owned(),
    };
    let addr: String = match grammar {
        Grammar::Sky => from_caps(caps, 13, "0").to_owned(),
        Grammar::Nemo => from_caps(caps, 12, "0").to_owned(),
        _ => from_caps(caps, 2, "").to_owned(),
    };
    let registration: String = match grammar {
        Grammar::Nemo => first.to_owned(),
        _ => String::new(),
    };
    Ok(
        AircraftBeacon::new(
            ts,
            prefix,
            addr,
            address_type,
            lat,
            lon,
            altitude,
            0,
            course,
            speed,
            climb_rate,
            turn_rate,
            flags.stealth,
            flags.do_not_track,
            flags.aircraft_type,
            registration,
            parse_signal_strength(line),
        ),
    )
}

/// What a line gives under one grammar: no match, or the beacon built from
/// the capture groups of the match.
pub open spec fn match_spec(grammar: Grammar, line: Seq<char>, now: int) -> Result<
    BeaconData,
    DropReason,
> {
    match regex_captures(grammar.pattern(), line) {
        None => Err(DropReason::NoMatch),
        Some(groups) => beacon_spec(grammar, groups, line, now),
    }
}

/// What a line decodes to when the current time is `now`.
pub open spec fn decode_spec(line: Seq<char>, now: int) -> Result<BeaconData, DropReason> {
    match select_grammar_spec(line) {
        Err(reason) => Err(reason),
        Ok(grammar) => match_spec(grammar, line, now),
    }
}

/// The beacon that a line decodes to when the current time is `now`, if any.
pub open spec fn decoded_at(line: Seq<char>, now: int) -> Option<BeaconData> {
    match decode_spec(line, now) {
        Ok(b) => Some(b),
        Err(_) => None,
    }
}

/// A line of fewer than three characters gives no beacon, and neither does
/// a line that begins with no supported beacon class and holds no `OGNEMO`,
/// whatever the time.
pub proof fn unsupported_lines_give_no_beacon(line: Seq<char>, now: int)
    ensures
        line.len() < 3 ==> decode_spec(line, now) == Err::<BeaconData, DropReason>(
            DropReason::TooShort,
        ),
        line.len() >= 3 && !supported_prefix(line.take(3)) && !contains_text(line, "OGNEMO"@)
            ==> decode_spec(line, now) == Err::<BeaconData, DropReason>(
            DropReason::UnsupportedPrefix,
        ),
        line.len() < 3 || (!supported_prefix(line.take(3)) && !contains_text(line, "OGNEMO"@))
            ==> decoded_at(line, now) is None,
{
}

/// A beacon is dropped for its receive time only; and the beacon that a
/// match gives has the class, the flags and the units that the grammar says.
pub proof fn only_the_receive_time_drops_a_match(
    grammar: Grammar,
    groups: Seq<Option<Seq<char>>>,
    line: Seq<char>,
    now: int,
)
    ensures
        beacon_spec(grammar, groups, line, now) is Err <==> rx_time_spec(
            group_text(groups, 3 - grammar.spec_shift(), "000000"@),
            now,
        ) is Err,
        beacon_spec(grammar, groups, line, now) matches Ok(b) ==> {
            &&& b.agl == 0
            &&& grammar == Grammar::Sky ==> b.addr_type == AddressType::SafeSky
            &&& !grammar.spec_has_vertical_speed() ==> b.climb_rate.mantissa == 0
            &&& !grammar.spec_has_turn_rate() ==> b.turn_rate.mantissa == 0
            &&& grammar != Grammar::Nemo ==> b.registration.len() == 0
        },
{
}

/// The grammar whose regular expression could not be set up.
#[derive(Clone, Copy, Debug, PartialEq, Eq, Structural)]
pub struct PatternError {
    pub grammar: Grammar,
}

/// The first grammar, in the order `Full`, `VerticalSpeed`, `DeviceId`,
/// `Minimal`, `Sky`, `Nemo`, whose pattern does not compile; `None` where
/// all six compile.
pub open spec fn first_refused() -> Option<Grammar> {
    if !regex_compiles(Grammar::Full.pattern()) {
        Some(Grammar::Full)
    } else if !regex_compiles(Grammar::VerticalSpeed.pattern()) {
        Some(Grammar::VerticalSpeed)
    } else if !regex_compiles(Grammar::DeviceId.pattern()) {
        Some(Grammar::DeviceId)
    } else if !regex_compiles(Grammar::Minimal.pattern()) {
        Some(Grammar::Minimal)
    } else if !regex_compiles(Grammar::Sky.pattern()) {
        Some(Grammar::Sky)
    } else if !regex_compiles(Grammar::Nemo.pattern()) {
        Some(Grammar::Nemo)
    } else {
        None
    }
}

/// What an attempt to compile the pattern of `grammar` comes to: the
/// expression, or the error that names the grammar.
pub fn expression_of(compiled: Result<Regex, regex::Error>, grammar: Grammar) -> (r: Result<
    Regex,
    PatternError,
>)
    ensures
        match r {
            Ok(re) => compiled == Ok::<Regex, regex::Error>(re),
            Err(e) => compiled is Err && e.grammar == grammar,
        },
{
    match compiled {
        Ok(re) => Ok(re),
        Err(_) => Err(PatternError { grammar }),
    }
}

/// The six line grammars, compiled.
pub struct Grammars {
    aircraft_re1: Regex,
    aircraft_re2: Regex,
    aircraft_re3: Regex,
    aircraft_re4: Regex,
    sky_re: Regex,
    nemo_re: Regex,
}

impl Grammars {
    /// Each expression is the one compiled from the pattern of its grammar.
    #[verifier::type_invariant]
    pub closed spec fn holds_the_grammars(self) -> bool {
        &&& regex_pattern(&self.aircraft_re1) == Grammar::Full.pattern()
        &&& regex_pattern(&self.aircraft_re2) == Grammar::VerticalSpeed.pattern()
        &&& regex_pattern(&self.aircraft_re3) == Grammar::DeviceId.pattern()
        &&& regex_pattern(&self.aircraft_re4) == Grammar::Minimal.pattern()
        &&& regex_pattern(&self.sky_re) == Grammar::Sky.pattern()
        &&& regex_pattern(&self.nemo_re) == Grammar::Nemo.pattern()
    }

    /// Compiles the six grammars, in the order `Full`, `VerticalSpeed`,
    /// `DeviceId`, `Minimal`, `Sky`, `Nemo`. Whether a pattern compiles is
    /// the compiler's to say: the result holds the six expressions where it
    /// took all six patterns, and else the error names the first grammar
    /// whose pattern it refused.
    pub fn new() -> (r: Result<Self, PatternError>)
        ensures
            match r {
                Ok(grammars) => first_refused() is None && grammars.holds_the_grammars(),
                Err(e) => first_refused() == Some(e.grammar),
            },
    {
        let aircraft_re1 = match expression_of(Regex::new(AIRCRAFT_REGEX1), Grammar::Full) {
            Ok(re) => re,
            Err(e) => {
                return Err(e);
            },
        };
        let aircraft_re2 = match expression_of(
            Regex::new(AIRCRAFT_REGEX2),
            Grammar::VerticalSpeed,
        ) {
            Ok(re) => re,
            Err(e) => {
                return Err(e);
            },
        };
        let aircraft_re3 = match expression_of(Regex::new(AIRCRAFT_REGEX3), Grammar::DeviceId) {
            Ok(re) => re,
            Err(e) => {
                return Err(e);
            },
        };
        let aircraft_re4 = match expression_of(Regex::new(AIRCRAFT_REGEX4), Grammar::Minimal) {
            Ok(re) => re,
            Err(e) => {
                return Err(e);
            },
        };
        let sky_re = match expression_of(Regex::new(SKY_REGEX), Grammar::Sky) {
            Ok(re) => re,
            Err(e) => {
                return Err(e);
            },
        };
        let nemo_re = match expression_of(Regex::new(NEMO_REGEX), Grammar::Nemo) {
            Ok(re) => re,
            Err(e) => {
                return Err(e);
            },
        };
        Ok(Grammars { aircraft_re1, aircraft_re2, aircraft_re3, aircraft_re4, sky_re, nemo_re })
    }

    /// The compiled expression of a grammar.
    fn expression(&self, grammar: Grammar) -> (re: &Regex)
        ensures
            regex_pattern(re) == grammar.pattern(),
    {
        proof {
            use_type_invariant(self);
        }
        match grammar {
            Grammar::Full => &self.aircraft_re1,
            Grammar::VerticalSpeed => &self.aircraft_re2,
            Grammar::DeviceId => &self.aircraft_re3,
            Grammar::Minimal => &self.aircraft_re4,
            Grammar::Sky => &self.sky_re,
            Grammar::Nemo => &self.nemo_re,
        }
    }

    /// Matches a line against one grammar and builds the beacon from the match.
    pub fn parse_with(&self, grammar: Grammar, line: &str, now: i64) -> (r: Result<
        AircraftBeacon,
        DropReason,
    >)
        ensures
            outcome_view(r) == match_spec(grammar, line@, now as int),
    {
        match captures(self.expression(grammar), line) {
            Some(caps) => beacon_from_captures(grammar, &caps, line, now),
            None => Err(DropReason::NoMatch),
        }
    }

    /// Matches a line against the SafeSky grammar.
    pub fn parse_sky_beacon(&self, line: &str, now: i64) -> (r: Result<AircraftBeacon, DropReason>)
        ensures
            outcome_view(r) == match_spec(Grammar::Sky, line@, now as int),
    {
        self.parse_with(Grammar::Sky, line, now)
    }

    /// Matches a line against the grammar of relayed beacons.
    pub fn parse_nemo_beacon(&self, line: &str, now: i64) -> (r: Result<
        AircraftBeacon,
        DropReason,
    >)
        ensures
            outcome_view(r) == match_spec(Grammar::Nemo, line@, now as int),
    {
        self.parse_with(Grammar::Nemo, line, now)
    }

    /// Matches a line against the aircraft grammar that its fields select.
    pub fn parse_aircraft_beacon(&self, line: &str, now: i64) -> (r: Result<
        AircraftBeacon,
        DropReason,
    >)
        ensures
            outcome_view(r) == match_spec(aircraft_grammar_spec(line@), line@, now as int),
    {
        let chars = to_chars(line);
        self.parse_with(aircraft_grammar(chars.as_slice()), line, now)
    }

    /// Decodes a line when the current time is `now`.
    pub fn decode(&self, line: &str, now: i64) -> (r: Result<AircraftBeacon, DropReason>)
        ensures
            outcome_view(r) == decode_spec(line@, now as int),
    {
        let chars = to_chars(line);
        match select_grammar(chars.as_slice()) {
            Err(reason) => Err(reason),
            Ok(Grammar::Sky) => self.parse_sky_beacon(line, now),
            Ok(Grammar::Nemo) => self.parse_nemo_beacon(line, now),
            Ok(_) => self.parse_aircraft_beacon(line, now),
        }
    }
}

/// The reason for which a line gives no beacon when the current time is
/// `now`; `None` where it gives one.
pub open spec fn dropped_at(line: Seq<char>, now: int) -> Option<DropReason> {
    match decode_spec(line, now) {
        Ok(_) => None,
        Err(reason) => Some(reason),
    }
}

/// A function to call with each decoded beacon: one that takes every beacon.
pub struct Callback<F: Fn(AircraftBeacon)> {
    function: F,
}

impl<F: Fn(AircraftBeacon)> Callback<F> {
    /// The function may be called with any beacon.
    #[verifier::type_invariant]
    pub closed spec fn takes_every_beacon(self) -> bool {
        forall|b: AircraftBeacon| #[trigger] self.function.requires((b,))
    }

    /// The function that is called.
    pub closed spec fn function(self) -> F {
        self.function
    }

    /// Holds a function that may be called with any beacon.
    pub fn new(function: F) -> (r: Self)
        requires
            forall|b: AircraftBeacon| #[trigger] function.requires((b,)),
        ensures
            r.function() == function,
    {
        Callback { function }
    }

    /// Calls the function with one beacon.
    pub fn call(&self, beacon: AircraftBeacon)
        ensures
            self.function().ensures((beacon,), ()),
    {
        proof {
            use_type_invariant(self);
        }
        (self.function)(beacon)
    }
}

/// Decodes raw lines and hands each decoded beacon to the observer and to
/// the callback registered with it, in that order, as far as there are any.
///
/// The line listener reads no clock: it decodes at the time it was last
/// given, and it keeps the reason for which the last line gave no beacon.
pub struct MyLineListener<L: Observer<AircraftBeacon>, F: Fn(AircraftBeacon)> {
    beacon_listener: Option<L>,
    beacon_listener_fn: Option<Callback<F>>,
    grammars: Grammars,
    now: i64,
    last_drop: Option<DropReason>,
}

impl<L: Observer<AircraftBeacon>, F: Fn(AircraftBeacon)> MyLineListener<L, F> {
    /// The observer registered for decoded beacons.
    pub closed spec fn listener(self) -> Option<L> {
        self.beacon_listener
    }

    /// The callback registered for decoded beacons.
    pub closed spec fn callback(self) -> Option<F> {
        match self.beacon_listener_fn {
            Some(held) => Some(held.function()),
            None => None,
        }
    }

    /// The compiled grammars that the line listener decodes with.
    pub closed spec fn grammars(self) -> Grammars {
        self.grammars
    }

    /// The current time as the line listener was last given it, in seconds
    /// since the epoch.
    pub closed spec fn now(self) -> i64 {
        self.now
    }

    /// Why the last line gave no beacon; `None` where it gave one, or no
    /// line has come yet.
    pub closed spec fn last_drop(self) -> Option<DropReason> {
        self.last_drop
    }

    /// Whether `after` is what telling the registered listeners of `beacon`
    /// makes of the line listener: the observer, if there is one, has been
    /// told of the beacon once, and the callback, if there is one, has been
    /// called with it; with no beacon nothing has happened.
    pub open spec fn listeners_told(self, beacon: Option<AircraftBeacon>, after: Self) -> bool {
        &&& after.callback() == self.callback()
        &&& match (beacon, self.listener()) {
            (Some(b), Some(l)) => after.listener() matches Some(l2) && l.told(b, &l2),
            _ => after.listener() == self.listener(),
        }
        &&& match (beacon, self.callback()) {
            (Some(b), Some(f)) => f.ensures((b,), ()),
            _ => true,
        }
    }

    /// Whether `after` is what handing `beacon` over makes of the line
    /// listener: the registered listeners have been told, and nothing else
    /// has changed.
    pub open spec fn handed_over(self, beacon: Option<AircraftBeacon>, after: Self) -> bool {
        &&& after.grammars() == self.grammars()
        &&& after.now() == self.now()
        &&& after.last_drop() == self.last_drop()
        &&& self.listeners_told(beacon, after)
    }

    /// Whether `after` is what taking in `line` makes of the line listener,
    /// `beacon` being what the line decodes to at the listener's time: the
    /// reason for a drop is kept, the registered listeners have been told
    /// of a beacon, and the grammars and the time stay.
    pub open spec fn taken_in(
        self,
        line: Seq<char>,
        beacon: Option<AircraftBeacon>,
        after: Self,
    ) -> bool {
        &&& beacon_view(beacon) == decoded_at(line, self.now() as int)
        &&& after.grammars() == self.grammars()
        &&& after.now() == self.now()
        &&& after.last_drop() == dropped_at(line, self.now() as int)
        &&& self.listeners_told(beacon, after)
    }

    /// A line listener with no listeners, at the time 0, made by compiling
    /// the six grammars; the error names the first grammar that did not
    /// compile.
    pub fn new() -> (r: Result<Self, PatternError>)
        ensures
            match r {
                Ok(l) => first_refused() is None && l.listener() is None && l.callback() is None
                    && l.grammars().holds_the_grammars() && l.now() == 0 && l.last_drop() is None,
                Err(e) => first_refused() == Some(e.grammar),
            },
    {
        match Grammars::new() {
            Ok(grammars) => Ok(Self::with_grammars(grammars)),
            Err(e) => Err(e),
        }
    }

    /// A line listener with no listeners, at the time 0.
    pub fn with_grammars(grammars: Grammars) -> (r: Self)
        ensures
            r.listener() is None,
            r.callback() is None,
            r.grammars() == grammars,
            r.now() == 0,
            r.last_drop() is None,
    {
        MyLineListener {
            beacon_listener: None,
            beacon_listener_fn: None,
            grammars,
            now: 0,
            last_drop: None,
        }
    }

    /// Whether `after` is this line listener given the time `now`, with
    /// nothing else changed.
    pub open spec fn given_time(self, now: i64, after: Self) -> bool {
        &&& after.now() == now
        &&& after.listener() == self.listener()
        &&& after.callback() == self.callback()
        &&& after.grammars() == self.grammars()
        &&& after.last_drop() == self.last_drop()
    }

    /// Gives the line listener the current time, in seconds since the epoch.
    pub fn set_now(&mut self, now: i64)
        ensures
            old(self).given_time(now, *final(self)),
    {
        self.now = now;
    }

    /// The current time as the line listener was last given it.
    pub fn clock(&self) -> (r: i64)
        ensures
            r == self.now(),
    {
        self.now
    }

    /// Why the last line gave no beacon.
    pub fn last_drop_reason(&self) -> (r: Option<DropReason>)
        ensures
            r == self.last_drop(),
    {
        self.last_drop
    }

    /// Decodes a line when the current time is `now`.
    pub fn decode(&self, line: &str, now: i64) -> (r: Result<AircraftBeacon, DropReason>)
        ensures
            outcome_view(r) == decode_spec(line@, now as int),
    {
        self.grammars.decode(line, now)
    }

    /// Decodes a line at the time the line listener was last given.
    pub fn parse_beacon_line(&self, line: &str) -> (r: Option<AircraftBeacon>)
        ensures
            beacon_view(r) == decoded_at(line@, self.now() as int),
    {
        match self.decode(line, self.now) {
            Ok(beacon) => Some(beacon),
            Err(_) => None,
        }
    }

    /// Registers the observer for decoded beacons in place of the one before.
    pub fn set_beacon_listener(&mut self, listener: L)
        ensures
            final(self).listener() == Some(listener),
            final(self).callback() == old(self).callback(),
            final(self).grammars() == old(self).grammars(),
            final(self).now() == old(self).now(),
            final(self).last_drop() == old(self).last_drop(),
    {
        self.beacon_listener = Some(listener);
    }

    /// Registers the callback for decoded beacons in place of the one
    /// before. The callback must take every beacon.
    pub fn set_beacon_listener_fn(&mut self, callback: F)
        requires
            forall|b: AircraftBeacon| #[trigger] callback.requires((b,)),
        ensures
            final(self).callback() == Some(callback),
            final(self).listener() == old(self).listener(),
            final(self).grammars() == old(self).grammars(),
            final(self).now() == old(self).now(),
            final(self).last_drop() == old(self).last_drop(),
    {
        self.beacon_listener_fn = Some(Callback::new(callback));
    }

    /// Hands a decoded beacon to the registered observer, then to the
    /// registered callback; with no beacon nothing happens.
    pub fn dispatch(&mut self, beacon: Option<AircraftBeacon>)
        ensures
            old(self).handed_over(beacon, *final(self)),
    {
        match beacon {
            Some(beacon) => {
                match &mut self.beacon_listener {
                    Some(listener) => {
                        listener.notify(beacon.clone());
                    },
                    None => {},
                }
                match &self.beacon_listener_fn {
                    Some(held) => {
                        held.call(beacon);
                    },
                    None => {},
                }
            },
            None => {},
        }
    }
}

impl<L: Observer<AircraftBeacon>, F: Fn(AircraftBeacon)> Observer<String> for MyLineListener<
    L,
    F,
> {
    /// The line listener has decoded the line at its time, kept the reason
    /// if the line gave no beacon, and told its registered listeners once of
    /// the beacon if it gave one.
    open spec fn told(&self, line: String, after: &Self) -> bool {
        exists|beacon: Option<AircraftBeacon>| #[trigger] self.taken_in(line@, beacon, *after)
    }

    /// Decodes the line and, where it gives a beacon, hands the beacon to
    /// the registered listeners.
    fn notify(&mut self, line: String) {
        let ghost before = *self;
        match self.decode(line.as_str(), self.now) {
            Ok(beacon) => {
                self.last_drop = None;
                let ghost handed = Some(beacon);
                self.dispatch(Some(beacon));
                assert(before.taken_in(line@, handed, *self));
            },
            Err(reason) => {
                self.last_drop = Some(reason);
                assert(before.taken_in(line@, None, *self));
            },
        }
    }
}

} // verus!
