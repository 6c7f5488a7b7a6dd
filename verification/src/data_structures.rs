//! The beacon record, its two closed enumerations, and the listener traits.

use vstd::prelude::*;
use crate::decimal::{clamp, round_div, Decimal};
use crate::text::same_text;

verus! {

/// The address space a device identifier belongs to.
#[derive(Clone, Copy, Debug, PartialEq, Eq, Structural, Hash)]
pub enum AddressType {
    Unknown,
    Icao,
    Flarm,
    Ogn,
    SafeSky,
}

impl AddressType {
    /// The variant with the numeric code `value`; any code above 4 is `Unknown`.
    pub open spec fn from_code(value: int) -> AddressType {
        if value == 1 {
            AddressType::Icao
        } else if value == 2 {
            AddressType::Flarm
        } else if value == 3 {
            AddressType::Ogn
        } else if value == 4 {
            AddressType::SafeSky
        } else {
            AddressType::Unknown
        }
    }

    /// The numeric code of a variant.
    pub open spec fn code(self) -> int {
        match self {
            AddressType::Unknown => 0,
            AddressType::Icao => 1,
            AddressType::Flarm => 2,
            AddressType::Ogn => 3,
            AddressType::SafeSky => 4,
        }
    }

    /// The variant that a one-letter name stands for; any other text is `Unknown`.
    pub open spec fn from_short(value: Seq<char>) -> AddressType {
        if value == "I"@ {
            AddressType::Icao
        } else if value == "F"@ {
            AddressType::Flarm
        } else if value == "O"@ {
            AddressType::Ogn
        } else if value == "S"@ {
            AddressType::SafeSky
        } else {
            AddressType::Unknown
        }
    }

    /// The label of a variant: its three-letter name and its code.
    pub open spec fn label(self) -> Seq<char> {
        match self {
            AddressType::Unknown => "Unknown (0)"@,
            AddressType::Icao => "ICA (1)"@,
            AddressType::Flarm => "FLR (2)"@,
            AddressType::Ogn => "OGN (3)"@,
            AddressType::SafeSky => "SKY (4)"@,
        }
    }

    /// The three-letter name of a variant.
    pub open spec fn long_name(self) -> Seq<char> {
        match self {
            AddressType::Unknown => "UNK"@,
            AddressType::Icao => "ICA"@,
            AddressType::Flarm => "FLR"@,
            AddressType::Ogn => "OGN"@,
            AddressType::SafeSky => "SKY"@,
        }
    }

    /// The one-letter name of a variant.
    pub open spec fn short_name(self) -> Seq<char> {
        match self {
            AddressType::Unknown => "X"@,
            AddressType::Icao => "I"@,
            AddressType::Flarm => "F"@,
            AddressType::Ogn => "O"@,
            AddressType::SafeSky => "S"@,
        }
    }

    pub fn from(value: u8) -> (r: AddressType)
        ensures
            r == Self::from_code(value as int),
    {
        match value {
            1 => AddressType::Icao,
            2 => AddressType::Flarm,
            3 => AddressType::Ogn,
            4 => AddressType::SafeSky,
            _ => AddressType::Unknown,
        }
    }

    pub fn from_short_str(value: String) -> (r: AddressType)
        ensures
            r == Self::from_short(value@),
    {
        let text: &str = value.as_str();
        if same_text(text, "I") {
            AddressType::Icao
        } else if same_text(text, "F") {
            AddressType::Flarm
        } else if same_text(text, "O") {
            AddressType::Ogn
        } else if same_text(text, "S") {
            AddressType::SafeSky
        } else {
            AddressType::Unknown
        }
    }

    pub fn value(&self) -> (r: u8)
        ensures
            r == self.code(),
    {
        match *self {
            AddressType::Unknown => 0,
            AddressType::Icao => 1,
            AddressType::Flarm => 2,
            AddressType::Ogn => 3,
            AddressType::SafeSky => 4,
        }
    }

    pub fn to_string(&self) -> (r: String)
        ensures
            r@ == self.label(),
    {
        match *self {
            AddressType::Unknown => "Unknown (0)".to_owned(),
            AddressType::Icao => "ICA (1)".to_owned(),
            AddressType::Flarm => "FLR (2)".to_owned(),
            AddressType::Ogn => "OGN (3)".to_owned(),
            AddressType::SafeSky => "SKY (4)".to_owned(),
        }
    }

    pub fn as_long_str(&self) -> (r: String)
        ensures
            r@ == self.long_name(),
    {
        match *self {
            AddressType::Unknown => "UNK".to_owned(),
            AddressType::Icao => "ICA".to_owned(),
            AddressType::Flarm => "FLR".to_owned(),
            AddressType::Ogn => "OGN".to_owned(),
            AddressType::SafeSky => "SKY".to_owned(),
        }
    }

    pub fn as_short_str(&self) -> (r: String)
        ensures
            r@ == self.short_name(),
    {
        match *self {
            AddressType::Unknown => "X".to_owned(),
            AddressType::Icao => "I".to_owned(),
            AddressType::Flarm => "F".to_owned(),
            AddressType::Ogn => "O".to_owned(),
            AddressType::SafeSky => "S".to_owned(),
        }
    }
}

/// A code survives the trip through its variant exactly when it names one.
pub proof fn address_code_round_trip(t: AddressType, value: int)
    ensures
        AddressType::from_code(t.code()) == t,
        0 <= value <= 4 ==> AddressType::from_code(value).code() == value,
        !(0 <= value <= 4) ==> AddressType::from_code(value) == AddressType::Unknown,
{
}

/// The kind of aircraft or object a beacon reports.
#[derive(Clone, Copy, Debug, PartialEq, Eq, Structural, Hash)]
pub enum AircraftType {
    Undefined,
    Glider,
    TowPlane,
    Helicopter,
    Parachute,
    DropPlane,
    HangGlider,
    Paraglider,
    PistonPlane,
    JetPlane,
    Unknown,
    Baloon,
    Airship,
    Uav,
    Reserved,
    Obstacle,
}

impl AircraftType {
    /// The variant with the numeric code `value`; any code above 15 is `Unknown`.
    pub open spec fn from_code(value: int) -> AircraftType {
        if value == 0 {
            AircraftType::Undefined
        } else if value == 1 {
            AircraftType::Glider
        } else if value == 2 {
            AircraftType::TowPlane
        } else if value == 3 {
            AircraftType::Helicopter
        } else if value == 4 {
            AircraftType::Parachute
        } else if value == 5 {
            AircraftType::DropPlane
        } else if value == 6 {
            AircraftType::HangGlider
        } else if value == 7 {
            AircraftType::Paraglider
        } else if value == 8 {
            AircraftType::PistonPlane
        } else if value == 9 {
            AircraftType::JetPlane
        } else if value == 11 {
            AircraftType::Baloon
        } else if value == 12 {
            AircraftType::Airship
        } else if value == 13 {
            AircraftType::Uav
        } else if value == 14 {
            AircraftType::Reserved
        } else if value == 15 {
            AircraftType::Obstacle
        } else {
            AircraftType::Unknown
        }
    }

    /// The numeric code of a variant.
    pub open spec fn code(self) -> int {
        match self {
            AircraftType::Undefined => 0,
            AircraftType::Glider => 1,
            AircraftType::TowPlane => 2,
            AircraftType::Helicopter => 3,
            AircraftType::Parachute => 4,
            AircraftType::DropPlane => 5,
            AircraftType::HangGlider => 6,
            AircraftType::Paraglider => 7,
            AircraftType::PistonPlane => 8,
            AircraftType::JetPlane => 9,
            AircraftType::Unknown => 10,
            AircraftType::Baloon => 11,
            AircraftType::Airship => 12,
            AircraftType::Uav => 13,
            AircraftType::Reserved => 14,
            AircraftType::Obstacle => 15,
        }
    }

    pub fn from(value: u8) -> (r: AircraftType)
        ensures
            r == Self::from_code(value as int),
    {
        match value {
            0 => AircraftType::Undefined,
            1 => AircraftType::Glider,
            2 => AircraftType::TowPlane,
            3 => AircraftType::Helicopter,
            4 => AircraftType::Parachute,
            5 => AircraftType::DropPlane,
            6 => AircraftType::HangGlider,
            7 => AircraftType::Paraglider,
            8 => AircraftType::PistonPlane,
            9 => AircraftType::JetPlane,
            10 => AircraftType::Unknown,
            11 => AircraftType::Baloon,
            12 => AircraftType::Airship,
            13 => AircraftType::Uav,
            14 => AircraftType::Reserved,
            15 => AircraftType::Obstacle,
            _ => AircraftType::Unknown,
        }
    }

    pub fn value(&self) -> (r: u8)
        ensures
            r == self.code(),
    {
        match *self {
            AircraftType::Undefined => 0,
            AircraftType::Glider => 1,
            AircraftType::TowPlane => 2,
            AircraftType::Helicopter => 3,
            AircraftType::Parachute => 4,
            AircraftType::DropPlane => 5,
            AircraftType::HangGlider => 6,
            AircraftType::Paraglider => 7,
            AircraftType::PistonPlane => 8,
            AircraftType::JetPlane => 9,
            AircraftType::Unknown => 10,
            AircraftType::Baloon => 11,
            AircraftType::Airship => 12,
            AircraftType::Uav => 13,
            AircraftType::Reserved => 14,
            AircraftType::Obstacle => 15,
        }
    }
}

/// Every variant is the one that its own code names, and every code up to 15
/// is the code of the variant it names.
pub proof fn aircraft_code_round_trip(t: AircraftType, value: int)
    ensures
        AircraftType::from_code(t.code()) == t,
        0 <= value <= 15 ==> AircraftType::from_code(value).code() == value,
        !(0 <= value <= 15) ==> AircraftType::from_code(value) == AircraftType::Unknown,
{
}

/// One decoded position report.
///
/// Quantities that are not whole numbers are held as fixed-point integers;
/// each field names its unit.
#[derive(Debug)]
pub struct AircraftBeacon {
    /// Seconds since the epoch, UTC.
    pub ts: i64,
    /// The beacon class: `OGN`, `FLR`, `ICA`, `SKY`, or `NEMO`.
    pub prefix: String,
    /// The device identifier.
    pub addr: String,
    pub addr_type: AddressType,
    /// Latitude in units of 1e-7 degree, north positive.
    pub lat: i64,
    /// Longitude in units of 1e-7 degree, east positive.
    pub lon: i64,
    /// Altitude in metres.
    pub altitude: i32,
    /// Height above ground in metres; 0 until a terrain lookup sets it.
    pub agl: i32,
    /// Course over ground in degrees.
    pub course: u64,
    /// Ground speed in km/h.
    pub speed: u32,
    /// Climb rate in metres per second: the vertical speed of the feed times
    /// 0.00508, not rounded.
    pub climb_rate: Decimal,
    /// Turn rate as the feed writes it.
    pub turn_rate: Decimal,
    pub stealth: bool,
    pub do_not_track: bool,
    pub aircraft_type: AircraftType,
    /// The registration that a relayed beacon carries; empty otherwise.
    pub registration: String,
    /// Signal strength in dB as the line writes it; -1 where the line gives none.
    pub signal_strength: Decimal,
}

/// What an `AircraftBeacon` holds, with its texts as character sequences.
pub struct BeaconData {
    pub ts: i64,
    pub prefix: Seq<char>,
    pub addr: Seq<char>,
    pub addr_type: AddressType,
    pub lat: i64,
    pub lon: i64,
    pub altitude: i32,
    pub agl: i32,
    pub course: u64,
    pub speed: u32,
    pub climb_rate: Decimal,
    pub turn_rate: Decimal,
    pub stealth: bool,
    pub do_not_track: bool,
    pub aircraft_type: AircraftType,
    pub registration: Seq<char>,
    pub signal_strength: Decimal,
}

impl View for AircraftBeacon {
    type V = BeaconData;

    open spec fn view(&self) -> BeaconData {
        BeaconData {
            ts: self.ts,
            prefix: self.prefix@,
            addr: self.addr@,
            addr_type: self.addr_type,
            lat: self.lat,
            lon: self.lon,
            altitude: self.altitude,
            agl: self.agl,
            course: self.course,
            speed: self.speed,
            climb_rate: self.climb_rate,
            turn_rate: self.turn_rate,
            stealth: self.stealth,
            do_not_track: self.do_not_track,
            aircraft_type: self.aircraft_type,
            registration: self.registration@,
            signal_strength: self.signal_strength,
        }
    }
}

impl Clone for AircraftBeacon {
    fn clone(&self) -> (r: Self)
        ensures
            r == *self,
    {
        AircraftBeacon {
            ts: self.ts,
            prefix: self.prefix.clone(),
            addr: self.addr.clone(),
            addr_type: self.addr_type,
            lat: self.lat,
            lon: self.lon,
            altitude: self.altitude,
            agl: self.agl,
            course: self.course,
            speed: self.speed,
            climb_rate: self.climb_rate,
            turn_rate: self.turn_rate,
            stealth: self.stealth,
            do_not_track: self.do_not_track,
            aircraft_type: self.aircraft_type,
            registration: self.registration.clone(),
            signal_strength: self.signal_strength,
        }
    }
}

impl AircraftBeacon {
    pub fn new(
        ts: i64,
        prefix: String,
        addr: String,
        addr_type: AddressType,
        lat: i64,
        lon: i64,
        altitude: i32,
        agl: i32,
        course: u64,
        speed: u32,
        climb_rate: Decimal,
        turn_rate: Decimal,
        stealth: bool,
        do_not_track: bool,
        aircraft_type: AircraftType,
        registration: String,
        signal_strength: Decimal,
    ) -> (r: Self)
        ensures
            r == (AircraftBeacon {
                ts,
                prefix,
                addr,
                addr_type,
                lat,
                lon,
                altitude,
                agl,
                course,
                speed,
                climb_rate,
                turn_rate,
                stealth,
                do_not_track,
                aircraft_type,
                registration,
                signal_strength,
            }),
    {
        Self {
            ts,
            prefix,
            addr,
            addr_type,
            lat,
            lon,
            altitude,
            agl,
            course,
            speed,
            climb_rate,
            turn_rate,
            stealth,
            do_not_track,
            aircraft_type,
            registration,
            signal_strength,
        }
    }

    /// Sets the height above ground and leaves every other field as it was.
    pub fn set_agl(&mut self, agl: i32)
        ensures
            *final(self) == (AircraftBeacon { agl, ..*old(self) }),
    {
        self.agl = agl;
    }
}

/// The values of the serialised form of a beacon, under the names of its
/// keys. Angles, climb rate and turn rate are rounded, halves away from
/// zero, to the decimals that the serialised form shows.
#[derive(Debug)]
pub struct JsonRecord {
    pub ts: i64,
    pub prefix: String,
    pub addr: String,
    /// The code of the address type.
    pub addr_type: u8,
    /// Latitude in units of 1e-5 degree.
    pub lat: i64,
    /// Longitude in units of 1e-5 degree.
    pub lon: i64,
    pub alt: i32,
    pub agl: i32,
    pub course: u64,
    pub speed: u32,
    /// Climb rate in tenths of a metre per second.
    pub vert_speed: i64,
    /// Turn rate in tenths.
    pub turn_rate: i64,
    pub stealth: bool,
    pub dnt: bool,
    /// The code of the aircraft type.
    pub acft_type: u8,
}

/// A hundredth of `v`, rounded to the nearest integer, halves away from zero.
pub fn hundredth(v: i64) -> (r: i64)
    ensures
        r == round_div(v as int, 100),
{
    let wide: i128 = v as i128;
    if wide >= 0 {
        ((2 * wide + 100) / 200) as i64
    } else {
        (-((100 - 2 * wide) / 200)) as i64
    }
}

impl AircraftBeacon {
    /// The climb rate and the turn rate are within the limits of `Decimal`,
    /// as they are in every decoded beacon.
    pub open spec fn rates_wf(self) -> bool {
        self.climb_rate.wf() && self.turn_rate.wf()
    }

    /// The values that the serialised form of the beacon holds: the place
    /// where the climb rate and the turn rate are rounded, once, to tenths.
    /// `None` where one of the two is outside the limits of `Decimal`.
    pub fn to_json_record(&self) -> (r: Option<JsonRecord>)
        ensures
            r is Some <==> self.rates_wf(),
            r matches Some(j) ==> {
                &&& j.ts == self.ts
                &&& j.prefix@ == self.prefix@
                &&& j.addr@ == self.addr@
                &&& j.addr_type == self.addr_type.code()
                &&& j.lat == round_div(self.lat as int, 100)
                &&& j.lon == round_div(self.lon as int, 100)
                &&& j.alt == self.altitude
                &&& j.agl == self.agl
                &&& j.course == self.course
                &&& j.speed == self.speed
                &&& j.vert_speed == clamp(
                    self.climb_rate.scaled(10, 1),
                    i64::MIN as int,
                    i64::MAX as int,
                )
                &&& j.turn_rate == clamp(
                    self.turn_rate.scaled(10, 1),
                    i64::MIN as int,
                    i64::MAX as int,
                )
                &&& j.stealth == self.stealth
                &&& j.dnt == self.do_not_track
                &&& j.acft_type == self.aircraft_type.code()
            },
    {
        if !(self.climb_rate.is_wf() && self.turn_rate.is_wf()) {
            return None;
        }
        Some(
            JsonRecord {
                ts: self.ts,
                prefix: self.prefix.clone(),
                addr: self.addr.clone(),
                addr_type: self.addr_type.value(),
                lat: hundredth(self.lat),
                lon: hundredth(self.lon),
                alt: self.altitude,
                agl: self.agl,
                course: self.course,
                speed: self.speed,
                vert_speed: self.climb_rate.scale_round(10, 1),
                turn_rate: self.turn_rate.scale_round(10, 1),
                stealth: self.stealth,
                dnt: self.do_not_track,
                acft_type: self.aircraft_type.value(),
            },
        )
    }
}

/// Receives events of type `E`, one call per event.
pub trait Observer<E: Clone> {
    /// Whether `after` is what being told once of `event` makes of this
    /// observer. Each observer may say for itself what an event makes of
    /// it; of one that does not say, nothing is known. Those who notify an
    /// observer say by this which event they handed over, and that they did
    /// so once.
    open spec fn told(&self, event: E, after: &Self) -> bool {
        true
    }

    /// Tells the observer of one event.
    fn notify(&mut self, event: E)
        ensures
            old(self).told(event, final(self)),
    ;
}

/// Receives raw lines.
pub trait LineListener {
    fn notify(&mut self, line: &str);
}

/// Receives decoded beacons.
pub trait AircraftBeaconListener {
    fn notify(&mut self, beacon: &AircraftBeacon);
}

} // verus!
