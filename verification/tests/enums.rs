use ogn_client::data_structures::{AddressType, AircraftBeacon, AircraftType};
use ogn_client::decimal::Decimal;

fn dec(negative: bool, mantissa: u64, scale: u8) -> Decimal {
    Decimal { negative, mantissa, scale }
}

fn beacon() -> AircraftBeacon {
    AircraftBeacon::new(
        1_609_495_872,
        "OGN".to_string(),
        "DDE250".to_string(),
        AddressType::Ogn,
        492_250_049,
        -165_745_050,
        1000,
        0,
        90,
        83,
        dec(false, 504_952, 5),
        dec(true, 349, 3),
        false,
        true,
        AircraftType::Helicopter,
        String::new(),
        dec(false, 98, 1),
    )
}

#[test]
fn address_type_codes() {
    let all = [
        (0u8, AddressType::Unknown, "Unknown (0)", "UNK", "X"),
        (1, AddressType::Icao, "ICA (1)", "ICA", "I"),
        (2, AddressType::Flarm, "FLR (2)", "FLR", "F"),
        (3, AddressType::Ogn, "OGN (3)", "OGN", "O"),
        (4, AddressType::SafeSky, "SKY (4)", "SKY", "S"),
    ];
    for (code, t, label, long, short) in all {
        assert_eq!(AddressType::from(code), t);
        assert_eq!(t.value(), code);
        assert_eq!(t.to_string(), label);
        assert_eq!(t.as_long_str(), long);
        assert_eq!(t.as_short_str(), short);
        if code != 0 {
            assert_eq!(AddressType::from_short_str(short.to_string()), t);
        }
    }
    assert_eq!(AddressType::from(5), AddressType::Unknown);
    assert_eq!(AddressType::from(255), AddressType::Unknown);
    assert_eq!(AddressType::from_short_str("X".to_string()), AddressType::Unknown);
    assert_eq!(AddressType::from_short_str("".to_string()), AddressType::Unknown);
    assert_eq!(AddressType::from_short_str("II".to_string()), AddressType::Unknown);
    assert_eq!(AddressType::from_short_str("i".to_string()), AddressType::Unknown);
}

#[test]
fn aircraft_type_codes() {
    for code in 0..=15u8 {
        assert_eq!(AircraftType::from(code).value(), code);
    }
    assert_eq!(AircraftType::from(0), AircraftType::Undefined);
    assert_eq!(AircraftType::from(1), AircraftType::Glider);
    assert_eq!(AircraftType::from(10), AircraftType::Unknown);
    assert_eq!(AircraftType::from(15), AircraftType::Obstacle);
    assert_eq!(AircraftType::from(16), AircraftType::Unknown);
    assert_eq!(AircraftType::from(255), AircraftType::Unknown);
}

#[test]
fn beacon_fields_and_agl() {
    let mut b = beacon();
    assert_eq!(b.ts, 1_609_495_872);
    assert_eq!(b.agl, 0);
    b.set_agl(312);
    assert_eq!(b.agl, 312);
    assert_eq!(b.altitude, 1000);
    assert_eq!(b.prefix, "OGN");
    let c = b.clone();
    assert_eq!(c.addr, "DDE250");
    assert_eq!(c.agl, 312);
    assert_eq!(c.signal_strength, dec(false, 98, 1));
}

#[test]
fn json_record_rounds_to_the_shown_decimals() {
    let mut b = beacon();
    b.set_agl(7);
    let r = b.to_json_record().unwrap();
    assert_eq!(r.ts, 1_609_495_872);
    assert_eq!(r.prefix, "OGN");
    assert_eq!(r.addr, "DDE250");
    assert_eq!(r.addr_type, 3);
    assert_eq!(r.lat, 4_922_500);
    assert_eq!(r.lon, -1_657_451);
    assert_eq!(r.alt, 1000);
    assert_eq!(r.agl, 7);
    assert_eq!(r.course, 90);
    assert_eq!(r.speed, 83);
    // 5.04952 m/s shows as 5.0, and -0.349 as -0.3
    assert_eq!(r.vert_speed, 50);
    assert_eq!(r.turn_rate, -3);
    assert!(!r.stealth);
    assert!(r.dnt);
    assert_eq!(r.acft_type, 3);
}

#[test]
fn json_record_needs_rates_within_limits() {
    let mut b = beacon();
    b.turn_rate = dec(false, 1, 19);
    assert!(b.to_json_record().is_none());
    b.turn_rate = dec(false, 25, 2);
    b.climb_rate = dec(true, 15, 2);
    let r = b.to_json_record().unwrap();
    assert_eq!(r.turn_rate, 3);
    assert_eq!(r.vert_speed, -2);
}
