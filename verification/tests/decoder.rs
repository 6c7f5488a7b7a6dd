use std::cell::RefCell;
use std::rc::Rc;

use ogn_client::data_structures::{AddressType, AircraftBeacon, AircraftType, Observer};
use ogn_client::decoder::{
    aircraft_grammar, beacon_from_captures, expression_of, select_grammar, DropReason, Grammar,
    Grammars,
};
use ogn_client::decimal::Decimal;
use ogn_client::fields::TimeError;
use ogn_client::MyLineListener;

struct Collector {
    seen: Rc<RefCell<Vec<AircraftBeacon>>>,
}

impl Observer<AircraftBeacon> for Collector {
    fn notify(&mut self, event: AircraftBeacon) {
        self.seen.borrow_mut().push(event);
    }
}

const FULL_LINE: &str = "OGNDDE250>APRS,qAS,LKKA:/101112h4913.50N/01634.47E'090/045/A=003280 !W52! id4DDDE250 +123fpm +0.3rot 9.8dB 0e +3.2kHz gps2x3";
const FPM_LINE: &str = "FLRDDE250>APRS,qAS,LKKA:/101112h4913.50S/01634.47W'090/045/A=003280 !W52! id06DDE250 -019fpm";
const ID_LINE: &str = "ICA4B4E68>APRS,qAS,LKKA:/101112h4913.50N/01634.47E'090/045/A=003280 !W52! id0D4B4E68";
const MINIMAL_LINE: &str = "ICA4B4E68>APRS,qAS,LKKA:/101112h4913.50N/01634.47E'090/045/A=003280";
const SKY_LINE: &str = "SKY3E5906>OGNSKY,qAS,SafeSky:/101112h4913.50N/01634.47E'090/045/A=003280 !W52! id1C3E5906 +010fpm gps4x1";
const NEMO_LINE: &str = "OK-ABC>OGNEMO,qAS,NEMO:/101112h4913.50N/01634.47E'090/045/A=003280 !W52! id0D4B4E68 +123fpm +0.3rot";

// 2021-01-01 05:00:00 UTC
const MIDNIGHT: i64 = 1_609_459_200;
const NOW: i64 = MIDNIGHT + 5 * 3600;

type Listener = MyLineListener<Collector, fn(AircraftBeacon)>;

fn chars(s: &str) -> Vec<char> {
    s.chars().collect()
}

fn dec(negative: bool, mantissa: u64, scale: u8) -> Decimal {
    Decimal { negative, mantissa, scale }
}

fn value(d: Decimal) -> f64 {
    let v = d.mantissa as f64 / 10f64.powi(d.scale as i32);
    if d.negative { -v } else { v }
}

#[test]
fn full_aircraft_line_decodes() {
    let grammars = Grammars::new().unwrap();
    let b = grammars.decode(FULL_LINE, NOW).unwrap();
    assert_eq!(b.ts, MIDNIGHT + 10 * 3600 + 11 * 60 + 12);
    assert_eq!(b.prefix, "OGN");
    assert_eq!(b.addr, "DDE250");
    assert_eq!(b.addr_type, AddressType::Icao);
    assert_eq!(b.lat, 492_250_000);
    assert_eq!(b.lon, 165_745_000);
    assert_eq!(b.altitude, 1000);
    assert_eq!(b.agl, 0);
    assert_eq!(b.course, 90);
    assert_eq!(b.speed, 83);
    assert_eq!(b.climb_rate, dec(false, 62_484, 5));
    assert!((value(b.climb_rate) - 0.62484).abs() < 1e-9);
    assert_eq!(b.turn_rate, dec(false, 3, 1));
    assert!(!b.stealth);
    assert!(b.do_not_track);
    assert_eq!(b.aircraft_type, AircraftType::Helicopter);
    assert_eq!(b.registration, "");
    assert_eq!(b.signal_strength, dec(false, 98, 1));
}

#[test]
fn address_bits_three_mean_ogn() {
    let grammars = Grammars::new().unwrap();
    let b = grammars.decode(&FULL_LINE.replace("id4D", "id4F"), NOW).unwrap();
    assert_eq!(b.addr_type, AddressType::Ogn);
}

#[test]
fn unknown_address_bits_fall_back_to_the_prefix() {
    let grammars = Grammars::new().unwrap();
    let b = grammars.decode(&FULL_LINE.replace("id4D", "id4C"), NOW).unwrap();
    assert_eq!(b.addr_type, AddressType::Ogn);
    let b = grammars.decode(&ID_LINE.replace("id0D", "id0C"), NOW).unwrap();
    assert_eq!(b.addr_type, AddressType::Icao);
}

#[test]
fn line_with_vertical_speed_only() {
    let grammars = Grammars::new().unwrap();
    let b = grammars.decode(FPM_LINE, NOW).unwrap();
    assert_eq!(b.prefix, "FLR");
    assert_eq!(b.addr_type, AddressType::Flarm);
    assert_eq!(b.lat, -492_250_000);
    assert_eq!(b.lon, -165_745_000);
    assert_eq!(b.climb_rate, dec(true, 9652, 5));
    assert_eq!(b.turn_rate, dec(false, 0, 0));
    assert_eq!(b.aircraft_type, AircraftType::Glider);
    assert_eq!(b.signal_strength, dec(true, 1, 0));
    let b = grammars.decode(&FPM_LINE.replace("-019fpm", "-256fpm"), NOW).unwrap();
    assert!((value(b.climb_rate) + 1.30048).abs() < 1e-9);
}

#[test]
fn line_with_device_id_only() {
    let grammars = Grammars::new().unwrap();
    let b = grammars.decode(ID_LINE, NOW).unwrap();
    assert_eq!(b.prefix, "ICA");
    assert_eq!(b.addr, "4B4E68");
    assert_eq!(b.addr_type, AddressType::Icao);
    assert_eq!(b.aircraft_type, AircraftType::Helicopter);
    assert_eq!(b.climb_rate, dec(false, 0, 0));
    assert_eq!(b.turn_rate, dec(false, 0, 0));
}

#[test]
fn minimal_line_decodes_with_defaults() {
    let grammars = Grammars::new().unwrap();
    let b = grammars.decode(MINIMAL_LINE, NOW).unwrap();
    assert_eq!(b.prefix, "ICA");
    assert_eq!(b.addr, "4B4E68");
    assert_eq!(b.addr_type, AddressType::Icao);
    assert_eq!(b.aircraft_type, AircraftType::Undefined);
    assert_eq!(b.altitude, 1000);
    assert_eq!(b.speed, 83);
    assert_eq!(b.climb_rate, dec(false, 0, 0));
    assert_eq!(b.turn_rate, dec(false, 0, 0));
    assert!(!b.stealth);
    assert!(!b.do_not_track);
}

#[test]
fn sky_line_is_safesky() {
    let grammars = Grammars::new().unwrap();
    let b = grammars.decode(SKY_LINE, NOW).unwrap();
    assert_eq!(b.prefix, "SKY");
    assert_eq!(b.addr, "3E5906");
    assert_eq!(b.addr_type, AddressType::SafeSky);
    assert_eq!(b.aircraft_type, AircraftType::Paraglider);
    assert_eq!(b.climb_rate, dec(false, 5080, 5));
    assert!((value(b.climb_rate) - 0.0508).abs() < 1e-9);
    assert_eq!(b.turn_rate, dec(false, 0, 0));
}

#[test]
fn nemo_line_takes_its_class_from_the_flags() {
    let grammars = Grammars::new().unwrap();
    let b = grammars.decode(NEMO_LINE, NOW).unwrap();
    assert_eq!(b.prefix, "ICA");
    assert_eq!(b.addr, "4B4E68");
    assert_eq!(b.addr_type, AddressType::Icao);
    assert_eq!(b.registration, "OK-ABC");
    assert_eq!(b.climb_rate, dec(false, 62_484, 5));
    assert_eq!(b.turn_rate, dec(false, 3, 1));
    let b = grammars.decode(&NEMO_LINE.replace("id0D", "id0C"), NOW).unwrap();
    assert_eq!(b.prefix, "NEMO");
    assert_eq!(b.addr_type, AddressType::Unknown);
}

#[test]
fn each_grammar_on_its_own() {
    let grammars = Grammars::new().unwrap();
    assert_eq!(grammars.parse_sky_beacon(SKY_LINE, NOW).unwrap().addr, "3E5906");
    assert_eq!(grammars.parse_sky_beacon(NEMO_LINE, NOW).unwrap_err(), DropReason::NoMatch);
    assert_eq!(grammars.parse_nemo_beacon(NEMO_LINE, NOW).unwrap().registration, "OK-ABC");
    assert_eq!(grammars.parse_nemo_beacon(FULL_LINE, NOW).unwrap_err(), DropReason::NoMatch);
    assert_eq!(grammars.parse_aircraft_beacon(FULL_LINE, NOW).unwrap().turn_rate, dec(false, 3, 1));
    assert_eq!(
        grammars.parse_aircraft_beacon(MINIMAL_LINE, NOW).unwrap().turn_rate,
        dec(false, 0, 0)
    );
    // a line that names a field it does not have fits no aircraft grammar
    let odd = format!("{} rot", MINIMAL_LINE);
    assert_eq!(grammars.parse_aircraft_beacon(&odd, NOW).unwrap_err(), DropReason::NoMatch);
    assert!(grammars.parse_with(Grammar::Minimal, &odd, NOW).is_ok());
    assert_eq!(aircraft_grammar(&chars(&odd)), Grammar::Full);
}

#[test]
fn grammar_selection_prefers_the_richest() {
    assert_eq!(select_grammar(&chars("OGN... 1fpm 2rot id")), Ok(Grammar::Full));
    assert_eq!(select_grammar(&chars("FLR... 1fpm id")), Ok(Grammar::VerticalSpeed));
    assert_eq!(select_grammar(&chars("ICA... id")), Ok(Grammar::DeviceId));
    assert_eq!(select_grammar(&chars("ICA...")), Ok(Grammar::Minimal));
    assert_eq!(select_grammar(&chars("OGN")), Ok(Grammar::Minimal));
    assert_eq!(select_grammar(&chars("SKY... rot")), Ok(Grammar::Sky));
    assert_eq!(select_grammar(&chars("abc>OGNEMO,")), Ok(Grammar::Nemo));
    assert_eq!(select_grammar(&chars("abc")), Err(DropReason::UnsupportedPrefix));
    assert_eq!(select_grammar(&chars("ab")), Err(DropReason::TooShort));
    assert_eq!(select_grammar(&chars("é")), Err(DropReason::TooShort));
}

#[test]
fn short_and_unsupported_lines_are_dropped() {
    let grammars = Grammars::new().unwrap();
    assert_eq!(grammars.decode("OG", NOW).unwrap_err(), DropReason::TooShort);
    assert_eq!(grammars.decode("", NOW).unwrap_err(), DropReason::TooShort);
    assert_eq!(
        grammars.decode(&MINIMAL_LINE.replace("ICA", "XYZ"), NOW).unwrap_err(),
        DropReason::UnsupportedPrefix
    );
    assert_eq!(grammars.decode("OGN nothing to see", NOW).unwrap_err(), DropReason::NoMatch);
    let listener: Listener = MyLineListener::new().unwrap();
    assert!(listener.parse_beacon_line("OG").is_none());
    assert!(listener.parse_beacon_line(&MINIMAL_LINE.replace("ICA", "XYZ")).is_none());
}

#[test]
fn invalid_receive_time_drops_the_beacon() {
    let grammars = Grammars::new().unwrap();
    for bad in ["241112h", "106012h", "101160h"] {
        assert_eq!(
            grammars.decode(&FULL_LINE.replace("101112h", bad), NOW).unwrap_err(),
            DropReason::ReceiveTime(TimeError::OutOfRange)
        );
    }
    assert_eq!(
        grammars.decode(&NEMO_LINE.replace("101112h", "1011h"), NOW).unwrap_err(),
        DropReason::ReceiveTime(TimeError::Malformed)
    );
}

#[test]
fn captures_are_read_with_defaults() {
    let caps: Vec<Option<String>> = vec![Some("whole".to_string()), Some("OGN".to_string())];
    let b = beacon_from_captures(Grammar::Minimal, &caps, "no signal here", NOW).unwrap();
    assert_eq!(b.ts, MIDNIGHT);
    assert_eq!(b.prefix, "OGN");
    assert_eq!(b.addr, "");
    assert_eq!(b.addr_type, AddressType::Ogn);
    assert_eq!((b.lat, b.lon, b.altitude, b.course, b.speed), (0, 0, 0, 0, 0));
    assert_eq!(b.signal_strength, dec(true, 1, 0));
    let mut caps: Vec<Option<String>> = vec![None; 16];
    caps[3] = Some("12".to_string());
    assert_eq!(
        beacon_from_captures(Grammar::Full, &caps, "", NOW).unwrap_err(),
        DropReason::ReceiveTime(TimeError::Malformed)
    );
}

#[test]
fn a_pattern_that_does_not_compile_names_its_grammar() {
    let ok = expression_of(regex::Regex::new("a(b)"), Grammar::Sky).unwrap();
    assert_eq!(ok.as_str(), "a(b)");
    let err = expression_of(regex::Regex::new("(unclosed"), Grammar::Nemo).unwrap_err();
    assert_eq!(err.grammar, Grammar::Nemo);
}

#[test]
fn line_listener_decodes_at_the_time_it_was_given() {
    let mut listener: Listener = MyLineListener::new().unwrap();
    assert_eq!(listener.clock(), 0);
    assert_eq!(listener.parse_beacon_line(FULL_LINE).unwrap().ts, 10 * 3600 + 11 * 60 + 12);
    listener.set_now(NOW);
    assert_eq!(listener.clock(), NOW);
    let b = listener.parse_beacon_line(FULL_LINE).unwrap();
    assert_eq!(b.ts, MIDNIGHT + 10 * 3600 + 11 * 60 + 12);
    assert_eq!(b.addr, "DDE250");
    // at the end of time a morning hour is before the day's first second that fits
    listener.set_now(i64::MIN);
    assert!(listener.parse_beacon_line(&FULL_LINE.replace("101112h", "000000h")).is_none());
}

#[test]
fn listener_receives_decoded_beacons() {
    let seen = Rc::new(RefCell::new(Vec::new()));
    let mut listener: Listener = MyLineListener::new().unwrap();
    listener.set_now(NOW);
    listener.notify(FULL_LINE.to_string());
    listener.set_beacon_listener(Collector { seen: Rc::clone(&seen) });
    listener.notify(FULL_LINE.to_string());
    listener.notify("garbage".to_string());
    listener.notify(SKY_LINE.to_string());
    listener.dispatch(None);
    let seen = seen.borrow();
    assert_eq!(seen.len(), 2);
    assert_eq!(seen[0].addr, "DDE250");
    assert_eq!(seen[0].ts, MIDNIGHT + 10 * 3600 + 11 * 60 + 12);
    assert_eq!(seen[1].addr, "3E5906");
}

#[test]
fn later_listener_replaces_the_earlier() {
    let first = Rc::new(RefCell::new(Vec::new()));
    let second = Rc::new(RefCell::new(Vec::new()));
    let mut listener: Listener = MyLineListener::new().unwrap();
    listener.set_beacon_listener(Collector { seen: Rc::clone(&first) });
    listener.set_beacon_listener(Collector { seen: Rc::clone(&second) });
    listener.notify(FULL_LINE.to_string());
    assert_eq!(first.borrow().len(), 0);
    assert_eq!(second.borrow().len(), 1);
    // the same listener registered twice hears each beacon once
    listener.set_beacon_listener(Collector { seen: Rc::clone(&second) });
    listener.set_beacon_listener(Collector { seen: Rc::clone(&second) });
    listener.notify(SKY_LINE.to_string());
    assert_eq!(second.borrow().len(), 2);
}

#[test]
fn observer_hears_before_the_callback() {
    let order = Rc::new(RefCell::new(Vec::new()));
    let seen = Rc::new(RefCell::new(Vec::new()));
    struct Ordered {
        order: Rc<RefCell<Vec<String>>>,
    }
    impl Observer<AircraftBeacon> for Ordered {
        fn notify(&mut self, event: AircraftBeacon) {
            self.order.borrow_mut().push(format!("observer {}", event.addr));
        }
    }
    let mut listener: MyLineListener<Ordered, Box<dyn Fn(AircraftBeacon)>> =
        MyLineListener::new().unwrap();
    let for_callback = Rc::clone(&order);
    let for_seen = Rc::clone(&seen);
    listener.set_beacon_listener_fn(Box::new(move |b: AircraftBeacon| {
        for_callback.borrow_mut().push(format!("callback {}", b.addr));
        for_seen.borrow_mut().push(b);
    }));
    listener.notify(FULL_LINE.to_string());
    listener.set_beacon_listener(Ordered { order: Rc::clone(&order) });
    listener.notify(SKY_LINE.to_string());
    listener.notify("OGN no beacon".to_string());
    assert_eq!(
        *order.borrow(),
        vec!["callback DDE250", "observer 3E5906", "callback 3E5906"]
    );
    assert_eq!(seen.borrow().len(), 2);
}

#[test]
fn the_reason_of_the_last_drop_is_kept() {
    let mut listener: Listener = MyLineListener::new().unwrap();
    assert_eq!(listener.last_drop_reason(), None);
    listener.notify(FULL_LINE.replace("101112h", "251112h"));
    assert_eq!(listener.last_drop_reason(), Some(DropReason::ReceiveTime(TimeError::OutOfRange)));
    listener.notify("# aprsc 2.1".to_string());
    assert_eq!(listener.last_drop_reason(), Some(DropReason::UnsupportedPrefix));
    listener.notify("OGN nothing".to_string());
    assert_eq!(listener.last_drop_reason(), Some(DropReason::NoMatch));
    listener.notify(FULL_LINE.to_string());
    assert_eq!(listener.last_drop_reason(), None);
    listener.notify("x".to_string());
    assert_eq!(listener.last_drop_reason(), Some(DropReason::TooShort));
}
