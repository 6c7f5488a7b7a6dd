use std::cell::RefCell;
use std::rc::Rc;

use ogn_client::aprs_server_connection::{
    strip_line, AprsServerConnection, ConnectAction, ConnectionState, ReadAction, ReadOutcome,
};
use ogn_client::data_structures::{AircraftBeacon, Observer};
use ogn_client::decoder::DropReason;
use ogn_client::fields::TimeError;
use ogn_client::number_text::{push_decimal, push_degrees, push_padded, push_text};
use ogn_client::text::{contains, find_char, find_text, from_chars, same_text, starts_with, to_chars};
use ogn_client::OgnClient;

struct Lines {
    seen: Rc<RefCell<Vec<String>>>,
}

impl Observer<String> for Lines {
    fn notify(&mut self, event: String) {
        self.seen.borrow_mut().push(event);
    }
}

struct Beacons {
    seen: Rc<RefCell<Vec<AircraftBeacon>>>,
}

impl Observer<AircraftBeacon> for Beacons {
    fn notify(&mut self, event: AircraftBeacon) {
        self.seen.borrow_mut().push(event);
    }
}

const LINE: &str = "ICA4B4E68>APRS,qAS,LKKA:/101112h4913.50N/01634.47E'090/045/A=003280 !W52! id0D4B4E68\r\n";

fn text(build: impl Fn(&mut Vec<char>)) -> String {
    let mut v = Vec::new();
    build(&mut v);
    v.into_iter().collect()
}

#[test]
fn backoff_doubles_and_resets() {
    let mut c: AprsServerConnection<Lines> = AprsServerConnection::new("localhost:1", "me");
    assert_eq!(c.next_reconnect_delay(), 1);
    assert_eq!(c.connection_state(), ConnectionState::Disconnected);
    let mut expected = 1u64;
    for _ in 0..10 {
        assert_eq!(c.begin_connect(), "localhost:1");
        assert_eq!(c.connection_state(), ConnectionState::Connecting);
        match c.connect(false) {
            ConnectAction::Retry { sleep_s } => assert_eq!(sleep_s, expected),
            other => panic!("{:?}", other),
        }
        expected *= 2;
        assert_eq!(c.next_reconnect_delay(), expected);
        assert_eq!(c.connection_state(), ConnectionState::Disconnected);
    }
    assert_eq!(c.next_reconnect_delay(), 1024);
    assert!(matches!(c.connect(true), ConnectAction::LogIn { .. }));
    assert_eq!(c.next_reconnect_delay(), 1);
    assert_eq!(c.connection_state(), ConnectionState::Connected);
    assert!(matches!(c.connect(false), ConnectAction::Retry { sleep_s: 1 }));
    assert_eq!(c.next_reconnect_delay(), 2);
}

#[test]
fn backoff_stays_within_u64() {
    let mut c: AprsServerConnection<Lines> = AprsServerConnection::new("a", "b");
    for _ in 0..63 {
        c.connect(false);
    }
    assert_eq!(c.next_reconnect_delay(), 1u64 << 63);
    c.connect(false);
    assert_eq!(c.next_reconnect_delay(), u64::MAX);
    c.connect(false);
    assert_eq!(c.next_reconnect_delay(), u64::MAX);
    c.connect(true);
    assert_eq!(c.next_reconnect_delay(), 1);
}

#[test]
fn login_line_carries_user_and_filter() {
    let mut c: AprsServerConnection<Lines> = AprsServerConnection::new("a", "blume");
    assert_eq!(c.aprs_filter(), "r/49.3678/16.1144/99999");
    c.set_aprs_filter(491_234_000, 164_567_000, 999_999);
    assert_eq!(c.aprs_filter(), "r/49.1234/16.4567/999999");
    match c.connect(true) {
        ConnectAction::LogIn { read_timeout_s, settle_ms, login } => {
            assert_eq!(read_timeout_s, 10);
            assert_eq!(settle_ms, 1000);
            assert_eq!(
                login,
                "user blume pass -1 vers rustClient 0.0.1 filter r/49.1234/16.4567/999999"
            );
        }
        other => panic!("{:?}", other),
    }
}

#[test]
fn filter_angles_have_four_decimals() {
    let mut c: AprsServerConnection<Lines> = AprsServerConnection::new("a", "b");
    c.set_aprs_filter(-5_000_499, 1_799_999_500, 0);
    assert_eq!(c.aprs_filter(), "r/-0.5000/180.0000/0");
    c.set_aprs_filter(-499, 500, 7);
    assert_eq!(c.aprs_filter(), "r/0.0000/0.0001/7");
    c.set_aprs_filter(-900_000_000, 12_000, u32::MAX);
    assert_eq!(c.aprs_filter(), "r/-90.0000/0.0012/4294967295");
}

#[test]
fn written_lines_are_framed() {
    let mut c: AprsServerConnection<Lines> = AprsServerConnection::new("a", "b");
    assert_eq!(c.write("hello", 5), "hello\n");
    assert_eq!(c.write("", 6), "\n");
}

#[test]
fn keepalive_after_two_minutes_of_silence() {
    let mut c: AprsServerConnection<Lines> = AprsServerConnection::new("a", "b");
    c.write("x", 1000);
    assert_eq!(c.send_keepalive_msg(1000), None);
    assert_eq!(c.send_keepalive_msg(1119), None);
    assert_eq!(c.send_keepalive_msg(900), None);
    assert_eq!(c.send_keepalive_msg(1120), Some("#keepalive\n".to_string()));
    assert_eq!(c.send_keepalive_msg(1239), None);
    assert_eq!(c.send_keepalive_msg(1240), Some("#keepalive\n".to_string()));
    c.write("y", 1300);
    assert_eq!(c.send_keepalive_msg(1360), None);
    assert_eq!(c.send_keepalive_msg(1420), Some("#keepalive\n".to_string()));
}

#[test]
fn read_lines_reach_the_listener() {
    let seen = Rc::new(RefCell::new(Vec::new()));
    let mut c: AprsServerConnection<Lines> = AprsServerConnection::new("a", "b");
    c.connect(true);
    assert!(matches!(c.read(ReadOutcome::Line("early\n".into())), ReadAction::Line(l) if l == "early"));
    c.set_line_listener(Lines { seen: Rc::clone(&seen) });
    assert!(matches!(c.read(ReadOutcome::Line("first\r\n".into())), ReadAction::Line(l) if l == "first"));
    assert!(matches!(c.read(ReadOutcome::Line("\r\n".into())), ReadAction::Line(l) if l.is_empty()));
    assert!(matches!(c.read(ReadOutcome::Line("second".into())), ReadAction::Line(l) if l == "second"));
    assert_eq!(c.connection_state(), ConnectionState::Connected);
    assert_eq!(*seen.borrow(), vec!["first".to_string(), "second".to_string()]);
    assert!(c.line_listener().is_some());
    assert!(c.take_line_listener().is_some());
    assert!(c.take_line_listener().is_none());
    assert!(c.line_listener().is_none());
}

#[test]
fn lost_session_asks_for_reconnect() {
    let seen = Rc::new(RefCell::new(Vec::new()));
    let mut c: AprsServerConnection<Lines> = AprsServerConnection::new("a", "b");
    c.set_line_listener(Lines { seen: Rc::clone(&seen) });
    c.connect(false);
    c.connect(true);
    assert!(matches!(c.read(ReadOutcome::Closed), ReadAction::Reconnect));
    assert_eq!(c.connection_state(), ConnectionState::Disconnected);
    assert_eq!(c.next_reconnect_delay(), 1);
    c.connect(true);
    assert!(matches!(c.read(ReadOutcome::Failed), ReadAction::Reconnect));
    assert_eq!(c.connection_state(), ConnectionState::Disconnected);
    assert!(seen.borrow().is_empty());
}

#[test]
fn terminators_are_stripped() {
    assert_eq!(strip_line("abc\r\n"), "abc");
    assert_eq!(strip_line("abc\n\n\r"), "abc");
    assert_eq!(strip_line("a\nb\n"), "a\nb");
    assert_eq!(strip_line(" abc \n"), " abc ");
    assert_eq!(strip_line("\n"), "");
    assert_eq!(strip_line(""), "");
}

#[test]
fn client_decodes_what_it_reads() {
    let seen = Rc::new(RefCell::new(Vec::new()));
    let mut client: OgnClient<Beacons, fn(AircraftBeacon)> = OgnClient::new("blume").unwrap();
    assert!(client.is_running());
    assert_eq!(client.begin_connect(), "aprs.glidernet.org:14580");
    assert!(matches!(client.connect(false), ConnectAction::Retry { sleep_s: 1 }));
    assert_eq!(client.next_reconnect_delay(), 2);
    client.set_aprs_filter(491_234_000, 164_567_000, 999_999);
    match client.connect(true) {
        ConnectAction::LogIn { login, .. } => {
            assert_eq!(
                login,
                "user blume pass -1 vers rustClient 0.0.1 filter r/49.1234/16.4567/999999"
            );
        }
        other => panic!("{:?}", other),
    }
    assert_eq!(client.next_reconnect_delay(), 1);
    client.set_beacon_listener(Beacons { seen: Rc::clone(&seen) });
    let now = 1_609_459_200 + 77;
    assert_eq!(client.last_drop_reason(), None);
    assert!(matches!(client.read(ReadOutcome::Line(LINE.into()), now), ReadAction::Line(_)));
    assert_eq!(client.last_drop_reason(), None);
    assert!(matches!(
        client.read(ReadOutcome::Line("# aprsc 2.1\r\n".into()), now),
        ReadAction::Line(_)
    ));
    assert_eq!(client.last_drop_reason(), Some(DropReason::UnsupportedPrefix));
    assert!(matches!(
        client.read(ReadOutcome::Line(LINE.replace("101112h", "991112h")), now),
        ReadAction::Line(_)
    ));
    assert_eq!(client.last_drop_reason(), Some(DropReason::ReceiveTime(TimeError::OutOfRange)));
    assert!(matches!(client.read(ReadOutcome::Failed, now), ReadAction::Reconnect));
    assert_eq!(seen.borrow().len(), 1);
    assert_eq!(seen.borrow()[0].addr, "4B4E68");
    assert_eq!(seen.borrow()[0].ts, 1_609_459_200 + 10 * 3600 + 11 * 60 + 12);
    client.stop();
    assert!(!client.is_running());
}

#[test]
fn client_calls_the_callback_after_the_observer() {
    let seen = Rc::new(RefCell::new(Vec::new()));
    let called = Rc::new(RefCell::new(Vec::new()));
    let mut client: OgnClient<Beacons, Box<dyn Fn(AircraftBeacon)>> =
        OgnClient::new("blume").unwrap();
    let for_callback = Rc::clone(&called);
    client.set_beacon_listener_fn(Box::new(move |b: AircraftBeacon| {
        for_callback.borrow_mut().push(b.addr);
    }));
    client.connect(true);
    client.read(ReadOutcome::Line(LINE.into()), 0);
    client.set_beacon_listener(Beacons { seen: Rc::clone(&seen) });
    client.read(ReadOutcome::Line(LINE.into()), 86_400);
    client.read(ReadOutcome::Line("\r\n".into()), 86_400);
    assert_eq!(*called.borrow(), vec!["4B4E68".to_string(), "4B4E68".to_string()]);
    assert_eq!(seen.borrow().len(), 1);
    assert_eq!(seen.borrow()[0].ts, 86_400 + 10 * 3600 + 11 * 60 + 12);
    assert_eq!(client.next_reconnect_delay(), 1);
}

#[test]
fn numbers_as_text() {
    assert_eq!(text(|v| push_decimal(v, 0)), "0");
    assert_eq!(text(|v| push_decimal(v, 7)), "7");
    assert_eq!(text(|v| push_decimal(v, 10)), "10");
    assert_eq!(text(|v| push_decimal(v, u64::MAX)), "18446744073709551615");
    assert_eq!(text(|v| push_padded(v, 7, 4)), "0007");
    assert_eq!(text(|v| push_padded(v, 12_345, 4)), "2345");
    assert_eq!(text(|v| push_padded(v, 5, 0)), "");
    assert_eq!(text(|v| push_degrees(v, 516_795_000)), "51.6795");
    assert_eq!(text(|v| push_degrees(v, -516_795_499)), "-51.6795");
    assert_eq!(text(|v| push_degrees(v, 516_795_500)), "51.6796");
    assert_eq!(text(|v| push_degrees(v, i64::MIN)), "-922337203685.4776");
    assert_eq!(text(|v| { push_text(v, "a/"); push_text(v, "é"); }), "a/é");
    for n in [0u64, 9, 10, 99, 100, 12_345, u64::MAX] {
        assert_eq!(text(|v| push_decimal(v, n)), n.to_string());
    }
}

#[test]
fn text_searches() {
    let hay = to_chars("héllo dB world dB");
    assert_eq!(hay.len(), 17);
    assert_eq!(from_chars(&hay, 1, 5), "éllo");
    assert_eq!(find_char(&hay, 'l', 0), 2);
    assert_eq!(find_char(&hay, 'l', 4), 12);
    assert_eq!(find_char(&hay, 'z', 0), 17);
    assert_eq!(find_text(&hay, &to_chars("dB")), Some(6));
    assert_eq!(find_text(&hay, &to_chars("")), Some(0));
    assert_eq!(find_text(&hay, &to_chars("dBw")), None);
    assert_eq!(find_text(&to_chars("ab"), &to_chars("abc")), None);
    assert!(contains(&hay, "world"));
    assert!(contains(&hay, "world dB"));
    assert!(!contains(&hay, "World"));
    assert!(starts_with(&hay, "hé"));
    assert!(starts_with(&hay, ""));
    assert!(!starts_with(&hay, "é"));
    assert!(!starts_with(&to_chars("ab"), "abc"));
    assert!(same_text("abc", "abc"));
    assert!(!same_text("abc", "abd"));
    assert!(!same_text("abc", "ab"));
}
