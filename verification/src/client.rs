//! The feed client: a session with the server whose raw lines go to a
//! line listener, which decodes them.

use vstd::prelude::*;
use crate::aprs_server_connection::{
    filter_text, keepalive_due, login_text, next_delay, AprsServerConnection, ConnectAction,
    ConnectionState, ReadAction, ReadOutcome,
};
use crate::configuration::{
    DEFAULT_APRS_FILTER, DELAY_MS, KEEPALIVE_LINE, READ_TIMEOUT_S, SERVER_ADDR,
};
use crate::data_structures::{AircraftBeacon, Observer};
use crate::decoder::{first_refused, DropReason, MyLineListener, PatternError};

verus! {

/// The feed client.
pub struct OgnClient<L: Observer<AircraftBeacon>, F: Fn(AircraftBeacon)> {
    do_run: bool,
    server: AprsServerConnection<MyLineListener<L, F>>,
}

impl<L: Observer<AircraftBeacon>, F: Fn(AircraftBeacon)> OgnClient<L, F> {
    /// Whether the read loop is to go on.
    pub closed spec fn running(self) -> bool {
        self.do_run
    }

    /// The session with the server.
    pub closed spec fn server(self) -> AprsServerConnection<MyLineListener<L, F>> {
        self.server
    }

    /// The line listener, which decodes the raw lines.
    pub open spec fn lines(self) -> Option<MyLineListener<L, F>> {
        self.server().listener()
    }

    /// The observer for decoded beacons.
    pub open spec fn beacon_listener(self) -> Option<L> {
        match self.lines() {
            Some(lines) => lines.listener(),
            None => None,
        }
    }

    /// Whether `after` differs from this client in the line listener at most.
    pub open spec fn same_but_lines(self, after: Self) -> bool {
        after.running() == self.running() && after.server().same_session(self.server())
    }

    /// Whether `mid` is the session of this client with its line listener
    /// given the time `now`.
    pub open spec fn timed(self, now: i64, mid: AprsServerConnection<MyLineListener<L, F>>) -> bool {
        &&& mid.same_session(self.server())
        &&& match self.lines() {
            Some(lines) => mid.listener() matches Some(timed) && lines.given_time(now, timed),
            None => mid.listener() is None,
        }
    }

    /// A client for the default server that is not connected, runs, and has
    /// a line listener without listeners of its own; the error names the
    /// first grammar that did not compile.
    pub fn new(username: &str) -> (r: Result<Self, PatternError>)
        ensures
            match r {
                Ok(c) => {
                    &&& first_refused() is None
                    &&& c.running()
                    &&& c.server().address() == SERVER_ADDR@
                    &&& c.server().username() == username@
                    &&& c.server().filter() == DEFAULT_APRS_FILTER@
                    &&& c.server().delay() == 1
                    &&& c.server().state() == ConnectionState::Disconnected
                    &&& c.server().last_write() == 0
                    &&& c.lines() matches Some(lines)
                    &&& lines.listener() is None
                    &&& lines.callback() is None
                    &&& lines.grammars().holds_the_grammars()
                    &&& lines.now() == 0
                    &&& lines.last_drop() is None
                },
                Err(e) => first_refused() == Some(e.grammar),
            },
    {
        let lines: MyLineListener<L, F> = match MyLineListener::new() {
            Ok(lines) => lines,
            Err(e) => {
                return Err(e);
            },
        };
        let mut server = AprsServerConnection::new(SERVER_ADDR, username);
        server.set_line_listener(lines);
        Ok(Self { do_run: true, server })
    }

    /// Sets the area filter; it takes effect with the next login.
    pub fn set_aprs_filter(&mut self, lat: i64, lon: i64, range: u32)
        ensures
            final(self).server().filter() == filter_text(lat as int, lon as int, range as nat),
            final(self).server().address() == old(self).server().address(),
            final(self).server().username() == old(self).server().username(),
            final(self).server().delay() == old(self).server().delay(),
            final(self).server().state() == old(self).server().state(),
            final(self).server().last_write() == old(self).server().last_write(),
            final(self).lines() == old(self).lines(),
            final(self).running() == old(self).running(),
    {
        self.server.set_aprs_filter(lat, lon, range);
    }

    /// The address to connect to; the session is now connecting.
    pub fn begin_connect(&mut self) -> (r: String)
        ensures
            r@ == old(self).server().address(),
            final(self).server().state() == ConnectionState::Connecting,
            final(self).server().same_settings(old(self).server()),
            final(self).server().delay() == old(self).server().delay(),
            final(self).server().last_write() == old(self).server().last_write(),
            final(self).lines() == old(self).lines(),
            final(self).running() == old(self).running(),
    {
        self.server.begin_connect()
    }

    /// Takes note of how an attempt to connect went and says what to do.
    pub fn connect(&mut self, connected: bool) -> (r: ConnectAction)
        ensures
            final(self).server().delay() == next_delay(old(self).server().delay(), connected),
            final(self).server().same_settings(old(self).server()),
            final(self).server().last_write() == old(self).server().last_write(),
            final(self).lines() == old(self).lines(),
            final(self).running() == old(self).running(),
            connected ==> final(self).server().state() == ConnectionState::Connected,
            !connected ==> final(self).server().state() == ConnectionState::Disconnected,
            match r {
                ConnectAction::LogIn { read_timeout_s, settle_ms, login } => connected
                    && read_timeout_s == READ_TIMEOUT_S && settle_ms == DELAY_MS && login@
                    == login_text(old(self).server().username(), old(self).server().filter()),
                ConnectAction::Retry { sleep_s } => !connected && sleep_s == old(
                    self,
                ).server().delay(),
            },
    {
        self.server.connect(connected)
    }

    /// Takes note of what a read gave at the time `now` and says what to do.
    ///
    /// The line listener is given the time, and then the session reads: a
    /// line that is not empty goes to the line listener, which decodes it at
    /// that time.
    pub fn read(&mut self, outcome: ReadOutcome, now: i64) -> (r: ReadAction)
        ensures
            final(self).running() == old(self).running(),
            exists|mid: AprsServerConnection<MyLineListener<L, F>>|
                old(self).timed(now, mid) && #[trigger] mid.read_gives(
                    outcome,
                    r,
                    final(self).server(),
                ),
    {
        match self.server.take_line_listener() {
            Some(lines) => {
                let mut lines = lines;
                lines.set_now(now);
                self.server.set_line_listener(lines);
            },
            None => {},
        }
        let ghost mid = self.server;
        assert(mid.same_session(old(self).server()));
        assert(old(self).timed(now, mid));
        let r = self.server.read(outcome);
        assert(old(self).timed(now, mid) && mid.read_gives(outcome, r, self.server()));
        r
    }

    /// Frames a line for sending; the keepalive timer starts again at `now`.
    pub fn write(&mut self, message: &str, now: u64) -> (r: String)
        ensures
            r@ == message@.push('\n'),
            final(self).server().last_write() == now,
            final(self).server().same_settings(old(self).server()),
            final(self).server().delay() == old(self).server().delay(),
            final(self).server().state() == old(self).server().state(),
            final(self).lines() == old(self).lines(),
            final(self).running() == old(self).running(),
    {
        self.server.write(message, now)
    }

    /// The keepalive line, framed for sending, where none was written for
    /// the keepalive interval; the timer then starts again at `now`.
    pub fn send_keepalive_msg(&mut self, now: u64) -> (r: Option<String>)
        ensures
            r is Some <==> keepalive_due(old(self).server().last_write(), now),
            r matches Some(line) ==> line@ == KEEPALIVE_LINE@.push('\n'),
            r is Some ==> final(self).server().last_write() == now,
            r is None ==> final(self).server().last_write() == old(self).server().last_write(),
            final(self).server().same_settings(old(self).server()),
            final(self).server().delay() == old(self).server().delay(),
            final(self).server().state() == old(self).server().state(),
            final(self).lines() == old(self).lines(),
            final(self).running() == old(self).running(),
    {
        self.server.send_keepalive_msg(now)
    }

    /// Ends the read loop after the read that is under way.
    pub fn stop(&mut self)
        ensures
            !final(self).running(),
            final(self).server() == old(self).server(),
    {
        self.do_run = false;
    }

    /// Whether the read loop is to go on.
    pub fn is_running(&self) -> (r: bool)
        ensures
            r == self.running(),
    {
        self.do_run
    }

    /// The seconds to wait after the next failed attempt to connect.
    pub fn next_reconnect_delay(&self) -> (r: u64)
        ensures
            r == self.server().delay(),
    {
        self.server.next_reconnect_delay()
    }

    /// Why the last line gave no beacon; `None` where it gave one, where no
    /// line has come yet, or where there is no line listener.
    pub fn last_drop_reason(&self) -> (r: Option<DropReason>)
        ensures
            r == match self.lines() {
                Some(lines) => lines.last_drop(),
                None => None,
            },
    {
        match self.server.line_listener() {
            Some(lines) => lines.last_drop_reason(),
            None => None,
        }
    }

    /// Registers the observer for decoded beacons in place of the one
    /// before; nothing else changes.
    pub fn set_beacon_listener(&mut self, listener: L)
        ensures
            old(self).same_but_lines(*final(self)),
            match old(self).lines() {
                Some(before) => {
                    &&& final(self).lines() matches Some(after)
                    &&& after.listener() == Some(listener)
                    &&& after.callback() == before.callback()
                    &&& after.grammars() == before.grammars()
                    &&& after.now() == before.now()
                    &&& after.last_drop() == before.last_drop()
                },
                None => final(self).lines() is None,
            },
    {
        match self.server.take_line_listener() {
            Some(lines) => {
                let mut lines = lines;
                lines.set_beacon_listener(listener);
                self.server.set_line_listener(lines);
            },
            None => {},
        }
    }

    /// Registers the callback for decoded beacons in place of the one
    /// before; nothing else changes. The callback must take every beacon.
    pub fn set_beacon_listener_fn(&mut self, callback: F)
        requires
            forall|b: AircraftBeacon| #[trigger] callback.requires((b,)),
        ensures
            old(self).same_but_lines(*final(self)),
            match old(self).lines() {
                Some(before) => {
                    &&& final(self).lines() matches Some(after)
                    &&& after.callback() == Some(callback)
                    &&& after.listener() == before.listener()
                    &&& after.grammars() == before.grammars()
                    &&& after.now() == before.now()
                    &&& after.last_drop() == before.last_drop()
                },
                None => final(self).lines() is None,
            },
    {
        match self.server.take_line_listener() {
            Some(lines) => {
                let mut lines = lines;
                lines.set_beacon_listener_fn(callback);
                self.server.set_line_listener(lines);
            },
            None => {},
        }
    }
}

} // verus!
