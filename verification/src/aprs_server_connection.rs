//! The connection to the feed server as a state machine.
//!
//! The socket lives with the caller. The caller reports what the socket
//! did, and the connection says what to do next: how long to wait before
//! the next attempt, what to send, which line to hand on.

use vstd::prelude::*;
use crate::configuration::{
    CLIENT_ID, DEFAULT_APRS_FILTER, DELAY_MS, KEEPALIVE_INTERVAL_S, KEEPALIVE_LINE, READ_TIMEOUT_S,
};
use crate::data_structures::Observer;
use crate::number_text::{decimal_text, degrees_text, push_decimal, push_degrees, push_text};
use crate::text::{from_chars, to_chars};

verus! {

/// Where the session stands.
#[derive(Clone, Copy, Debug, PartialEq, Eq, Structural)]
pub enum ConnectionState {
    Disconnected,
    Connecting,
    Connected,
}

/// What to do after an attempt to connect.
#[derive(Debug)]
pub enum ConnectAction {
    /// The attempt succeeded: set the read timeout of the socket, wait for
    /// the settle delay, then send the login line.
    LogIn { read_timeout_s: u64, settle_ms: u64, login: String },
    /// The attempt failed: sleep, then try again.
    Retry { sleep_s: u64 },
}

/// What a read on the socket gave.
#[derive(Debug)]
pub enum ReadOutcome {
    /// A line, with its terminator if it had one.
    Line(String),
    /// The end of the stream: a read of no bytes.
    Closed,
    /// An error: reset, broken pipe, timeout, or bytes that are not text.
    Failed,
}

/// What to do after a read.
#[derive(Debug)]
pub enum ReadAction {
    /// Hand this line, without its terminator, to the caller.
    Line(String),
    /// The session is lost: connect again. This read gives no line.
    Reconnect,
}

/// The delay before the next attempt, given the delay now and how the
/// attempt went: one second after a success, twice the delay after a
/// failure (held to the range of `u64`).
pub open spec fn next_delay(delay: u64, connected: bool) -> u64 {
    if connected {
        1
    } else if delay <= u64::MAX / 2 {
        (2 * delay) as u64
    } else {
        u64::MAX
    }
}

/// The delay after a run of attempts that began with a delay of one second.
pub open spec fn delay_after(attempts: Seq<bool>) -> u64
    decreases attempts.len(),
{
    if attempts.len() == 0 {
        1
    } else {
        next_delay(delay_after(attempts.drop_last()), attempts.last())
    }
}

/// Two to the power `n`.
pub open spec fn pow2(n: nat) -> nat
    decreases n,
{
    if n == 0 {
        1
    } else {
        2 * pow2((n - 1) as nat)
    }
}

/// After `n` failures in a row the delay is `2^n` seconds: it starts at one
/// second and doubles with each failure, as long as the double fits in `u64`.
pub proof fn backoff_doubles(attempts: Seq<bool>)
    requires
        attempts.len() <= 63,
        forall|i: int| 0 <= i < attempts.len() ==> !attempts[i],
    ensures
        delay_after(attempts) == pow2(attempts.len()),
        attempts.len() > 0 ==> delay_after(attempts) == 2 * delay_after(attempts.drop_last()),
        attempts.len() > 0 ==> delay_after(attempts) > delay_after(attempts.drop_last()),
    decreases attempts.len(),
{
    lemma_pow2_bound(attempts.len());
    if attempts.len() > 0 {
        backoff_doubles(attempts.drop_last());
        lemma_pow2_bound((attempts.len() - 1) as nat);
    }
}

/// A success brings the delay back to one second, whatever came before.
pub proof fn backoff_resets(attempts: Seq<bool>)
    ensures
        delay_after(attempts.push(true)) == 1,
{
    assert(attempts.push(true).last());
}

proof fn lemma_pow2_bound(n: nat)
    requires
        n <= 63,
    ensures
        1 <= pow2(n) <= 0x8000_0000_0000_0000,
    decreases n,
{
    reveal_with_fuel(pow2, 2);
    if n > 0 {
        lemma_pow2_step(n);
    }
}

proof fn lemma_pow2_step(n: nat)
    requires
        1 <= n <= 63,
    ensures
        1 <= pow2((n - 1) as nat) <= 0x4000_0000_0000_0000,
        pow2(n) == 2 * pow2((n - 1) as nat),
    decreases n,
{
    if n > 1 {
        lemma_pow2_step((n - 1) as nat);
    }
    assert(pow2(62) == 0x4000_0000_0000_0000) by {
        reveal_with_fuel(pow2, 63);
    }
    lemma_pow2_monotone((n - 1) as nat, 62);
}

proof fn lemma_pow2_monotone(i: nat, j: nat)
    requires
        i <= j,
    ensures
        1 <= pow2(i) <= pow2(j),
    decreases j,
{
    if j > 0 {
        if i < j {
            lemma_pow2_monotone(i, (j - 1) as nat);
        } else {
            lemma_pow2_monotone((i - 1) as nat, (j - 1) as nat);
        }
    }
}

/// The filter expression for the circle of `range` km around a centre given
/// in units of 1e-7 degree: `r/<lat>/<lon>/<range>`, the angles in degrees
/// with four decimals.
pub open spec fn filter_text(lat: int, lon: int, range: nat) -> Seq<char> {
    "r/"@ + degrees_text(lat) + "/"@ + degrees_text(lon) + "/"@ + decimal_text(range)
}

/// The login line for a user name and a filter expression.
pub open spec fn login_text(username: Seq<char>, filter: Seq<char>) -> Seq<char> {
    "user "@ + username + " pass -1 vers "@ + CLIENT_ID@ + " filter "@ + filter
}

/// A line without the carriage returns and line feeds at its end.
pub open spec fn strip_terminator(line: Seq<char>) -> Seq<char>
    decreases line.len(),
{
    if line.len() > 0 && (line.last() == '\n' || line.last() == '\r') {
        strip_terminator(line.drop_last())
    } else {
        line
    }
}

/// Whether a keepalive line is due at `now`, the last write having been at `last_write`.
pub open spec fn keepalive_due(last_write: u64, now: u64) -> bool {
    now - last_write >= KEEPALIVE_INTERVAL_S
}

/// The session with the feed server: its settings, its state, the delay
/// before the next attempt to connect, and the listener for raw lines.
pub struct AprsServerConnection<R: Observer<String>> {
    address: String,
    username: String,
    aprs_filter: String,
    next_reconnect_delay: u64,
    state: ConnectionState,
    last_write: u64,
    line_listener: Option<R>,
}

impl<R: Observer<String>> AprsServerConnection<R> {
    pub closed spec fn address(self) -> Seq<char> {
        self.address@
    }

    pub closed spec fn username(self) -> Seq<char> {
        self.username@
    }

    pub closed spec fn filter(self) -> Seq<char> {
        self.aprs_filter@
    }

    /// The seconds to wait after the next failed attempt to connect.
    pub closed spec fn delay(self) -> u64 {
        self.next_reconnect_delay
    }

    pub closed spec fn state(self) -> ConnectionState {
        self.state
    }

    /// When the last line was written, in seconds on the caller's clock.
    pub closed spec fn last_write(self) -> u64 {
        self.last_write
    }

    pub closed spec fn listener(self) -> Option<R> {
        self.line_listener
    }

    /// Whether `after` is what handing `line` to the listener for raw lines
    /// makes of the session: a registered listener has been told of that
    /// line, once, and a session without a listener is still without one.
    pub open spec fn line_handed_over(self, line: String, after: Self) -> bool {
        match self.listener() {
            Some(l) => after.listener() matches Some(l2) && l.told(line, &l2),
            None => after.listener() is None,
        }
    }

    /// The settings of the session: what neither connecting nor reading changes.
    pub open spec fn same_settings(self, other: Self) -> bool {
        &&& self.address() == other.address()
        &&& self.username() == other.username()
        &&& self.filter() == other.filter()
    }

    /// Whether two sessions differ in their listener at most.
    pub open spec fn same_session(self, other: Self) -> bool {
        &&& self.same_settings(other)
        &&& self.delay() == other.delay()
        &&& self.state() == other.state()
        &&& self.last_write() == other.last_write()
    }

    /// Whether `action` and `after` are what a read that gave `outcome`
    /// makes of the session.
    ///
    /// A line loses its terminator; where something is left of it, the
    /// listener for raw lines is told of it once. The end of the stream or
    /// an error ends the session and leaves the listener as it was.
    pub open spec fn read_gives(self, outcome: ReadOutcome, action: ReadAction, after: Self) -> bool {
        &&& after.same_settings(self)
        &&& after.delay() == self.delay()
        &&& after.last_write() == self.last_write()
        &&& match outcome {
            ReadOutcome::Line(raw) => {
                &&& action matches ReadAction::Line(line)
                &&& line@ == strip_terminator(raw@)
                &&& after.state() == self.state()
                &&& line@.len() == 0 ==> after.listener() == self.listener()
                &&& line@.len() > 0 ==> self.line_handed_over(line, after)
            },
            _ => {
                &&& action is Reconnect
                &&& after.state() == ConnectionState::Disconnected
                &&& after.listener() == self.listener()
            },
        }
    }

    /// A session that is not connected, with the default filter, a delay of
    /// one second and no listener.
    pub fn new(address: &str, username: &str) -> (r: Self)
        ensures
            r.address() == address@,
            r.username() == username@,
            r.filter() == DEFAULT_APRS_FILTER@,
            r.delay() == 1,
            r.state() == ConnectionState::Disconnected,
            r.last_write() == 0,
            r.listener() is None,
    {
        Self {
            address: address.to_owned(),
            username: username.to_owned(),
            aprs_filter: DEFAULT_APRS_FILTER.to_owned(),
            next_reconnect_delay: 1,
            state: ConnectionState::Disconnected,
            last_write: 0,
            line_listener: None,
        }
    }

    /// The address to connect to; the session is now connecting.
    pub fn begin_connect(&mut self) -> (r: String)
        ensures
            r@ == old(self).address(),
            final(self).state() == ConnectionState::Connecting,
            final(self).same_settings(*old(self)),
            final(self).delay() == old(self).delay(),
            final(self).last_write() == old(self).last_write(),
            final(self).listener() == old(self).listener(),
    {
        self.state = ConnectionState::Connecting;
        self.address.clone()
    }

    /// Takes note of how an attempt to connect went and says what to do.
    ///
    /// After a success the session is connected and the delay is one second
    /// again; the login line carries the user name and the filter. After a
    /// failure the session is disconnected, the caller sleeps for the delay
    /// that was due, and the next delay is twice as long.
    pub fn connect(&mut self, connected: bool) -> (r: ConnectAction)
        ensures
            final(self).delay() == next_delay(old(self).delay(), connected),
            final(self).same_settings(*old(self)),
            final(self).last_write() == old(self).last_write(),
            final(self).listener() == old(self).listener(),
            connected ==> final(self).state() == ConnectionState::Connected,
            !connected ==> final(self).state() == ConnectionState::Disconnected,
            match r {
                ConnectAction::LogIn { read_timeout_s, settle_ms, login } => connected
                    && read_timeout_s == READ_TIMEOUT_S && settle_ms == DELAY_MS && login@
                    == login_text(old(self).username(), old(self).filter()),
                ConnectAction::Retry { sleep_s } => !connected && sleep_s == old(self).delay(),
            },
    {
        if connected {
            self.next_reconnect_delay = 1;
            self.state = ConnectionState::Connected;
            let mut line: Vec<char> = Vec::new();
            push_text(&mut line, "user ");
            push_text(&mut line, self.username.as_str());
            push_text(&mut line, " pass -1 vers ");
            push_text(&mut line, CLIENT_ID);
            push_text(&mut line, " filter ");
            push_text(&mut line, self.aprs_filter.as_str());
            assert(line@ == login_text(self.username@, self.aprs_filter@));
            ConnectAction::LogIn {
                read_timeout_s: READ_TIMEOUT_S,
                settle_ms: DELAY_MS,
                login: from_chars(line.as_slice(), 0, line.len()),
            }
        } else {
            let sleep_s: u64 = self.next_reconnect_delay;
            self.next_reconnect_delay = if sleep_s <= u64::MAX / 2 {
                2 * sleep_s
            } else {
                u64::MAX
            };
            self.state = ConnectionState::Disconnected;
            ConnectAction::Retry { sleep_s }
        }
    }

    /// Sets the filter to the circle of `range` km around the centre
    /// (`lat`, `lon`), given in units of 1e-7 degree. It takes effect with
    /// the next login.
    pub fn set_aprs_filter(&mut self, lat: i64, lon: i64, range: u32)
        ensures
            final(self).filter() == filter_text(lat as int, lon as int, range as nat),
            final(self).address() == old(self).address(),
            final(self).username() == old(self).username(),
            final(self).delay() == old(self).delay(),
            final(self).state() == old(self).state(),
            final(self).last_write() == old(self).last_write(),
            final(self).listener() == old(self).listener(),
    {
        let mut text: Vec<char> = Vec::new();
        push_text(&mut text, "r/");
        push_degrees(&mut text, lat);
        push_text(&mut text, "/");
        push_degrees(&mut text, lon);
        push_text(&mut text, "/");
        push_decimal(&mut text, range as u64);
        assert(text@ == filter_text(lat as int, lon as int, range as nat));
        self.aprs_filter = from_chars(text.as_slice(), 0, text.len());
    }

    /// Frames a line for sending: the message and one line feed. The
    /// keepalive timer starts again at `now`.
    pub fn write(&mut self, message: &str, now: u64) -> (r: String)
        ensures
            r@ == message@.push('\n'),
            final(self).last_write() == now,
            final(self).same_settings(*old(self)),
            final(self).delay() == old(self).delay(),
            final(self).state() == old(self).state(),
            final(self).listener() == old(self).listener(),
    {
        self.last_write = now;
        let mut framed = to_chars(message);
        framed.push('\n');
        from_chars(framed.as_slice(), 0, framed.len())
    }

    /// Takes note of what a read gave and says what to do.
    ///
    /// A line loses its terminator; where something is left of it, the
    /// listener for raw lines hears of it before the caller gets it. The end
    /// of the stream or an error ends the session: the caller connects
    /// again, and nothing is kept of what was read.
    pub fn read(&mut self, outcome: ReadOutcome) -> (r: ReadAction)
        ensures
            old(self).read_gives(outcome, r, *final(self)),
    {
        match outcome {
            ReadOutcome::Line(raw) => {
                let line = strip_line(raw.as_str());
                if line.as_str().unicode_len() > 0 {
                    self.notify_line_listener(line.clone());
                }
                ReadAction::Line(line)
            },
            _ => {
                self.state = ConnectionState::Disconnected;
                ReadAction::Reconnect
            },
        }
    }

    /// Hands a line to the listener for raw lines, if there is one.
    fn notify_line_listener(&mut self, line: String)
        ensures
            old(self).line_handed_over(line, *final(self)),
            final(self).same_settings(*old(self)),
            final(self).delay() == old(self).delay(),
            final(self).last_write() == old(self).last_write(),
            final(self).state() == old(self).state(),
    {
        match &mut self.line_listener {
            Some(listener) => {
                listener.notify(line);
            },
            None => {},
        }
    }

    /// The keepalive line, framed for sending, where none was written for
    /// the keepalive interval; the timer then starts again at `now`.
    pub fn send_keepalive_msg(&mut self, now: u64) -> (r: Option<String>)
        ensures
            final(self).same_settings(*old(self)),
            final(self).delay() == old(self).delay(),
            final(self).state() == old(self).state(),
            final(self).listener() == old(self).listener(),
            match r {
                Some(line) => keepalive_due(old(self).last_write(), now) && line@
                    == KEEPALIVE_LINE@.push('\n') && final(self).last_write() == now,
                None => !keepalive_due(old(self).last_write(), now) && final(self).last_write()
                    == old(self).last_write(),
            },
    {
        if now >= self.last_write && now - self.last_write >= KEEPALIVE_INTERVAL_S {
            Some(self.write(KEEPALIVE_LINE, now))
        } else {
            None
        }
    }

    /// Registers the listener for raw lines in place of the one before.
    pub fn set_line_listener(&mut self, listener: R)
        ensures
            final(self).listener() == Some(listener),
            final(self).same_settings(*old(self)),
            final(self).delay() == old(self).delay(),
            final(self).state() == old(self).state(),
            final(self).last_write() == old(self).last_write(),
    {
        self.line_listener = Some(listener);
    }

    /// Takes the listener for raw lines out of the session.
    pub fn take_line_listener(&mut self) -> (r: Option<R>)
        ensures
            r == old(self).listener(),
            final(self).listener() is None,
            final(self).same_settings(*old(self)),
            final(self).delay() == old(self).delay(),
            final(self).state() == old(self).state(),
            final(self).last_write() == old(self).last_write(),
    {
        self.line_listener.take()
    }

    /// The listener for raw lines.
    pub fn line_listener(&self) -> (r: Option<&R>)
        ensures
            match r {
                Some(listener) => self.listener() == Some(*listener),
                None => self.listener() is None,
            },
    {
        self.line_listener.as_ref()
    }

    /// The seconds to wait after the next failed attempt to connect.
    pub fn next_reconnect_delay(&self) -> (r: u64)
        ensures
            r == self.delay(),
    {
        self.next_reconnect_delay
    }

    pub fn connection_state(&self) -> (r: ConnectionState)
        ensures
            r == self.state(),
    {
        self.state
    }

    pub fn aprs_filter(&self) -> (r: &str)
        ensures
            r@ == self.filter(),
    {
        self.aprs_filter.as_str()
    }
}

/// Removes the carriage returns and line feeds at the end of a line.
pub fn strip_line(raw: &str) -> (r: String)
    ensures
        r@ == strip_terminator(raw@),
{
    let chars = to_chars(raw);
    let mut end: usize = chars.len();
    assert(chars@.take(end as int) == chars@);
    while end > 0 && (chars[end - 1] == '\n' || chars[end - 1] == '\r')
        invariant
            end <= chars@.len(),
            chars@ == raw@,
            strip_terminator(chars@) == strip_terminator(chars@.take(end as int)),
        decreases end,
    {
        assert(chars@.take(end as int).drop_last() == chars@.take(end - 1));
        end -= 1;
    }
    assert(chars@.take(end as int) == chars@.subrange(0, end as int));
    from_chars(chars.as_slice(), 0, end)
}

} // verus!
