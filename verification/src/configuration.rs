//! Constants of the feed client: the server, the timings, and the line grammars.

use vstd::prelude::*;

verus! {

/// How long the client waits after connecting before it logs in, in milliseconds.
pub const DELAY_MS: u64 = 1000;

/// How long one read may block, in seconds.
pub const READ_TIMEOUT_S: u64 = 10;

/// After how many seconds without a write a keepalive line is due.
pub const KEEPALIVE_INTERVAL_S: u64 = 120;

pub const SERVER_ADDR: &'static str = "aprs.glidernet.org:14580";

/// The area filter in force until `set_aprs_filter` gives another.
pub const DEFAULT_APRS_FILTER: &'static str = "r/49.3678/16.1144/99999";

/// The client name and version sent at login.
pub const CLIENT_ID: &'static str = "rustClient 0.0.1";

/// The comment line that keeps an idle session alive.
pub const KEEPALIVE_LINE: &'static str = "#keepalive";

/// An aircraft beacon with device id, vertical speed and turn rate.
pub const AIRCRAFT_REGEX1: &'static str =
    "^([A-Z]{3})(.{6}).+?/([0-9]{6})h([0-9.]+?)([NS]).([0-9.]+?)([EW])(.{1})(\\d{3})/(\\d{3})/A=([-0-9]+).+?id(.{2})(.{6}).([+-0123456789]+?)fpm.([+-0123456789]+?)rot";

/// An aircraft beacon with device id and vertical speed.
pub const AIRCRAFT_REGEX2: &'static str =
    "^([A-Z]{3})(.{6}).+?/([0-9]{6})h([0-9.]+?)([NS]).([0-9.]+?)([EW])(.{1})(\\d{3})/(\\d{3})/A=([-0-9]+).+?id(.{2})(.{6}).([+-0123456789]+?)fpm";

/// An aircraft beacon with device id only.
pub const AIRCRAFT_REGEX3: &'static str =
    "^([A-Z]{3})(.{6}).+?/([0-9]{6})h([0-9.]+?)([NS]).([0-9.]+?)([EW])(.{1})(\\d{3})/(\\d{3})/A=([-0-9]+).+?id(.{2})(.{6})";

/// An aircraft beacon with position, course, speed and altitude only.
pub const AIRCRAFT_REGEX4: &'static str =
    "^([A-Z]{3})(.{6}).+?/([0-9]{6})h([0-9.]+?)([NS]).([0-9.]+?)([EW])(.{1})(\\d{3})/(\\d{3})/A=([-0-9]+)";

/// A SafeSky beacon.
pub const SKY_REGEX: &'static str =
    "^([A-Z]{3})([A-F0-9]{6}).+?([0-9]+)h([0-9.]+?)([NS])/([0-9.]+?)([EW])(.{1})(\\d{3})/(\\d{3})/A=([-0-9]+).+?id(.{2})(.{6}).([+-0123456789]+?)fpm";

/// A beacon relayed in the NEMO wrapper.
pub const NEMO_REGEX: &'static str =
    "(.+?)>OGNEMO,qAS.+?/([0-9]+)h([0-9.]+?)([NS]).([0-9.]+?)([EW])(.{1})(\\d{3})/(\\d{3})/A=([-0-9]+).+?id(.{2})(.{6}).([+-0123456789]+?)fpm.([+-0123456789]+?)rot";

} // verus!
