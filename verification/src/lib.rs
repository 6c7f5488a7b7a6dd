//! Decoder for aircraft position beacons carried on an APRS-IS text feed,
//! together with the connection policy of the feed client.
//!
//! The library uses no floating point. Angles are fixed-point integers,
//! altitude and speed are rounded to whole units, and what the feed writes
//! as a decimal number is held as a `decimal::Decimal`, not rounded; see
//! the fields of `data_structures::AircraftBeacon`.

pub mod aprs_server_connection;
pub mod client;
pub mod clock;
pub mod configuration;
pub mod data_structures;
pub mod decimal;
pub mod decoder;
pub mod fields;
pub mod number_text;
pub mod pattern;
pub mod text;
pub mod units;
pub mod utils;

pub use client::OgnClient;
pub use decoder::MyLineListener;
