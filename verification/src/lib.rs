//! Next-train departures for one station of the Melbourne rail network.
//!
//! Given a station name, the library plans one authenticated departures
//! query per travel direction (HMAC-SHA1 signed URLs), evaluates the two
//! outcomes, converts departure timestamps into whole minutes from now,
//! and assembles a status-coded response.

pub mod numfmt;
pub mod ptv;
pub mod resolve;
pub mod response;
pub mod settings;
pub mod stations;
pub mod strutil;
