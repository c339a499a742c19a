//! The hike club API's logic: request admission and version negotiation,
//! AWS SigV4 presigning of R2 map URLs, the location list as JSON, the staged
//! assembly of a hike response under versions 2 and 3, and the weather
//! blocks built from an NWS hourly forecast or, for a past hike, from the
//! readings of the nearest reporting station. The worker runtime, network and storage calls, JSON
//! (de)serialization of the response types and floating-point formulas live
//! in the application around this library.
pub mod admission;
pub mod auth;
pub mod float;
pub mod handler;
pub mod models;
pub mod r2;
pub mod strings;
pub mod time;
pub mod version;
pub mod weather;
