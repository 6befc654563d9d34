//! Exchange connectivity: a protocol-agnostic pipeline that turns transport frames into
//! normalised market events, with per-subscription sequencing.

pub mod text;
pub mod model;
pub mod error;
pub mod protocol;
pub mod time;
pub mod stream;
pub mod market;
pub mod binance;
pub mod explore;
pub mod encoder;
pub mod rest;
pub mod laws;
