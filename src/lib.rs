//! Typed records for streaming-tariff requests and events, with field codecs
//! for identifiers, addresses, timestamps and human-readable durations.

pub mod span;
pub mod error;
pub mod ident;
pub mod instant;
pub mod event;
pub mod request;
