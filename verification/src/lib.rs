//! A relay that mirrors a stream of byte chunks to a malware-scanning daemon
//! while passing the chunks through to the consumer unchanged.
//!
//! The daemon dialogue uses a length-prefixed streaming protocol: a fixed
//! preamble, then each chunk split into sub-chunks of at most 4096 bytes and
//! sent behind a 4-byte big-endian length, then a 4-byte zero terminator.
//! The daemon's whole response is then read and classified: a response that
//! contains `"OK"` and not `"FOUND"` is clean, anything else is a verdict
//! carrying the response text.
//!
//! The crate holds the relay's state machine ([`ScannedStream`]), the wire
//! encoding ([`wire`]), and the response classification ([`verdict`]); the
//! caller drives the machine with the events it observes on its upstream
//! source and performs the connection I/O that each returned action asks for.

pub mod error;
pub mod relay;
pub mod verdict;
pub mod wire;

pub use error::Error;
pub use relay::{Action, Event, ScannedStream};
pub use verdict::classify_response;
pub use wire::CHUNK_SIZE;
