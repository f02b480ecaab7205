//! Measures the phase latencies of one HTTP/1.0 request: DNS resolution, TCP
//! connect, TLS handshake, request send, time to first byte and content
//! download.
//!
//! The library holds the decisions of a request: how the input URL is
//! normalized, which port is resolved, what bytes are sent, how the response
//! head is parsed, how the body is read and decoded, and how the phase
//! durations add up. The blocking socket and TLS work is done by the caller,
//! which drives a [`session::Session`] through its phases.
use vstd::prelude::*;

pub mod duration;
pub mod timings;
pub mod error;
pub mod text;
pub mod target;
pub mod head;
pub mod decode;
pub mod session;

pub use error::TimingError;
pub use session::{Action, Event, Phase, RequestOutput, Session, Step};
pub use timings::{DurationPair, RequestTimings};
