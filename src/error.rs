//! The ways a request can fail.
use vstd::prelude::*;

verus! {

/// Why a request failed. Each kind carries a message.
#[derive(Debug)]
pub enum TimingError {
    /// The input was empty, malformed, of an unsupported scheme or without host;
    /// no network work was done.
    Input(String),
    /// Resolution, connect, handshake, write or read failed.
    Network(String),
    /// The response had no readable status line, or its body did not decode.
    Data(String),
    /// A duration sum exceeded what a `Duration` holds.
    Overflow(String),
}

} // verus!
