use vstd::prelude::*;

verus! {

/// Errors of the protocol engine and session layer.
///
/// Codec errors (`InvalidBcd`, `InvalidFrame`, `FrequencyOutOfRange`,
/// `UnknownMode`) are always returned to the immediate caller. `Ng` is a
/// protocol-level outcome (the device rejected a command), distinct from
/// transport failures.
#[derive(Debug, Clone, Copy, PartialEq, Eq, Structural)]
pub enum CivError {
    /// The transport failed with an I/O error.
    Io,
    /// No matching serial device was found.
    PortNotFound,
    /// A structurally invalid frame: too short, or a field failed validation.
    InvalidFrame,
    /// The device returned NG (command rejected).
    Ng,
    /// No qualifying reply arrived before the deadline.
    Timeout,
    /// A nibble above 9 was met while decoding, or a value above 99 while
    /// encoding; holds the offending byte or value.
    InvalidBcd(u8),
    /// A frequency above the 10-decimal-digit bound; holds the value in Hz.
    FrequencyOutOfRange(u64),
    /// An undecodable (mode, filter) byte pair; holds the mode byte.
    UnknownMode(u8),
}

} // verus!
