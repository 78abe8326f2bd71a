//! The byte-oriented transport boundary under the session.

use vstd::prelude::*;

use crate::error::CivError;

verus! {

/// A byte-oriented transport for the serial link.
///
/// Implementors provide read/write access to a serial-like connection; the
/// transport is synchronous and blocking. Nothing is assumed about the
/// bytes a transport delivers: the session is verified against every
/// possible outcome of these calls.
pub trait Transport {
    /// Write all bytes to the transport.
    fn write_all(&mut self, buf: &[u8]) -> Result<(), CivError>;

    /// Flush any buffered output.
    fn flush(&mut self) -> Result<(), CivError>;

    /// Read whatever bytes arrived within the configured read timeout. An
    /// empty chunk, or `Err(Timeout)`, means the timeout lapsed with
    /// nothing to read; implementations must not block past it.
    fn read(&mut self) -> Result<Vec<u8>, CivError>;

    /// Set the timeout for subsequent `read` calls, in milliseconds.
    fn set_read_timeout(&mut self, ms: u64) -> Result<(), CivError>;
}

} // verus!
