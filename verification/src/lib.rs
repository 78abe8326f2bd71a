//! Protocol engine and session layer for a CI-V style radio control link.
//!
//! The crate covers the wire-frame codec, the binary-coded-decimal numeric
//! codecs, the typed command/response model built on those frames, and the
//! stateful session that turns a half-duplex, echoing byte stream into a
//! reliable request/response channel.

pub mod bcd;
pub mod command;
pub mod control;
pub mod error;
pub mod frequency;
pub mod mode;
pub mod protocol;
pub mod radio;
pub mod response;
pub mod transport;

pub use control::{Vfo, VfoState};
pub use error::CivError;
pub use frequency::Frequency;
pub use mode::OperatingMode;
pub use radio::{Radio, RadioConfig};
pub use transport::Transport;
