//! Transport layer: frame decoding, server control messages, upgrade
//! decisions and the per-connection state machine.

pub mod admission;
pub mod codec;
pub mod conn;
pub mod handshake;
pub mod steady;
pub mod sysmsg;
