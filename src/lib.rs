//! Tracks the active keyboard layout group of a windowing session through the
//! keyboard extension of its server: the poll-or-suspend waits on the
//! connection, the startup handshake and the change-event state machine.

pub mod retry;
pub mod session;
pub mod startup;
