//! A real-time chat hub: the presence registry of connected users, the
//! bounded broadcast fan-out, the wire formats and the per-connection
//! session state machine.
pub mod presence;
pub mod hub;
pub mod wire;
pub mod session;
pub mod control;
pub mod laws;
