//! Device transactions and the decisions of the device actor.
pub mod bus;
pub mod pid;
pub mod curve;
pub mod session;
pub mod handle;
