//! Which device backend the tool talks to, and the in-memory mock device.
pub mod mock;
pub mod mode;
