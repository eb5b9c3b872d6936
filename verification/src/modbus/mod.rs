//! The controller's Modbus register map and the conversions around it.
pub mod convert;
pub mod registers;
pub mod validate;
