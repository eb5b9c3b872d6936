//! Verified core of the Yudian AI-516/518 temperature controller tool:
//! Modbus register encoding, validation, device transactions and the
//! monitoring policy.
use vstd::prelude::*;

pub mod backend;
pub mod device;
pub mod error;
pub mod modbus;
pub mod monitoring;
pub mod text;
pub mod types;

verus! {

} // verus!
