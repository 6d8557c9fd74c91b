//! Driver for the MAX5214 and MAX5216 serial digital-to-analog converters.
//!
//! A command is packed into a fixed-size frame and written over the transport
//! while the chip-select line is held low.

pub mod bus;
pub mod frame;
pub mod max5214;
pub mod max5216;

pub use bus::{Bus, BusEvent, TransferError};
pub use frame::{ControlBits, PowerDownMode};
pub use max5214::MAX5214;
pub use max5216::MAX5216;
