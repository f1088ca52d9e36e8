//! Wire protocol and bridge logic for a vehicle controller that is reached
//! over a serial line, or over a serial line bridged to a Bluetooth Low
//! Energy peripheral.
//!
//! Everything here is pure: transports, clocks and typed payload
//! (de)serialisation are supplied by the caller.

pub mod ble;
pub mod bridge;
pub mod client;
pub mod command;
pub mod discovery;
pub mod error;
pub mod frame;
pub mod menu;
pub mod payload;
pub mod response;
pub mod serial;
pub mod text;
