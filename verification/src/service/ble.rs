//! The `/io` BLE channel. It shares nothing with the flash channel, so that either can be torn out
//! alone.

pub mod protocol;
pub mod session;
pub mod transport;
