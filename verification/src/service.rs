//! What the channels talk to: the arduino-cli daemon ([`arduino`]), the BLE radio ([`ble`]) and
//! the served packs ([`resource`]).

pub mod arduino;
pub mod ble;
pub mod resource;
