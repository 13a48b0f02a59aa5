//! Shared core of the local tray helper and the public compile server: a translating proxy from
//! the editor's WS envelope to the arduino-cli daemon.

pub mod cloud;
pub mod error;
pub mod outside;
pub mod server;
pub mod service;
pub mod strmap;
pub mod text;
pub mod ui;
pub mod utils;
