//! What the browser or editor faces: the flash channel's WS envelope and the HTTP JSON API.

pub mod api;
pub mod batch;
pub mod protocol;
pub mod router;
pub mod session;
