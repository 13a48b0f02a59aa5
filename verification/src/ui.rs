//! The local helper's desktop face: the tray ([`tray`]) and its status window ([`window`]).

pub mod tray;
pub mod window;
