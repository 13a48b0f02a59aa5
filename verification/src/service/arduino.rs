//! The arduino-cli backend: the daemon's start ([`daemon`]), the gRPC messages ([`grpc`]), and the
//! WS-envelope translator ([`bridge`]) that ties them to the WS server.

pub mod bridge;
pub mod daemon;
pub mod grpc;
