//! Verified core of a small actor-based scene server: the length-prefixed
//! wire protocol, the protobuf messages it carries, the scene registry and the
//! decisions that the router actor takes for each connection.
pub mod wire;
pub mod protos;
pub mod errors;
pub mod actor;
pub mod scene;
pub mod router;
pub mod config;
