//! The server for ABCI 0.37: its builder, and the decisions that a connection
//! makes between reading requests and writing responses.

pub mod server;
pub mod connection;
pub mod split;
