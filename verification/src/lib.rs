//! An interface for ABCI built on Tower's `Service` abstraction: the framing
//! of ABCI messages on the wire, the request and response categories, the
//! server builder, and the scheduling decisions of a connection and of the
//! prioritised worker.

pub mod buf;
pub mod varint;
pub mod codec;
pub mod request;
pub mod response;
pub mod server;
pub mod v037;
pub mod buffer4;
pub mod split;
