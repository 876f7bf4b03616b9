//! Client-side session layer for a msgpack-RPC peer: structured protocol
//! values, request/response/notification envelopes, call correlation, and
//! the capability handshake that yields the peer's type identifiers.

pub mod api;
pub mod codec;
pub mod correlator;
pub mod envelope;
pub mod metadata;
pub mod session;
pub mod value;

pub use api::{ApiInfo, Function};
pub use metadata::{GetMetadataError, Metadata};
pub use session::Session;
pub use value::Value;
