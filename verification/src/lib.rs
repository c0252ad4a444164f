//! Verified core of a strictly synchronous, single-in-flight JSON-RPC 2.0
//! GPIO control server: one request line in, at most one response line out.
//!
//! - [`protocol`]: the typed request model (methods and their parameters).
//! - [`rpc`]: the JSON-RPC envelope model: ids, error objects, replies, and
//!   the trusted calls that parse and print JSON-RPC messages.
//! - [`dispatch`]: what a request line is answered with, the backend traits,
//!   the in-memory backends and the device backend's decisions.
//! - [`server`]: NDJSON line framing with a bounded line buffer, and the
//!   serving loop's decisions.
//! - [`transport`]: the device transport's timeout decisions.
//! - [`rgb`]: bit encoding for the on-board WS2812 pixel.

pub mod dispatch;
pub mod protocol;
pub mod rgb;
pub mod rpc;
pub mod server;
pub mod transport;
