//! Client core for a WebSocket JSON-RPC trading endpoint.
//!
//! The library renders the fixed set of typed requests to their exact wire
//! text, models the one-request-in-flight round trip as a small state
//! machine, and classifies every reply frame into a parsed value or a
//! reported error. The socket itself lives outside the library; callers
//! write the rendered text, read one frame, and feed the outcome back in.

pub mod connection;
pub mod json;
pub mod types;
