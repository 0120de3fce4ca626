//! Client-side request dispatch for an HTTP client: header overlays over a
//! shared request head, body-encoding entry points, and the poll-driven task
//! that races a deadline against the transport's send operation and shapes
//! the response body.

pub mod encode;
pub mod error;
pub mod head;
pub mod header;
pub mod response;
pub mod sender;
