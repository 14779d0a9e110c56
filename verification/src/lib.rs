//! Verified core of the Handier enhancement sidecar: the line-delimited JSON
//! protocol spoken between the app and the `handier-llm` inference process,
//! the decisions of the sidecar's request loop, and the client-side state
//! machine that owns the process.

pub mod json;
pub mod text;
pub mod protocol;
pub mod client;
pub mod locate;
pub mod laws;

pub use client::{ClientError, Delivery, Launch, PromptStyle, SidecarClient};
pub use protocol::{elapsed_ms, handle, Request, Response};
