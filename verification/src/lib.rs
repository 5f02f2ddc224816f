//! A JSON-RPC 2.0 request dispatch core.
//!
//! The core reads the bytes of a payload as one request or as a batch of
//! requests, finds the handler of each request in a [`Registry`], decides
//! what is sent back for the outcome of each call, and puts the reply
//! together. It leaves the transport, and the making of handlers, to its
//! callers.

pub mod batch;
pub mod dispatch;
pub mod json;
pub mod laws;
pub mod order;
pub mod payload;
pub mod protocol;
pub mod registry;
pub mod text;

pub use batch::Batch;
pub use dispatch::{answer, batch_reply, single_reply, Job, Step};
pub use payload::{decode, Payload};
pub use protocol::{Error, Id, Request, Response};
pub use registry::{Provider, Registry};
