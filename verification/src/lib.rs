//! Adapter between a provider-agnostic chat/tool-calling conversation model
//! and the vendor's `responses` wire format, in synchronous and streamed
//! modes: a request body builder, a streaming event reducer, a synchronous
//! response extractor, and an error classifier.

pub mod client;
pub mod history;
pub mod json;
pub mod model;
pub mod reply;
pub mod request;
pub mod stream;
pub mod wire;
