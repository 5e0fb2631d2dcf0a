//! Typed request and response documents of a model-response HTTP service,
//! their JSON wire form, builders, and the single-call dispatch.
pub mod builders;
pub mod error;
pub mod input;
pub mod json;
pub mod laws;
pub mod request;
pub mod response;
pub mod responses;
pub mod tool;
pub mod wire;
