//! Admission control for an anonymous posting relay: fixed-window counters per
//! key and scope, limiters that derive keys from requests, ordered pipelines of
//! limiters that stop at the first denial, and the responses that report a
//! denial or relay an upstream answer.

pub mod policy;
pub mod store;
pub mod limiter;
pub mod pipeline;
pub mod laws;
pub mod text;
pub mod responder;
pub mod relay;
pub mod pages;
