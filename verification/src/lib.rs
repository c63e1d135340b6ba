//! Core machinery of a request/response gateway pipeline: a shared typed
//! context for cross-stage signalling, a peekable stream of response
//! payloads, interceptor composition, transport-status negotiation, and
//! classification of opaque stage errors.

pub mod context;
pub mod errclass;
pub mod payload;
pub mod pipeline;
pub mod plugins;
pub mod registry;
pub mod stages;
pub mod stream;
pub mod transport;
pub mod values;
