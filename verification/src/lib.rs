//! Request-scoped middleware logic for HTTP services: request identifiers,
//! error envelopes, trace propagation and structured request logging.
//!
//! Each stage of the chain is a value with an `on_request` and an
//! `on_response` function (or only the latter). The caller owns the loop: it
//! hands the request to `on_request`, runs the rest of the chain, and hands
//! the response to `on_response`. The stages are meant to run in this order:
//! identifier, logging, error, trace, handler.

pub mod clacks;
pub mod context;
pub mod ids;
pub mod json;
pub mod json_error;
pub mod logger;
pub mod logging;
pub mod pipeline;
pub mod propagation;
pub mod record;
pub mod requestid;
pub mod setup;
pub mod span_id;
pub mod status;
pub mod text;
pub mod trace;

pub use clacks::ClacksMiddleware;
pub use ids::{CorrelationId, Never, RequestId};
pub use json_error::{JsonError, JsonErrorMiddleware};
pub use logger::LogMiddleware;
pub use propagation::Propagation;
pub use requestid::RequestIdMiddleware;
pub use trace::TraceMiddleware;
