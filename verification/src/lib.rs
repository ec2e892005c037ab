//! A verified core for a metrics-collecting reverse proxy that sits in front
//! of an OpenAI-style inference server.
//!
//! The crate holds the logic of one proxied exchange: deciding whether a
//! request is tracked, building the upstream target URL, turning a buffered
//! upstream reply into a finalized metrics record, accumulating metrics from a
//! streamed reply frame by frame, and mapping failures to client-visible
//! errors. The surrounding HTTP server, the pooled client and the persistence
//! store drive these functions and perform the actual I/O.

pub mod classify;
pub mod config;
pub mod dispatch;
pub mod error;
pub mod forward;
pub mod record;
pub mod relay;
pub mod response;
pub mod stats;
