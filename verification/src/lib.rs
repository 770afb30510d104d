//! A sink that relays events between Vector instances over gRPC.
//!
//! The sink works in one of two modes. In push mode it connects to a downstream
//! instance and sends it batches of events. In serve mode it listens, and
//! downstream instances pull the events from it.
//!
//! The crate holds the rules of the sink: how an address becomes a URI, which
//! configuration is the default, in which order a sink is put together, what a
//! health check concludes, which failures are worth a retry, and what becomes of
//! each batch of a serving sink. Sockets, timers and tasks are the caller's.

pub mod compression;
pub mod config;
pub mod emitter;
pub mod grpc;
pub mod laws;
pub mod serve;
pub mod setup;
pub mod setup_laws;
pub mod uri;
