//! A throttling reverse proxy: it forwards all requests to upstream under a
//! limit on concurrency, queues the overflow, and streams responses back
//! transparently.
//!
//! A permit of a semaphore is held for as long as an upstream request is in
//! flight. It is released when the response ends: on completion, client
//! disconnect, upstream error or idle timeout.
//!
//! The library decides; it performs no I/O and reads no clock. What happened
//! and when is handed to it, and it says what to do next:
//!
//! - [`proxy_handler`] moves a request from its arrival to its answer,
//! - [`PermitBody`] moves a streamed response to its end,
//! - [`sample_usage_after_429`] moves a usage sample to its line in the log.
//!
//! What single operations give is proved in [`outcomes`], what becomes of a
//! request from its arrival to its end in [`journey`], and what holds of all
//! requests together in [`laws`].

pub mod body;
pub mod config;
pub mod duration;
pub mod handler;
pub mod headers;
pub mod journey;
pub mod laws;
pub mod log;
pub mod outcomes;
pub mod permit;
pub mod reply;
pub mod state;
pub mod text;
pub mod upstream;
pub mod usage;

pub use body::PermitBody;
pub use config::Config;
pub use duration::Duration;
pub use handler::proxy_handler;
pub use state::AppState;
pub use usage::sample_usage_after_429;
