//! A verified core for a streaming audio/video encode pipeline.
//!
//! A producer hands frame-numbered raw video and audio buffers to a
//! collector, which batches them and enqueues them for a single-threaded
//! encode worker.  The worker lazily builds an encoding session from a
//! `Configure` frame, drives per-stream filter and encoder stages in a
//! fixed priority order, and on `End` drains both pipelines before
//! signalling end-of-stream and writing the container trailer.
//!
//! The scheduling, draining and finalization decisions are pure functions
//! here, so they are proved once and exercised both by the in-memory
//! pipeline model in [`pipeline`] and by an unverified backend driver.

pub mod args;
pub mod planes;
pub mod sink;
pub mod worker;
pub mod timestamp;
pub mod pipeline;
pub mod filter_args;
pub mod logger;
