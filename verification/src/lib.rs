//! A synthetic telemetry source: the configuration that an operator changes
//! while data flows, the column layout that follows from it, the batches of
//! waveform samples, and the decisions of the two loops of a streaming session,
//! the producer that paces the batches and the consumer that sends them.
//!
//! The library decides and describes; it performs no input or output and no
//! floating-point arithmetic. Its caller reads the clocks, evaluates the
//! samples, encodes and transmits the frames, and sleeps for as long as the
//! library says.
pub mod binary64;
pub mod consumer;
pub mod data_gen;
pub mod parameters;
pub mod producer;
mod random;
pub mod schema;
pub mod signal;
pub mod state;
