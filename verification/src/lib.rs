//! Metadata model for a multiplexed-media container abstraction layer.
//!
//! The crate describes timing and per-stream identity for frames, packets and
//! logical streams moving through a demux/mux pipeline: a per-sample timing
//! record, a per-stream descriptor owning codec parameters and an opaque
//! caller payload, and a read-only grouping view over a set of streams.
//! A serialized representation of these values is modelled as data, together
//! with proved round-trip laws.

pub mod params;
pub mod payload;
pub mod rational;
pub mod ser;
pub mod stream;
pub mod timeinfo;

pub use params::CodecParams;
pub use payload::OpaquePayload;
pub use rational::Rational64;
pub use stream::{Stream, StreamGroup};
pub use timeinfo::TimeInfo;
