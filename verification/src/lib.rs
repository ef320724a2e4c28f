//! The runtime-facing half of a dataflow node: an event multiplexer and a
//! typed output channel.
//!
//! A node receives events from the dataflow runtime (its *native* stream) and
//! may merge that stream with externally supplied sequences of opaque host
//! values. All consumption goes through one ordered point, items tagged by
//! origin; outputs are emitted as typed, metadata-tagged buffers. The driving
//! of the underlying asynchronous sources (polling, blocking, host-value
//! marshalling) belongs to the embedding process; this library holds the
//! verified multiplexer state machine and the output encoding.

pub mod event;

pub mod adapter;

pub mod events;

pub mod output;

pub mod node;

pub mod laws;
