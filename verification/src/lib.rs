//! Core logic of a double-buffered frame presentation pipeline.
//!
//! A renderer produces frames into GPU-shareable buffers and hands them to a
//! remote consumer, while the same buffers drive a local preview window. This
//! crate holds the verified heart of that exchange: pixel-format negotiation,
//! a model of the buffer allocator, the ring of buffer slots with its
//! ownership states, and the event-driven decisions of the presentation loop.
//! The unverified shell around it performs the actual GPU, window-system and
//! channel calls and feeds their outcomes back in as plain values.

pub mod buffer;
pub mod format;
pub mod pipeline;
pub mod ring;
pub mod surface;
