//! A descriptor multiplexing layer for a synchronous, turn-based server.
//!
//! The library exposes one uniform capability contract — [`descriptor::Descriptor`]
//! and [`descriptor::DescriptorManager`] — for heterogeneous transports: raw TCP
//! sockets, managed sockets fed by a background accept loop, and chat-platform
//! direct-message conversations. Every backend turns its transport into
//! non-blocking byte-stream read/write semantics suitable for a poll-per-tick
//! consumer: "would block" and "nothing queued" are always `Ok(0)` or "none
//! available", never errors, and within one descriptor bytes are delivered in
//! the order they were produced.

pub mod boundary;
pub mod buffer;
pub mod descriptor;
pub mod slack;
pub mod socket;
