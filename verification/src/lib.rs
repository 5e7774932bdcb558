//! A packet-classification engine: it inspects one raw Ethernet frame at a
//! time and decides whether the host should forward or drop it. The single
//! policy is to drop UDP datagrams addressed to port 53 (DNS) and to pass
//! everything else, including every frame too short or too foreign to be
//! parsed (fail-open).
//!
//! The engine is a pure function of the frame's bytes: it never writes to the
//! buffer, allocates, or keeps state across calls. Hosts (a kernel fast-path
//! hook, a user-space burst loop) wrap it with their own buffer handling and
//! map the verdict to their own actions.

pub mod buffer;
pub mod classifier;
pub mod headers;

pub use buffer::be16;
pub use classifier::classify;
pub use classifier::try_classify;
pub use classifier::Verdict;
