//! A userspace TCP (RFC 793) core for a point-to-point TUN interface:
//! wrap-safe sequence arithmetic, per-connection state machines, outbound
//! segment construction, and demultiplexing of inbound frames.

pub mod codec;
pub mod demux;
pub mod headers;
pub mod seqnum;
pub mod tcp;
