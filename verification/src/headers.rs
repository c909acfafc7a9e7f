//! Plain-value models of the IPv4 and TCP headers that the core reads and
//! writes.
//!
//! The on-wire encoding and decoding of these headers is the job of an
//! outside codec crate; the state machine itself only ever looks at the
//! fields below, so it works on these two structs. Addresses are carried as
//! big-endian `u32` values.

use vstd::prelude::*;

verus! {

/// IPv4 protocol number of TCP.
pub const IP_PROTO_TCP: u8 = 6;

/// Time-to-live set on every outbound datagram.
pub const OUTBOUND_TTL: u8 = 64;

/// Length in bytes of an IPv4 header without options.
pub const IPV4_HEADER_LEN: usize = 20;

/// Length in bytes of a TCP header without options.
pub const TCP_HEADER_LEN: usize = 20;

/// Size in bytes of the largest frame the core will emit.
pub const MTU: usize = 1500;

/// The fields of an IPv4 header that the core reads or fills in.
#[derive(Clone, Copy, PartialEq, Eq, Structural, Debug)]
pub struct Ipv4Repr {
    /// Source address, big-endian.
    pub source: u32,
    /// Destination address, big-endian.
    pub destination: u32,
    /// Protocol number of the carried payload.
    pub protocol: u8,
    /// Time to live.
    pub ttl: u8,
    /// Length in bytes of the carried payload (TCP header plus data).
    pub payload_len: u16,
}

/// The fields of a TCP header that the core reads or fills in.
#[derive(Clone, Copy, PartialEq, Eq, Structural, Debug)]
pub struct TcpRepr {
    pub source_port: u16,
    pub destination_port: u16,
    /// Sequence number of the first byte of the segment.
    pub seq: u32,
    /// Acknowledgment number; meaningful only when `ack` is set.
    pub ackn: u32,
    /// Advertised window.
    pub window: u16,
    pub syn: bool,
    pub ack: bool,
    pub fin: bool,
    pub rst: bool,
    /// Internet checksum over pseudo-header, TCP header and payload.
    pub checksum: u16,
}

/// The logical length a segment occupies in sequence-number space:
/// its payload bytes, plus one for SYN, plus one for FIN.
pub open spec fn seg_len(payload_len: nat, tcph: TcpRepr) -> nat {
    payload_len + (if tcph.syn { 1nat } else { 0nat }) + (if tcph.fin { 1nat } else { 0nat })
}

} // verus!
