//! The boundary to the outside header codec crate (`etherparse`).
//!
//! The core never reads or writes header bytes itself: decoding a header into
//! an [`Ipv4Repr`]/[`TcpRepr`], encoding one back into bytes, and computing
//! the TCP checksum are all done by `etherparse` behind the trusted wrappers
//! below. Exact byte layouts and the checksum value are a function of the
//! wrapper arguments alone, so they are given names (`ipv4_header_bytes`,
//! `tcp_header_bytes`, `tcp_checksum_of`, `ipv4_parse_of`, `tcp_parse_of`)
//! that the contracts of the verified callers speak of.

use vstd::prelude::*;

use crate::headers::{Ipv4Repr, TcpRepr};

verus! {

/// The 20 bytes that the codec serializes an (option-free) IPv4 header to,
/// header checksum included.
pub uninterp spec fn ipv4_header_bytes(h: Ipv4Repr) -> Seq<u8>;

/// The 20 bytes that the codec serializes an (option-free) TCP header to.
pub uninterp spec fn tcp_header_bytes(h: TcpRepr) -> Seq<u8>;

/// The RFC 793 Internet checksum over the IPv4 pseudo-header, the TCP header
/// and the payload. It does not depend on the checksum field of `t` itself.
pub uninterp spec fn tcp_checksum_of(ip: Ipv4Repr, t: TcpRepr, payload: Seq<u8>) -> u16;

/// What the codec decodes from the start of `b` when asked for an IPv4
/// header: the header fields and the header's length in bytes, or nothing
/// when `b` does not start with a well-formed IPv4 header.
pub uninterp spec fn ipv4_parse_of(b: Seq<u8>) -> Option<(Ipv4Repr, usize)>;

/// What the codec decodes from the start of `b` when asked for a TCP header.
pub uninterp spec fn tcp_parse_of(b: Seq<u8>) -> Option<(TcpRepr, usize)>;

/// Relies on `etherparse::Ipv4Header::write`: serializes the header (with a
/// freshly computed header checksum) as 20 bytes, there being no options.
/// `etherparse::Ipv4Header::new` rejects a payload length above 65515.
#[verifier::external_body]
pub(crate) fn write_ipv4_header(h: &Ipv4Repr) -> (r: Vec<u8>)
    requires
        h.payload_len <= 65515,
    ensures
        r@ == ipv4_header_bytes(*h),
        r@.len() == 20,
{
    let hdr = etherparse::Ipv4Header::new(
        h.payload_len,
        h.ttl,
        etherparse::IpNumber(h.protocol),
        h.source.to_be_bytes(),
        h.destination.to_be_bytes(),
    )
    .unwrap();
    let mut out: Vec<u8> = Vec::new();
    hdr.write(&mut out).unwrap();
    out
}

/// Relies on `etherparse::TcpHeader::write`: serializes the header as 20
/// bytes, there being no options; the stored checksum field is written as is.
#[verifier::external_body]
pub(crate) fn write_tcp_header(h: &TcpRepr) -> (r: Vec<u8>)
    ensures
        r@ == tcp_header_bytes(*h),
        r@.len() == 20,
{
    let mut hdr = etherparse::TcpHeader::new(h.source_port, h.destination_port, h.seq, h.window);
    hdr.acknowledgment_number = h.ackn;
    hdr.syn = h.syn;
    hdr.ack = h.ack;
    hdr.fin = h.fin;
    hdr.rst = h.rst;
    hdr.checksum = h.checksum;
    let mut out: Vec<u8> = Vec::new();
    hdr.write(&mut out).unwrap();
    out
}

/// Relies on `etherparse::TcpHeader::calc_checksum_ipv4`: computes the
/// checksum from the header fields (its stored checksum field is ignored),
/// the two addresses of the IPv4 header and the payload. It rejects a
/// payload longer than 65515 bytes.
#[verifier::external_body]
pub(crate) fn compute_tcp_checksum(ip: &Ipv4Repr, t: &TcpRepr, payload: &[u8]) -> (c: u16)
    requires
        payload@.len() <= 65515,
    ensures
        c == tcp_checksum_of(*ip, *t, payload@),
{
    let mut hdr = etherparse::TcpHeader::new(t.source_port, t.destination_port, t.seq, t.window);
    hdr.acknowledgment_number = t.ackn;
    hdr.syn = t.syn;
    hdr.ack = t.ack;
    hdr.fin = t.fin;
    hdr.rst = t.rst;
    hdr.calc_checksum_ipv4_raw(ip.source.to_be_bytes(), ip.destination.to_be_bytes(), payload)
        .unwrap()
}

/// Relies on `etherparse::Ipv4HeaderSlice::from_slice`: accepts only a slice
/// that starts with a well-formed IPv4 header, whose length (`ihl * 4`) is
/// between 20 and the slice length.
#[verifier::external_body]
pub(crate) fn parse_ipv4(buf: &[u8]) -> (r: Option<(Ipv4Repr, usize)>)
    ensures
        r == ipv4_parse_of(buf@),
        r matches Some(p) ==> 20 <= p.1 <= buf@.len(),
{
    match etherparse::Ipv4HeaderSlice::from_slice(buf) {
        Ok(s) => Some((
            Ipv4Repr {
                source: u32::from_be_bytes(s.source()),
                destination: u32::from_be_bytes(s.destination()),
                protocol: s.protocol().0,
                ttl: s.ttl(),
                payload_len: s.payload_len().unwrap_or(0),
            },
            s.slice().len(),
        )),
        Err(_) => None,
    }
}

/// Relies on `etherparse::TcpHeaderSlice::from_slice`: accepts only a slice
/// that starts with a well-formed TCP header, whose length (`data offset *
/// 4`) is between 20 and the slice length.
#[verifier::external_body]
pub(crate) fn parse_tcp(buf: &[u8]) -> (r: Option<(TcpRepr, usize)>)
    ensures
        r == tcp_parse_of(buf@),
        r matches Some(p) ==> 20 <= p.1 <= buf@.len(),
{
    match etherparse::TcpHeaderSlice::from_slice(buf) {
        Ok(s) => Some((
            TcpRepr {
                source_port: s.source_port(), destination_port: s.destination_port(),
                seq: s.sequence_number(), ackn: s.acknowledgment_number(),
                window: s.window_size(), syn: s.syn(), ack: s.ack(), fin: s.fin(),
                rst: s.rst(), checksum: s.checksum(),
            },
            s.slice().len(),
        )),
        Err(_) => None,
    }
}

} // verus!
