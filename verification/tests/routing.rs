//! Tests of the wrap-safe sequence predicate and of frame demultiplexing,
//! the latter with real on-wire frames built by the codec crate.

use tcp_tun::demux::{Demux, Quad};
use tcp_tun::headers::{Ipv4Repr, TcpRepr};
use tcp_tun::seqnum::is_between_wrapped;
use tcp_tun::tcp::State;

const LOCAL_IP: u32 = 0x0A00_0001;
const REMOTE_IP: u32 = 0x0A00_0002;
const LOCAL_PORT: u16 = 443;
const REMOTE_PORT: u16 = 40000;

fn remote_quad(remote_port: u16) -> Quad {
    Quad {
        src_ip: REMOTE_IP,
        src_port: remote_port,
        dst_ip: LOCAL_IP,
        dst_port: LOCAL_PORT,
    }
}

/// One on-wire IPv4+TCP frame from the remote, built by the codec crate.
fn build_frame(tcp: etherparse::TcpHeader, payload: &[u8]) -> Vec<u8> {
    let ip = etherparse::Ipv4Header::new(
        (20 + payload.len()) as u16,
        64,
        etherparse::IpNumber::TCP,
        REMOTE_IP.to_be_bytes(),
        LOCAL_IP.to_be_bytes(),
    )
    .unwrap();
    let mut out = Vec::new();
    ip.write(&mut out).unwrap();
    tcp.write(&mut out).unwrap();
    out.extend_from_slice(payload);
    out
}

fn syn_frame(remote_port: u16, seq: u32) -> Vec<u8> {
    let mut tcp = etherparse::TcpHeader::new(remote_port, LOCAL_PORT, seq, 4096);
    tcp.syn = true;
    build_frame(tcp, &[])
}

#[test]
fn between_is_translation_invariant() {
    // the example of the wrap-safe contract, and the same three points
    // shifted by 0x20 around the circle
    assert!(is_between_wrapped(0xFFFF_FFF0, 0x0000_0005, 0x0000_0010));
    assert!(is_between_wrapped(0x0000_0010, 0x0000_0025, 0x0000_0030));

    // the same arc again, shifted by 0xFFFF_FFF0
    assert!(is_between_wrapped(10, 5, 8));
    assert!(is_between_wrapped(0xFFFF_FFFA, 0xFFFF_FFF5, 0xFFFF_FFF8));
}

#[test]
fn between_excludes_start() {
    assert!(!is_between_wrapped(5, 5, 10));
    assert!(!is_between_wrapped(0, 0, 0xFFFF_FFFF));
    assert!(!is_between_wrapped(0xFFFF_FFFF, 0xFFFF_FFFF, 3));
}

#[test]
fn between_basic_arcs() {
    assert!(is_between_wrapped(10, 15, 20));
    assert!(!is_between_wrapped(10, 25, 20));
    assert!(is_between_wrapped(20, 1, 10)); // wrapped arc
}

#[test]
fn demux_passive_open_via_frame() {
    let mut demux = Demux::new();
    let out = demux.handle_frame(&syn_frame(REMOTE_PORT, 1000));

    assert!(!out.fatal);
    let frame = out.frame.expect("a SYN elicits the SYN+ACK");
    assert_eq!(frame.len(), 40);
    assert_eq!(frame[33], 0x12); // SYN | ACK

    assert_eq!(demux.connection_count(), 1);
    let conn = demux.connection(&remote_quad(REMOTE_PORT)).expect("flow entered the table");
    assert_eq!(conn.state, State::SynRcvd);
    assert_eq!(conn.recv.irs, 1000);
    assert_eq!(conn.recv.nxt, 1001);
}

#[test]
fn demux_routes_second_segment_to_flow() {
    let mut demux = Demux::new();
    demux.handle_frame(&syn_frame(REMOTE_PORT, 1000));

    let mut ack = etherparse::TcpHeader::new(REMOTE_PORT, LOCAL_PORT, 1001, 4096);
    ack.ack = true;
    ack.acknowledgment_number = 1;
    let out = demux.handle_frame(&build_frame(ack, &[]));

    assert_eq!(demux.connection_count(), 1);
    let conn = demux.connection(&remote_quad(REMOTE_PORT)).unwrap();
    assert_eq!(conn.state, State::FinWait1);
    let frame = out.frame.expect("the active close answers with a FIN");
    assert_eq!(frame[33], 0x11); // FIN | ACK
}

#[test]
fn demux_keeps_flows_apart() {
    let mut demux = Demux::new();
    demux.handle_frame(&syn_frame(40000, 1000));
    demux.handle_frame(&syn_frame(40001, 7000));

    assert_eq!(demux.connection_count(), 2);
    assert_eq!(demux.connection(&remote_quad(40000)).unwrap().recv.irs, 1000);
    assert_eq!(demux.connection(&remote_quad(40001)).unwrap().recv.irs, 7000);
    assert!(demux.connection(&remote_quad(40002)).is_none());
}

#[test]
fn demux_drops_syn_less_unknown_flow() {
    let mut demux = Demux::new();
    let mut ack = etherparse::TcpHeader::new(REMOTE_PORT, LOCAL_PORT, 1000, 4096);
    ack.ack = true;
    ack.acknowledgment_number = 1;
    let out = demux.handle_frame(&build_frame(ack, &[]));

    assert!(out.frame.is_none());
    assert!(!out.fatal);
    assert_eq!(demux.connection_count(), 0);
}

#[test]
fn demux_drops_non_tcp() {
    let mut demux = Demux::new();
    let ip = etherparse::Ipv4Header::new(
        8,
        64,
        etherparse::IpNumber::UDP,
        REMOTE_IP.to_be_bytes(),
        LOCAL_IP.to_be_bytes(),
    )
    .unwrap();
    let mut frame = Vec::new();
    ip.write(&mut frame).unwrap();
    frame.extend_from_slice(&[0u8; 8]);

    let out = demux.handle_frame(&frame);
    assert!(out.frame.is_none());
    assert_eq!(demux.connection_count(), 0);
}

#[test]
fn demux_drops_malformed_frames() {
    let mut demux = Demux::new();

    let out = demux.handle_frame(&[0u8; 10]);
    assert!(out.frame.is_none());
    assert_eq!(demux.connection_count(), 0);

    // a well-formed IPv4 header promising TCP, but too short a remainder
    let ip = etherparse::Ipv4Header::new(
        4,
        64,
        etherparse::IpNumber::TCP,
        REMOTE_IP.to_be_bytes(),
        LOCAL_IP.to_be_bytes(),
    )
    .unwrap();
    let mut frame = Vec::new();
    ip.write(&mut frame).unwrap();
    frame.extend_from_slice(&[0u8; 4]);
    let out = demux.handle_frame(&frame);
    assert!(out.frame.is_none());
    assert_eq!(demux.connection_count(), 0);
}

#[test]
fn handle_segment_does_not_reopen_known_quad() {
    let mut demux = Demux::new();
    let iph = Ipv4Repr {
        source: REMOTE_IP,
        destination: LOCAL_IP,
        protocol: 6,
        ttl: 64,
        payload_len: 20,
    };
    let syn = TcpRepr {
        source_port: REMOTE_PORT,
        destination_port: LOCAL_PORT,
        seq: 1000,
        ackn: 0,
        window: 4096,
        syn: true,
        ack: false,
        fin: false,
        rst: false,
        checksum: 0,
    };

    let out = demux.handle_segment(&iph, &syn, &[]);
    assert!(out.frame.is_some());
    assert_eq!(demux.connection_count(), 1);

    // the retransmitted SYN reaches the existing flow's machine, where it
    // now falls outside the window and only elicits a pure ACK
    let out = demux.handle_segment(&iph, &syn, &[]);
    assert_eq!(demux.connection_count(), 1);
    let frame = out.frame.expect("duplicate SYN is answered with a pure ACK");
    assert_eq!(frame[33], 0x10);
    let conn = demux.connection(&remote_quad(REMOTE_PORT)).unwrap();
    assert_eq!(conn.state, State::SynRcvd);
    assert_eq!(conn.recv.nxt, 1001);
}

#[test]
fn demux_payload_reaches_machine() {
    let mut demux = Demux::new();
    demux.handle_frame(&syn_frame(REMOTE_PORT, 1000));

    // 5 payload bytes ride on the handshake ACK: RCV.NXT advances past them
    let mut ack = etherparse::TcpHeader::new(REMOTE_PORT, LOCAL_PORT, 1001, 4096);
    ack.ack = true;
    ack.acknowledgment_number = 1;
    demux.handle_frame(&build_frame(ack, b"hello"));

    let conn = demux.connection(&remote_quad(REMOTE_PORT)).unwrap();
    assert_eq!(conn.recv.nxt, 1006);
}
