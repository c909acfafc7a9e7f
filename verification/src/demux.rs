//! Demultiplexing of inbound IPv4 frames onto per-flow connections.
//!
//! The table maps each flow's [`Quad`] — packed into one integer key — to
//! its [`Connection`]. A frame is parsed, filtered down to TCP, and routed
//! to the connection of its quad, or to passive open when the quad is
//! unknown. The device loop around this module only reads frames and sends
//! the responses back.

use std::collections::HashMap;

use vstd::prelude::*;

use crate::codec::{ipv4_parse_of, parse_ipv4, parse_tcp, tcp_parse_of};
use crate::headers::{Ipv4Repr, TcpRepr, IP_PROTO_TCP};
use crate::tcp::{
    spec_accept_conn, spec_frame, spec_on_packet, spec_write_conn, Connection, SegmentOutput,
};

verus! {

broadcast use vstd::std_specs::hash::group_hash_axioms;

/// The four-tuple identifying a flow: remote address and port, local
/// address and port. Equality is over all four fields; a quad never changes
/// over the lifetime of its connection.
#[derive(Clone, Copy, PartialEq, Eq, Structural, Debug)]
pub struct Quad {
    pub src_ip: u32,
    pub src_port: u16,
    pub dst_ip: u32,
    pub dst_port: u16,
}

/// The quad under which an inbound segment is looked up.
pub open spec fn spec_quad_of(iph: Ipv4Repr, tcph: TcpRepr) -> Quad {
    Quad {
        src_ip: iph.source,
        src_port: tcph.source_port,
        dst_ip: iph.destination,
        dst_port: tcph.destination_port,
    }
}

/// The quad packed into one table key, each field in a bit range of its
/// own.
pub open spec fn spec_quad_key(q: Quad) -> u128 {
    ((q.src_ip as u128) << 96) | ((q.src_port as u128) << 80) | ((q.dst_ip as u128) << 48) | (
    q.dst_port as u128)
}

/// Exec form of [`spec_quad_key`].
pub fn quad_key(q: &Quad) -> (k: u128)
    ensures
        k == spec_quad_key(*q),
{
    ((q.src_ip as u128) << 96) | ((q.src_port as u128) << 80) | ((q.dst_ip as u128) << 48) | (
    q.dst_port as u128)
}

/// Distinct quads get distinct table keys, so one table entry per quad is
/// the same thing as one connection per flow.
pub proof fn lemma_quad_key_injective(a: Quad, b: Quad)
    requires
        spec_quad_key(a) == spec_quad_key(b),
    ensures
        a == b,
{
    let (a1, a2, a3, a4) = (a.src_ip, a.src_port, a.dst_ip, a.dst_port);
    let (b1, b2, b3, b4) = (b.src_ip, b.src_port, b.dst_ip, b.dst_port);
    assert(a1 == b1 && a2 == b2 && a3 == b3 && a4 == b4) by (bit_vector)
        requires
            ((a1 as u128) << 96) | ((a2 as u128) << 80) | ((a3 as u128) << 48) | (a4 as u128) == ((
            b1 as u128) << 96) | ((b2 as u128) << 80) | ((b3 as u128) << 48) | (b4 as u128),
    ;
}

/// What one routed segment does to the table: the table afterwards, at most
/// one response frame, and the fatal flag of the segment handler.
pub type TableStep = (Map<u128, Connection>, Option<Seq<u8>>, bool);

/// The model of [`Demux::handle_segment`]: a known quad is handled by its
/// connection's machine; an unknown quad with SYN passes passive open and
/// enters the table; anything else is dropped.
pub open spec fn spec_handle_segment(
    m: Map<u128, Connection>,
    iph: Ipv4Repr,
    tcph: TcpRepr,
    data: Seq<u8>,
) -> TableStep {
    let key = spec_quad_key(spec_quad_of(iph, tcph));
    if m.contains_key(key) {
        let step = spec_on_packet(m[key], tcph, data);
        (m.insert(key, step.0), step.1, step.2)
    } else if tcph.syn {
        (
            m.insert(key, spec_write_conn(spec_accept_conn(iph, tcph), Seq::<u8>::empty())),
            Some(spec_frame(spec_accept_conn(iph, tcph), Seq::<u8>::empty())),
            false,
        )
    } else {
        (m, None::<Seq<u8>>, false)
    }
}

/// The model of [`Demux::handle_frame`]: frames that do not parse as IPv4,
/// do not carry TCP, or whose TCP header does not parse are dropped; the
/// rest is [`spec_handle_segment`] on the parsed headers and the payload
/// behind them.
pub open spec fn spec_handle_frame(m: Map<u128, Connection>, frame: Seq<u8>) -> TableStep {
    match ipv4_parse_of(frame) {
        Option::None => (m, None::<Seq<u8>>, false),
        Option::Some(ip) => {
            if ip.0.protocol != IP_PROTO_TCP {
                (m, None::<Seq<u8>>, false)
            } else {
                match tcp_parse_of(frame.skip(ip.1 as int)) {
                    Option::None => (m, None::<Seq<u8>>, false),
                    Option::Some(tp) => spec_handle_segment(
                        m,
                        ip.0,
                        tp.0,
                        frame.skip(ip.1 + tp.1),
                    ),
                }
            }
        },
    }
}

/// The demultiplexer: the connection table, keyed by packed quad.
pub struct Demux {
    connections: HashMap<u128, Connection>,
}

impl View for Demux {
    type V = Map<u128, Connection>;

    closed spec fn view(&self) -> Map<u128, Connection> {
        self.connections@
    }
}

impl Demux {
    /// An empty connection table.
    pub fn new() -> (d: Demux)
        ensures
            d@ == Map::<u128, Connection>::empty(),
    {
        Demux { connections: HashMap::new() }
    }

    /// How many connections the table holds.
    pub fn connection_count(&self) -> (n: usize)
        ensures
            n == self@.dom().len(),
    {
        self.connections.len()
    }

    /// The connection of `q`, if the table holds one.
    pub fn connection(&self, q: &Quad) -> (res: Option<&Connection>)
        ensures
            match res {
                Some(c) => self@.contains_key(spec_quad_key(*q)) && *c == self@[spec_quad_key(*q)],
                None => !self@.contains_key(spec_quad_key(*q)),
            },
    {
        let key = quad_key(q);
        self.connections.get(&key)
    }

    /// Route one parsed segment: to the connection of its quad when one
    /// exists, else to passive open.
    pub fn handle_segment(&mut self, iph: &Ipv4Repr, tcph: &TcpRepr, data: &[u8]) -> (out:
        SegmentOutput)
        requires
            data@.len() + 2 < 0x1_0000_0000,
        ensures
            final(self)@ == spec_handle_segment(old(self)@, *iph, *tcph, data@).0,
            out.fatal == spec_handle_segment(old(self)@, *iph, *tcph, data@).2,
            out.frame is Some <==> spec_handle_segment(old(self)@, *iph, *tcph, data@).1 is Some,
            out.frame matches Some(f) ==> Some(f@) == spec_handle_segment(
                old(self)@,
                *iph,
                *tcph,
                data@,
            ).1,
    {
        let quad = Quad {
            src_ip: iph.source,
            src_port: tcph.source_port,
            dst_ip: iph.destination,
            dst_port: tcph.destination_port,
        };
        let key = quad_key(&quad);
        if self.connections.contains_key(&key) {
            let mut conn = self.connections.remove(&key).unwrap();
            let out = conn.on_packet(iph, tcph, data);
            self.connections.insert(key, conn);
            proof {
                assert(old(self)@.remove(key).insert(key, conn) =~= old(self)@.insert(key, conn));
            }
            out
        } else {
            match Connection::accept(iph, tcph, data) {
                Some(accepted) => {
                    let (conn, frame) = accepted;
                    self.connections.insert(key, conn);
                    SegmentOutput { frame: Some(frame), fatal: false }
                },
                None => SegmentOutput { frame: None, fatal: false },
            }
        }
    }

    /// Handle one inbound frame from the device: parse the IPv4 header,
    /// drop anything that is not well-formed TCP, and route the segment.
    pub fn handle_frame(&mut self, frame: &[u8]) -> (out: SegmentOutput)
        requires
            frame@.len() <= 1504,
        ensures
            final(self)@ == spec_handle_frame(old(self)@, frame@).0,
            out.fatal == spec_handle_frame(old(self)@, frame@).2,
            out.frame is Some <==> spec_handle_frame(old(self)@, frame@).1 is Some,
            out.frame matches Some(f) ==> Some(f@) == spec_handle_frame(old(self)@, frame@).1,
    {
        match parse_ipv4(frame) {
            None => SegmentOutput { frame: None, fatal: false },
            Some(ip_parsed) => {
                let (iph, il) = ip_parsed;
                if iph.protocol != IP_PROTO_TCP {
                    SegmentOutput { frame: None, fatal: false }
                } else {
                    let rest = vstd::slice::slice_subrange(frame, il, frame.len());
                    match parse_tcp(rest) {
                        None => SegmentOutput { frame: None, fatal: false },
                        Some(tcp_parsed) => {
                            let (tcph, tl) = tcp_parsed;
                            let data = vstd::slice::slice_subrange(frame, il + tl, frame.len());
                            self.handle_segment(&iph, &tcph, data)
                        },
                    }
                }
            },
        }
    }
}

} // verus!
