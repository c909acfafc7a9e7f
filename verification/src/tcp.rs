//! The per-connection TCP state machine (RFC 793, reduced to passive open
//! and immediate close) and the outbound segment writer.
//!
//! Every operation has a spec-level model (`spec_write_conn`,
//! `spec_on_packet`, ...) that pins down the new connection record and the
//! emitted frame exactly; the exec functions are proved equal to it.

use vstd::prelude::*;

use crate::codec::{
    compute_tcp_checksum, ipv4_header_bytes, tcp_checksum_of, tcp_header_bytes, write_ipv4_header,
    write_tcp_header,
};
use crate::headers::{
    seg_len, Ipv4Repr, TcpRepr, IPV4_HEADER_LEN, IP_PROTO_TCP, MTU, OUTBOUND_TTL, TCP_HEADER_LEN,
};
use crate::seqnum::{
    between, is_between_wrapped, wrap_add, wrap_sub, wrapping_add32, wrapping_sub32,
};

verus! {

/// The states a connection of this reduced machine can be in. `LISTEN` is
/// implicit (a SYN to an unknown flow creates a fresh record directly in
/// `SynRcvd`) and `CLOSED` is absence from the connection table.
#[derive(Clone, Copy, PartialEq, Eq, Structural, Debug)]
pub enum State {
    SynRcvd,
    Estab,
    FinWait1,
    FinWait2,
    TimeWait,
}

impl State {
    /// A synchronized state is one in which both initial sequence numbers
    /// are known, i.e. every state past `SynRcvd`.
    pub fn is_synchronized(&self) -> (r: bool)
        ensures
            r == !(*self is SynRcvd),
    {
        match *self {
            State::SynRcvd => false,
            State::Estab | State::FinWait1 | State::FinWait2 | State::TimeWait => true,
        }
    }
}

/// State of the send sequence space (RFC 793 S3.2 F4).
#[derive(Clone, Copy, PartialEq, Eq, Structural, Debug)]
pub struct SendSequenceSpace {
    /// send unacknowledged
    pub una: u32,
    /// send next
    pub nxt: u32,
    /// send window
    pub wnd: u16,
    /// send urgent pointer (unused)
    pub up: bool,
    /// segment sequence number used for last window update (reserved)
    pub wl1: usize,
    /// segment acknowledgment number used for last window update (reserved)
    pub wl2: usize,
    /// initial send sequence number
    pub iss: u32,
}

/// State of the receive sequence space (RFC 793 S3.2 F5).
#[derive(Clone, Copy, PartialEq, Eq, Structural, Debug)]
pub struct RecvSequenceSpace {
    /// receive next
    pub nxt: u32,
    /// receive window
    pub wnd: u16,
    /// receive urgent pointer (unused)
    pub up: bool,
    /// initial receive sequence number
    pub irs: u32,
}

/// A Transmission Control Block: all per-flow state, including the cached
/// header templates that outbound segments are built from.
#[derive(Clone, Copy, PartialEq, Eq, Structural, Debug)]
pub struct Connection {
    pub state: State,
    pub send: SendSequenceSpace,
    pub recv: RecvSequenceSpace,
    /// IPv4 template: addresses swapped relative to the accepted SYN.
    pub ip: Ipv4Repr,
    /// TCP template: ports swapped; sequence/ack/flags/checksum rewritten
    /// on each emission.
    pub tcp: TcpRepr,
}

/// Payload bytes that fit into one emitted frame beside the two headers.
pub open spec fn spec_payload_capacity() -> nat {
    (MTU - IPV4_HEADER_LEN - TCP_HEADER_LEN) as nat
}

/// How many payload bytes one call of the writer transmits: everything, up
/// to the frame capacity.
pub open spec fn spec_written_len(payload_len: nat) -> nat {
    if payload_len <= spec_payload_capacity() {
        payload_len
    } else {
        spec_payload_capacity()
    }
}

/// The IPv4 header an emission with `plen` payload bytes carries.
pub open spec fn spec_emitted_ip(c: Connection, plen: nat) -> Ipv4Repr {
    Ipv4Repr { payload_len: (TCP_HEADER_LEN + plen) as u16, ..c.ip }
}

/// The TCP header an emission carries: the template with sequence and
/// acknowledgment numbers set from the sequence spaces and the checksum
/// computed over pseudo-header, header and written payload.
pub open spec fn spec_emitted_tcp(c: Connection, payload: Seq<u8>) -> TcpRepr {
    let plen = spec_written_len(payload.len());
    let base = TcpRepr { seq: c.send.nxt, ackn: c.recv.nxt, checksum: 0, ..c.tcp };
    TcpRepr {
        checksum: tcp_checksum_of(spec_emitted_ip(c, plen), base, payload.take(plen as int)),
        ..base
    }
}

/// The frame one emission hands to the device: IPv4 header, TCP header,
/// written payload.
pub open spec fn spec_frame(c: Connection, payload: Seq<u8>) -> Seq<u8> {
    let plen = spec_written_len(payload.len());
    ipv4_header_bytes(spec_emitted_ip(c, plen)) + tcp_header_bytes(spec_emitted_tcp(c, payload))
        + payload.take(plen as int)
}

/// How far `SND.NXT` advances on one emission: written payload bytes, plus
/// one if the template's SYN flag was set, plus one if FIN was set.
pub open spec fn spec_advance(c: Connection, payload: Seq<u8>) -> nat {
    spec_written_len(payload.len()) + (if c.tcp.syn {
        1nat
    } else {
        0nat
    }) + (if c.tcp.fin {
        1nat
    } else {
        0nat
    })
}

/// The connection after one emission: `SND.NXT` advanced, templates updated,
/// one-shot flags (SYN, FIN) cleared.
pub open spec fn spec_write_conn(c: Connection, payload: Seq<u8>) -> Connection {
    let plen = spec_written_len(payload.len());
    Connection {
        send: SendSequenceSpace {
            nxt: wrap_add(c.send.nxt, spec_advance(c, payload) as u32),
            ..c.send
        },
        ip: spec_emitted_ip(c, plen),
        tcp: TcpRepr { syn: false, fin: false, ..spec_emitted_tcp(c, payload) },
        ..c
    }
}

impl Connection {
    /// Between calls the template's one-shot flags are clear: SYN and FIN
    /// are raised just before an emission and cleared by it.
    pub open spec fn wf(self) -> bool {
        !self.tcp.syn && !self.tcp.fin
    }

    /// Build, checksum and serialize one outbound segment carrying as much
    /// of `payload` as fits, and advance `SND.NXT` past everything emitted.
    /// Returns the frame for the device and the number of payload bytes
    /// written.
    pub fn write(&mut self, payload: &[u8]) -> (out: (Vec<u8>, usize))
        ensures
            *final(self) == spec_write_conn(*old(self), payload@),
            out.0@ == spec_frame(*old(self), payload@),
            out.1 == spec_written_len(payload@.len()),
            // the wire sequence/acknowledgment numbers are the sequence
            // variables at the moment of emission
            spec_emitted_tcp(*old(self), payload@).seq == old(self).send.nxt,
            spec_emitted_tcp(*old(self), payload@).ackn == old(self).recv.nxt,
            final(self).send.nxt == wrap_add(
                old(self).send.nxt,
                spec_advance(*old(self), payload@) as u32,
            ),
            final(self).wf(),
    {
        let cap: usize = MTU - IPV4_HEADER_LEN - TCP_HEADER_LEN;
        let plen: usize = if payload.len() <= cap {
            payload.len()
        } else {
            cap
        };
        self.tcp.seq = self.send.nxt;
        self.tcp.ackn = self.recv.nxt;
        self.tcp.checksum = 0;
        self.ip.payload_len = (TCP_HEADER_LEN + plen) as u16;
        let data = vstd::slice::slice_subrange(payload, 0, plen);
        let ck = compute_tcp_checksum(&self.ip, &self.tcp, data);
        self.tcp.checksum = ck;
        let mut frame = write_ipv4_header(&self.ip);
        let mut tcp_bytes = write_tcp_header(&self.tcp);
        frame.append(&mut tcp_bytes);
        let mut data_bytes = vstd::slice::slice_to_vec(data);
        frame.append(&mut data_bytes);
        let mut advance: u32 = plen as u32;
        if self.tcp.syn {
            advance = advance + 1;
            self.tcp.syn = false;
        }
        if self.tcp.fin {
            advance = advance + 1;
            self.tcp.fin = false;
        }
        self.send.nxt = wrapping_add32(self.send.nxt, advance);
        (frame, plen)
    }
}

/// What one call of the segment handler does: the connection afterwards, at
/// most one response frame, and whether the reduced machine hit a case it
/// does not handle (an inbound FIN outside `FinWait2`).
pub type PacketStep = (Connection, Option<Seq<u8>>, bool);

/// RFC 793 S3.3 sequence-number acceptance. With `wend = RCV.NXT + RCV.WND`:
/// a zero-length segment against a zero window must carry `RCV.NXT` itself;
/// a zero-length segment against an open window must start inside it; a
/// non-zero-length segment against a zero window is never acceptable; and a
/// non-zero-length segment against an open window must overlap it with its
/// first or its last occupied sequence number.
pub open spec fn spec_seg_acceptable(recv: RecvSequenceSpace, seqn: u32, slen: nat) -> bool {
    let wend = wrap_add(recv.nxt, recv.wnd as u32);
    if slen == 0 {
        if recv.wnd == 0 {
            seqn == recv.nxt
        } else {
            between(wrap_sub(recv.nxt, 1), seqn, wend)
        }
    } else {
        if recv.wnd == 0 {
            false
        } else {
            ||| between(wrap_sub(recv.nxt, 1), seqn, wend)
            ||| between(wrap_sub(recv.nxt, 1), wrap_add(seqn, (slen - 1) as u32), wend)
        }
    }
}

/// ACK acceptance while the handshake is still open: the ACK must cover our
/// SYN, `SND.UNA - 1 < ackn <= SND.NXT` on the circle.
pub open spec fn spec_ack_ok_syn_rcvd(send: SendSequenceSpace, ackn: u32) -> bool {
    between(wrap_sub(send.una, 1), ackn, wrap_add(send.nxt, 1))
}

/// ACK acceptance in a synchronized state: `SND.UNA < ackn <= SND.NXT` on
/// the circle.
pub open spec fn spec_ack_ok_sync(send: SendSequenceSpace, ackn: u32) -> bool {
    between(send.una, ackn, wrap_add(send.nxt, 1))
}

/// The model of [`Connection::on_packet`]: sequence-number acceptance, then
/// the ACK checks and state transitions of [`spec_on_acceptable_ack`].
pub open spec fn spec_on_packet(c: Connection, tcph: TcpRepr, data: Seq<u8>) -> PacketStep {
    let slen = seg_len(data.len(), tcph);
    if !spec_seg_acceptable(c.recv, tcph.seq, slen) {
        // out-of-window: answer with a pure ACK, change nothing else
        (spec_write_conn(c, Seq::<u8>::empty()), Some(spec_frame(c, Seq::<u8>::empty())), false)
    } else {
        let c1 = Connection {
            recv: RecvSequenceSpace { nxt: wrap_add(tcph.seq, slen as u32), ..c.recv },
            ..c
        };
        if !tcph.ack {
            (c1, None, false)
        } else if c1.state is SynRcvd && !spec_ack_ok_syn_rcvd(c1.send, tcph.ackn) {
            // unacceptable handshake ACK: drop (RST emission is an open item)
            (c1, None, false)
        } else {
            let c2 = if c1.state is SynRcvd {
                Connection { state: State::Estab, ..c1 }
            } else {
                c1
            };
            spec_on_acceptable_ack(c2, tcph)
        }
    }
}

/// Steps two and three of segment handling, once the segment is in window
/// and any handshake ACK was found acceptable: update `SND.UNA`, run the
/// active close out of `Estab`, recognize the acknowledgment of our FIN,
/// and answer a peer FIN in `FinWait2`. A peer FIN in any other state is a
/// case outside this reduced machine and is flagged fatal.
pub open spec fn spec_on_acceptable_ack(c: Connection, tcph: TcpRepr) -> PacketStep {
    let sync = c.state is Estab || c.state is FinWait1 || c.state is FinWait2;
    if sync && !spec_ack_ok_sync(c.send, tcph.ackn) {
        // stale or ahead ACK: drop the segment
        (c, None, false)
    } else {
        let c3 = if sync {
            Connection { send: SendSequenceSpace { una: tcph.ackn, ..c.send }, ..c }
        } else {
            c
        };
        let closing = c3.state is Estab;
        let cf = Connection { tcp: TcpRepr { fin: true, ..c3.tcp }, ..c3 };
        let c4 = if closing {
            Connection { state: State::FinWait1, ..spec_write_conn(cf, Seq::<u8>::empty()) }
        } else {
            c3
        };
        let frame4 = if closing {
            Some(spec_frame(cf, Seq::<u8>::empty()))
        } else {
            None::<Seq<u8>>
        };
        let c5 = if c4.state is FinWait1 && c4.send.una == wrap_add(c4.send.iss, 2) {
            Connection { state: State::FinWait2, ..c4 }
        } else {
            c4
        };
        if tcph.fin {
            if c5.state is FinWait2 {
                (
                    Connection { state: State::TimeWait, ..spec_write_conn(c5, Seq::<u8>::empty()) },
                    Some(spec_frame(c5, Seq::<u8>::empty())),
                    false,
                )
            } else {
                (c5, frame4, true)
            }
        } else {
            (c5, frame4, false)
        }
    }
}

/// The result of handling one inbound segment.
pub struct SegmentOutput {
    /// At most one response frame for the device.
    pub frame: Option<Vec<u8>>,
    /// True when an inbound FIN arrived in a state outside the reduced set;
    /// the caller should treat this as a programming error and abort.
    pub fatal: bool,
}

impl Connection {
    /// Handle one inbound segment addressed to this connection: validate its
    /// sequence numbers against the receive window, advance `RCV.NXT` over
    /// everything accepted, validate and apply its acknowledgment, and run
    /// the state transitions, emitting at most one response frame.
    #[verifier::rlimit(100)]
    pub fn on_packet(&mut self, _iph: &Ipv4Repr, tcph: &TcpRepr, data: &[u8]) -> (out:
        SegmentOutput)
        requires
            data@.len() + 2 < 0x1_0000_0000,
        ensures
            *final(self) == spec_on_packet(*old(self), *tcph, data@).0,
            out.fatal == spec_on_packet(*old(self), *tcph, data@).2,
            out.frame is Some <==> spec_on_packet(*old(self), *tcph, data@).1 is Some,
            out.frame matches Some(f) ==> Some(f@) == spec_on_packet(*old(self), *tcph, data@).1,
            old(self).wf() ==> final(self).wf(),
            // an out-of-window segment elicits only a pure ACK: the machine
            // state is unchanged
            !spec_seg_acceptable(old(self).recv, tcph.seq, seg_len(data@.len(), *tcph)) ==> {
                &&& final(self).state == old(self).state
                &&& final(self).recv == old(self).recv
                &&& final(self).send.una == old(self).send.una
                &&& (old(self).wf() ==> final(self).send == old(self).send)
                &&& out.frame is Some
            },
    {
        let seqn = tcph.seq;
        let mut slen: u32 = data.len() as u32;
        if tcph.fin {
            slen = slen + 1;
        }
        if tcph.syn {
            slen = slen + 1;
        }
        let wend = wrapping_add32(self.recv.nxt, self.recv.wnd as u32);
        let nxt_m1 = wrapping_sub32(self.recv.nxt, 1);
        let okay: bool = if slen == 0 {
            if self.recv.wnd == 0 {
                seqn == self.recv.nxt
            } else {
                is_between_wrapped(nxt_m1, seqn, wend)
            }
        } else {
            if self.recv.wnd == 0 {
                false
            } else {
                is_between_wrapped(nxt_m1, seqn, wend) || is_between_wrapped(
                    nxt_m1,
                    wrapping_add32(seqn, slen - 1),
                    wend,
                )
            }
        };
        if !okay {
            let empty: Vec<u8> = Vec::new();
            let out = self.write(empty.as_slice());
            return SegmentOutput { frame: Some(out.0), fatal: false };
        }
        self.recv.nxt = wrapping_add32(seqn, slen);
        if !tcph.ack {
            return SegmentOutput { frame: None, fatal: false };
        }
        let ackn = tcph.ackn;
        if self.state == State::SynRcvd {
            if is_between_wrapped(
                wrapping_sub32(self.send.una, 1),
                ackn,
                wrapping_add32(self.send.nxt, 1),
            ) {
                // the ACK covers our SYN: the handshake is complete
                self.state = State::Estab;
            } else {
                return SegmentOutput { frame: None, fatal: false };
            }
        }
        let mut response: Option<Vec<u8>> = None;
        if self.state == State::Estab || self.state == State::FinWait1 || self.state
            == State::FinWait2 {
            if !is_between_wrapped(self.send.una, ackn, wrapping_add32(self.send.nxt, 1)) {
                return SegmentOutput { frame: None, fatal: false };
            }
            self.send.una = ackn;
            if self.state == State::Estab {
                // no application layer is attached, so close as soon as the
                // connection is established
                self.tcp.fin = true;
                let empty: Vec<u8> = Vec::new();
                let out = self.write(empty.as_slice());
                self.state = State::FinWait1;
                response = Some(out.0);
            }
        }
        if self.state == State::FinWait1 && self.send.una == wrapping_add32(self.send.iss, 2) {
            // both our SYN and our FIN are acknowledged
            self.state = State::FinWait2;
        }
        if tcph.fin {
            if self.state == State::FinWait2 {
                let empty: Vec<u8> = Vec::new();
                let out = self.write(empty.as_slice());
                self.state = State::TimeWait;
                return SegmentOutput { frame: Some(out.0), fatal: false };
            } else {
                return SegmentOutput { frame: response, fatal: true };
            }
        }
        SegmentOutput { frame: response, fatal: false }
    }
}

/// The connection with the reset template raised: RST set, sequence and
/// acknowledgment fields zeroed (the segment writer overwrites the latter
/// two with the sequence variables on emission).
pub open spec fn spec_reset_conn(c: Connection) -> Connection {
    Connection { tcp: TcpRepr { rst: true, seq: 0, ackn: 0, ..c.tcp }, ..c }
}

impl Connection {
    /// RST emission hook (RFC 793 S3.4, deliberately incomplete): raise RST
    /// on the template and emit through the segment writer. Choosing the
    /// reset's sequence numbers from the offending segment is an open item;
    /// the writer stamps the current `SND.NXT`/`RCV.NXT` as on any emission.
    pub fn send_reset(&mut self) -> (frame: Vec<u8>)
        ensures
            *final(self) == spec_write_conn(spec_reset_conn(*old(self)), Seq::<u8>::empty()),
            frame@ == spec_frame(spec_reset_conn(*old(self)), Seq::<u8>::empty()),
            old(self).wf() ==> final(self).send.nxt == old(self).send.nxt,
    {
        self.tcp.rst = true;
        self.tcp.seq = 0;
        self.tcp.ackn = 0;
        let empty: Vec<u8> = Vec::new();
        let out = self.write(empty.as_slice());
        out.0
    }
}

/// One inbound segment: its TCP header and its payload bytes.
pub type Segment = (TcpRepr, Seq<u8>);

/// The connection after a whole run of inbound segments, each handled by
/// [`spec_on_packet`].
pub open spec fn spec_run(c: Connection, segs: Seq<Segment>) -> Connection
    decreases segs.len(),
{
    if segs.len() == 0 {
        c
    } else {
        spec_on_packet(spec_run(c, segs.drop_last()), segs.last().0, segs.last().1).0
    }
}

/// The total sequence-number space a run of segments occupies.
pub open spec fn spec_total_seg_len(segs: Seq<Segment>) -> nat
    decreases segs.len(),
{
    if segs.len() == 0 {
        0nat
    } else {
        spec_total_seg_len(segs.drop_last()) + seg_len(segs.last().1.len(), segs.last().0)
    }
}

/// Every segment of the run fits the machine word, is acceptable to the
/// receive window of the connection state it meets, and arrives in order:
/// it carries exactly the `RCV.NXT` of that state.
pub open spec fn spec_all_accepted_in_order(c: Connection, segs: Seq<Segment>) -> bool {
    forall|i: int|
        0 <= i < segs.len() ==> {
            let ci = spec_run(c, #[trigger] segs.take(i));
            &&& segs[i].1.len() + 2 < 0x1_0000_0000
            &&& spec_seg_acceptable(ci.recv, segs[i].0.seq, seg_len(segs[i].1.len(), segs[i].0))
            &&& segs[i].0.seq == ci.recv.nxt
        }
}

/// Over any run of segments that are all accepted in order, `RCV.NXT`
/// advances by exactly the sum of the segment lengths, mod 2^32: the
/// machine neither loses nor counts twice any sequence number it accepts.
pub proof fn lemma_rcv_nxt_accumulates(c: Connection, segs: Seq<Segment>)
    requires
        spec_all_accepted_in_order(c, segs),
    ensures
        spec_run(c, segs).recv.nxt == ((c.recv.nxt + spec_total_seg_len(segs))
            % 0x1_0000_0000) as u32,
    decreases segs.len(),
{
    if segs.len() == 0 {
        vstd::arithmetic::div_mod::lemma_small_mod(c.recv.nxt as nat, 0x1_0000_0000);
    } else {
        let n = segs.len() as int;
        let prefix = segs.drop_last();
        assert forall|i: int| 0 <= i < prefix.len() implies {
            let ci = spec_run(c, #[trigger] prefix.take(i));
            &&& prefix[i].1.len() + 2 < 0x1_0000_0000
            &&& spec_seg_acceptable(
                ci.recv,
                prefix[i].0.seq,
                seg_len(prefix[i].1.len(), prefix[i].0),
            )
            &&& prefix[i].0.seq == ci.recv.nxt
        } by {
            assert(prefix.take(i) =~= segs.take(i));
            assert(0 <= i < segs.len());
        }
        lemma_rcv_nxt_accumulates(c, prefix);
        let cp = spec_run(c, prefix);
        assert(segs.take(n - 1) =~= prefix);
        let th = segs.last().0;
        let d = segs.last().1;
        let slen = seg_len(d.len(), th);
        assert(spec_seg_acceptable(cp.recv, th.seq, slen) && th.seq == cp.recv.nxt && d.len() + 2
            < 0x1_0000_0000);
        assert(spec_on_packet(cp, th, d).0.recv.nxt == wrap_add(cp.recv.nxt, slen as u32));
        let total_prefix = spec_total_seg_len(prefix);
        let x = c.recv.nxt + total_prefix;
        vstd::arithmetic::div_mod::lemma_small_mod(slen, 0x1_0000_0000);
        vstd::arithmetic::div_mod::lemma_add_mod_noop(x, slen as int, 0x1_0000_0000);
    }
}

/// The send-space shape is an invariant of the machine: whatever segment is
/// handled, `SND.UNA` still trails `SND.NXT` by at most half the circle
/// (`SND.NXT - SND.UNA (mod 2^32) <= 2^31`).
pub proof fn lemma_send_space_preserved(c: Connection, tcph: TcpRepr, data: Seq<u8>)
    requires
        c.wf(),
        wrap_sub(c.send.nxt, c.send.una) <= 0x8000_0000,
    ensures
        wrap_sub(
            spec_on_packet(c, tcph, data).0.send.nxt,
            spec_on_packet(c, tcph, data).0.send.una,
        ) <= 0x8000_0000,
{
    if tcph.ack && spec_ack_ok_sync(c.send, tcph.ackn) {
        crate::seqnum::lemma_ack_stays_in_send_space(c.send.una, c.send.nxt, tcph.ackn);
    }
}

/// An accepted segment advances `RCV.NXT` forward only: by at most the
/// receive window plus the segment's own length, and never back.
pub proof fn lemma_rcv_nxt_advances(recv: RecvSequenceSpace, seqn: u32, slen: u32)
    requires
        spec_seg_acceptable(recv, seqn, slen as nat),
    ensures
        wrap_sub(wrap_add(seqn, slen), recv.nxt) <= recv.wnd + slen,
{
    let nxt = recv.nxt;
    let wnd = recv.wnd;
    assert(spec_seg_acceptable(
        RecvSequenceSpace { nxt, wnd, up: recv.up, irs: recv.irs },
        seqn,
        slen as nat,
    ) ==> wrap_sub(wrap_add(seqn, slen), nxt) <= wnd + slen) by (bit_vector);
}

/// The fresh Transmission Control Block built for an accepted SYN, before
/// the SYN+ACK is emitted: `RCV` initialized from the segment, `SND` from
/// the (placeholder) initial send sequence number 0, templates with
/// addresses and ports swapped and SYN+ACK raised.
pub open spec fn spec_accept_conn(iph: Ipv4Repr, tcph: TcpRepr) -> Connection {
    Connection {
        state: State::SynRcvd,
        send: SendSequenceSpace { iss: 0, una: 0, nxt: 0, wnd: 10, up: false, wl1: 0, wl2: 0 },
        recv: RecvSequenceSpace {
            irs: tcph.seq,
            nxt: wrap_add(tcph.seq, 1),
            wnd: tcph.window,
            up: false,
        },
        ip: Ipv4Repr {
            source: iph.destination,
            destination: iph.source,
            protocol: IP_PROTO_TCP,
            ttl: OUTBOUND_TTL,
            payload_len: 0,
        },
        tcp: TcpRepr {
            source_port: tcph.destination_port,
            destination_port: tcph.source_port,
            seq: 0,
            ackn: 0,
            window: 10,
            syn: true,
            ack: true,
            fin: false,
            rst: false,
            checksum: 0,
        },
    }
}

impl Connection {
    /// Passive open: for a SYN, build a fresh connection in `SynRcvd` and
    /// emit the SYN+ACK (which consumes one sequence number, so `SND.NXT`
    /// becomes 1). For anything else no connection is created.
    pub fn accept(iph: &Ipv4Repr, tcph: &TcpRepr, _data: &[u8]) -> (res: Option<(Connection, Vec<
        u8,
    >)>)
        ensures
            res is Some <==> tcph.syn,
            res matches Some(p) ==> {
                &&& p.0 == spec_write_conn(spec_accept_conn(*iph, *tcph), Seq::<u8>::empty())
                &&& p.1@ == spec_frame(spec_accept_conn(*iph, *tcph), Seq::<u8>::empty())
                &&& p.0.state is SynRcvd
                &&& p.0.recv.irs == tcph.seq
                &&& p.0.recv.nxt == wrap_add(tcph.seq, 1)
                &&& p.0.recv.wnd == tcph.window
                &&& p.0.send.iss == 0
                &&& p.0.send.una == 0
                &&& p.0.send.nxt == 1
                &&& p.0.wf()
            },
    {
        if !tcph.syn {
            return None;
        }
        let mut c = Connection {
            state: State::SynRcvd,
            send: SendSequenceSpace { iss: 0, una: 0, nxt: 0, wnd: 10, up: false, wl1: 0, wl2: 0 },
            recv: RecvSequenceSpace {
                irs: tcph.seq,
                nxt: wrapping_add32(tcph.seq, 1),
                wnd: tcph.window,
                up: false,
            },
            ip: Ipv4Repr {
                source: iph.destination,
                destination: iph.source,
                protocol: IP_PROTO_TCP,
                ttl: OUTBOUND_TTL,
                payload_len: 0,
            },
            tcp: TcpRepr {
                source_port: tcph.destination_port,
                destination_port: tcph.source_port,
                seq: 0,
                ackn: 0,
                window: 10,
                syn: true,
                ack: true,
                fin: false,
                rst: false,
                checksum: 0,
            },
        };
        let empty: Vec<u8> = Vec::new();
        let out = c.write(empty.as_slice());
        Some((c, out.0))
    }
}

} // verus!
