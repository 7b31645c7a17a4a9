//! RTP packets.
//!
//! The media path sends and receives RTP over UDP with a fixed 12-byte
//! header: version 2, no padding, no extension, no CSRC.  Outbound greeting
//! packets carry µ-law audio in 160-byte frames; inbound packets are
//! filtered to payload type 0 and their payload appended to the recording.

use vstd::prelude::*;
use vstd::slice::slice_subrange;

verus! {

/// Bytes of audio (and of RTP timestamp ticks) in one 20 ms µ-law frame.
pub const FRAME_BYTES: usize = 160;

/// The fixed RTP header length accepted on both paths.
pub const HEADER_BYTES: usize = 12;

/// The 12-byte RTP header: version 2, padding/extension/CSRC clear, marker
/// clear, then payload type, sequence number, timestamp and SSRC in network
/// byte order.
pub open spec fn spec_rtp_header(pt: u8, seq: u16, ts: u32, ssrc: u32) -> Seq<u8> {
    seq![
        0x80u8,
        pt,
        (seq / 256) as u8,
        (seq % 256) as u8,
        (ts / 0x1000000) as u8,
        ((ts / 0x10000) % 256) as u8,
        ((ts / 256) % 256) as u8,
        (ts % 256) as u8,
        (ssrc / 0x1000000) as u8,
        ((ssrc / 0x10000) % 256) as u8,
        ((ssrc / 256) % 256) as u8,
        (ssrc % 256) as u8,
    ]
}

/// A whole outbound packet: header followed by the payload.
pub open spec fn spec_rtp_packet(pt: u8, seq: u16, ts: u32, ssrc: u32, payload: Seq<u8>) -> Seq<
    u8,
> {
    spec_rtp_header(pt, seq, ts, ssrc) + payload
}

/// Build one outbound RTP packet.
pub fn build_rtp_packet(pt: u8, seq: u16, ts: u32, ssrc: u32, payload: &[u8]) -> (r: Vec<u8>)
    requires
        pt < 128,
    ensures
        r@ == spec_rtp_packet(pt, seq, ts, ssrc, payload@),
{
    let mut out: Vec<u8> = Vec::new();
    out.push(0x80u8);
    out.push(pt);
    out.push((seq / 256) as u8);
    out.push((seq % 256) as u8);
    out.push((ts / 0x1000000) as u8);
    out.push(((ts / 0x10000) % 256) as u8);
    out.push(((ts / 256) % 256) as u8);
    out.push((ts % 256) as u8);
    out.push((ssrc / 0x1000000) as u8);
    out.push(((ssrc / 0x10000) % 256) as u8);
    out.push(((ssrc / 256) % 256) as u8);
    out.push((ssrc % 256) as u8);
    assert(out@ =~= spec_rtp_header(pt, seq, ts, ssrc));
    let mut i: usize = 0;
    while i < payload.len()
        invariant
            i <= payload@.len(),
            out@ == spec_rtp_header(pt, seq, ts, ssrc) + payload@.take(i as int),
        decreases payload@.len() - i,
    {
        out.push(*vstd::slice::slice_index_get(payload, i));
        assert(out@ =~= spec_rtp_header(pt, seq, ts, ssrc) + payload@.take(i as int + 1));
        i = i + 1;
    }
    proof {
        assert(payload@.take(payload@.len() as int) =~= payload@);
    }
    out
}

/// The fields read off an inbound RTP header.
pub struct RtpHeader {
    pub payload_type: u8,
    pub sequence: u16,
    pub timestamp: u32,
    pub ssrc: u32,
}

/// An inbound datagram parses when it has at least the 12 header bytes,
/// version 2, and neither CSRC entries nor a header extension.
pub open spec fn spec_rtp_parses(data: Seq<u8>) -> bool {
    &&& data.len() >= 12
    &&& (data[0] as int) / 64 == 2
    &&& (data[0] as int) % 32 == 0
}

pub open spec fn spec_parsed_pt(data: Seq<u8>) -> int {
    (data[1] as int) % 128
}

pub open spec fn spec_parsed_seq(data: Seq<u8>) -> int {
    (data[2] as int) * 256 + data[3]
}

pub open spec fn spec_parsed_ts(data: Seq<u8>) -> int {
    (((data[4] as int) * 256 + data[5]) * 256 + data[6]) * 256 + data[7]
}

pub open spec fn spec_parsed_ssrc(data: Seq<u8>) -> int {
    (((data[8] as int) * 256 + data[9]) * 256 + data[10]) * 256 + data[11]
}

/// Parse the fixed RTP header off a received datagram.  Packets that are too
/// short, not version 2, or that carry CSRC entries or an extension are
/// rejected.
pub fn parse_rtp_header(data: &[u8]) -> (r: Option<RtpHeader>)
    ensures
        r is Some <==> spec_rtp_parses(data@),
        r matches Some(h) ==> {
            &&& h.payload_type == spec_parsed_pt(data@)
            &&& h.sequence == spec_parsed_seq(data@)
            &&& h.timestamp == spec_parsed_ts(data@)
            &&& h.ssrc == spec_parsed_ssrc(data@)
        },
{
    if data.len() < 12 {
        return None;
    }
    let b0 = *vstd::slice::slice_index_get(data, 0);
    if b0 / 64 != 2 || b0 % 32 != 0 {
        return None;
    }
    let b1 = *vstd::slice::slice_index_get(data, 1);
    let s0 = *vstd::slice::slice_index_get(data, 2);
    let s1 = *vstd::slice::slice_index_get(data, 3);
    let t0 = *vstd::slice::slice_index_get(data, 4);
    let t1 = *vstd::slice::slice_index_get(data, 5);
    let t2 = *vstd::slice::slice_index_get(data, 6);
    let t3 = *vstd::slice::slice_index_get(data, 7);
    let c0 = *vstd::slice::slice_index_get(data, 8);
    let c1 = *vstd::slice::slice_index_get(data, 9);
    let c2 = *vstd::slice::slice_index_get(data, 10);
    let c3 = *vstd::slice::slice_index_get(data, 11);
    Some(
        RtpHeader {
            payload_type: b1 % 128,
            sequence: (s0 as u16) * 256 + (s1 as u16),
            timestamp: (((t0 as u32) * 256 + (t1 as u32)) * 256 + (t2 as u32)) * 256 + (t3 as u32),
            ssrc: (((c0 as u32) * 256 + (c1 as u32)) * 256 + (c2 as u32)) * 256 + (c3 as u32),
        },
    )
}

/// What the capture loop does with one received datagram of `len` bytes:
/// append the payload of a version-2, payload-type-0 packet, skip anything
/// else.
pub enum IngestAction {
    Append(Vec<u8>),
    Skip,
}

/// Decide what to do with a received datagram.  `buf` is the receive buffer
/// and `len` how many bytes the socket filled; the payload of an accepted
/// packet is everything after the 12 header bytes.
pub fn ingest_action(buf: &[u8], len: usize) -> (r: IngestAction)
    requires
        len <= buf@.len(),
    ensures
        ({
            let dgram = buf@.take(len as int);
            if spec_rtp_parses(dgram) && spec_parsed_pt(dgram) == 0 {
                r matches IngestAction::Append(p) && p@ == dgram.skip(12)
            } else {
                r is Skip
            }
        }),
{
    let dgram = slice_subrange(buf, 0, len);
    match parse_rtp_header(dgram) {
        Some(h) => {
            if h.payload_type == 0 {
                let payload = slice_subrange(dgram, 12, len);
                assert(payload@ =~= buf@.take(len as int).skip(12));
                IngestAction::Append(vstd::slice::slice_to_vec(payload))
            } else {
                IngestAction::Skip
            }
        },
        None => IngestAction::Skip,
    }
}

/// The recording cap: capture ends once more than 30 seconds have elapsed.
pub fn capture_should_stop(elapsed_secs: u64) -> (r: bool)
    ensures
        r == (elapsed_secs > 30),
{
    30 < elapsed_secs
}

/// How many 160-byte frames a greeting of `n` bytes yields.
pub open spec fn spec_frame_count(n: int) -> int {
    (n + 159) / 160
}

/// The bytes of greeting frame `i`: 160 bytes from offset `160·i`, shorter
/// for the final frame.
pub open spec fn spec_frame(data: Seq<u8>, i: int) -> Seq<u8> {
    data.subrange(160 * i, vstd::math::min(160 * (i + 1), data.len() as int))
}

/// Build the whole outbound greeting stream for one call.
///
/// Frame `i` (counting from zero) becomes an RTP packet with sequence number
/// `i + 1`, timestamp `160·i`, the call's SSRC, and the negotiated payload
/// type: sequence numbers run `1..=N`, timestamps `0, 160, …, 160·(N−1)`,
/// and SSRC and payload type are constant across the stream.
pub fn greeting_packets(data: &[u8], ssrc: u32, pt: u8) -> (r: Vec<Vec<u8>>)
    requires
        pt < 128,
        data@.len() <= 160 * 65535,
    ensures
        r@.len() == spec_frame_count(data@.len() as int),
        forall|i: int|
            0 <= i < r@.len() ==> #[trigger] r@[i]@ == spec_rtp_packet(
                pt,
                (i + 1) as u16,
                (160 * i) as u32,
                ssrc,
                spec_frame(data@, i),
            ),
{
    let mut out: Vec<Vec<u8>> = Vec::new();
    let n = data.len();
    let total = (n + 159) / 160;
    proof {
        vstd::arithmetic::div_mod::lemma_fundamental_div_mod(n as int + 159, 160);
    }
    let mut k: usize = 0;
    while k < total
        invariant
            pt < 128,
            n == data@.len(),
            total == spec_frame_count(n as int),
            total <= 65535,
            160 * total <= n + 159,
            n < 160 * total + 160,
            k <= total,
            out@.len() == k,
            forall|i: int|
                0 <= i < out@.len() ==> #[trigger] out@[i]@ == spec_rtp_packet(
                    pt,
                    (i + 1) as u16,
                    (160 * i) as u32,
                    ssrc,
                    spec_frame(data@, i),
                ),
        decreases total - k,
    {
        let start = k * 160;
        let end = if start + 160 <= n {
            start + 160
        } else {
            n
        };
        let chunk = slice_subrange(data, start, end);
        let packet = build_rtp_packet(pt, (k + 1) as u16, start as u32, ssrc, chunk);
        proof {
            assert(chunk@ =~= spec_frame(data@, k as int));
        }
        out.push(packet);
        k = k + 1;
    }
    out
}

} // verus!
