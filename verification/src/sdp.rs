//! SDP offer parsing and answer construction.
//!
//! Of an incoming offer only three things matter to the call: the `c=`
//! connection address, the port of the first `m=audio` line, and that
//! line's first format (the payload type).  The answer is a fixed template
//! around the locally bound address, port, payload type and SSRC.

use crate::utils::spec_dec;
use vstd::prelude::*;
use vstd::slice::slice_index_get;

verus! {

pub open spec fn is_digit_byte(b: u8) -> bool {
    '0' as u8 <= b && b <= '9' as u8
}

pub open spec fn has_prefix(s: Seq<u8>, p: Seq<u8>) -> bool {
    p.len() <= s.len() && s.take(p.len() as int) == p
}

pub open spec fn strip_cr(l: Seq<u8>) -> Seq<u8> {
    if l.len() > 0 && l.last() == '\r' as u8 {
        l.drop_last()
    } else {
        l
    }
}

pub open spec fn lines_acc(s: Seq<u8>, cur: Seq<u8>) -> Seq<Seq<u8>>
    decreases s.len(),
{
    if s.len() == 0 {
        seq![strip_cr(cur)]
    } else if s.first() == '\n' as u8 {
        seq![strip_cr(cur)] + lines_acc(s.drop_first(), Seq::empty())
    } else {
        lines_acc(s.drop_first(), cur.push(s.first()))
    }
}

/// The text split at newlines, each line with a trailing carriage return
/// removed.
pub open spec fn spec_lines(s: Seq<u8>) -> Seq<Seq<u8>> {
    lines_acc(s, Seq::empty())
}

/// The first line carrying the given prefix, if any.
pub open spec fn find_line_with_prefix(lines: Seq<Seq<u8>>, p: Seq<u8>) -> Option<Seq<u8>>
    decreases lines.len(),
{
    if lines.len() == 0 {
        Option::None
    } else if has_prefix(lines.first(), p) {
        Option::Some(lines.first())
    } else {
        find_line_with_prefix(lines.drop_first(), p)
    }
}

/// The first position at or after `from` holding byte `b`, or the length.
pub open spec fn find_byte_from(l: Seq<u8>, b: u8, from: int) -> int
    decreases l.len() - from,
{
    if from < 0 || from >= l.len() {
        l.len() as int
    } else if l[from] == b {
        from
    } else {
        find_byte_from(l, b, from + 1)
    }
}

/// The value of a string of decimal digits.
pub open spec fn spec_digits_val(s: Seq<u8>) -> int
    decreases s.len(),
{
    if s.len() == 0 {
        0
    } else {
        spec_digits_val(s.drop_last()) * 10 + (s.last() - ('0' as u8))
    }
}

pub open spec fn all_digits(s: Seq<u8>) -> bool {
    forall|i: int| 0 <= i < s.len() ==> is_digit_byte(#[trigger] s[i])
}

pub open spec fn spec_c_prefix() -> Seq<u8> {
    seq![
        'c' as u8,
        '=' as u8,
        'I' as u8,
        'N' as u8,
        ' ' as u8,
        'I' as u8,
        'P' as u8,
        '4' as u8,
        ' ' as u8,
    ]
}

pub open spec fn spec_c_short_prefix() -> Seq<u8> {
    seq!['c' as u8, '=' as u8]
}

pub open spec fn spec_m_audio_prefix() -> Seq<u8> {
    seq![
        'm' as u8,
        '=' as u8,
        'a' as u8,
        'u' as u8,
        'd' as u8,
        'i' as u8,
        'o' as u8,
        ' ' as u8,
    ]
}

/// The connection address on a `c=` line: the text after `c=IN IP4 `, up to
/// a `/` (which starts a TTL suffix) or the end of the line.  A `c=` line in
/// any other shape fails the parse.
pub open spec fn spec_conn_addr(l: Seq<u8>) -> Option<Seq<u8>> {
    if has_prefix(l, spec_c_prefix()) {
        Option::Some(l.subrange(9, find_byte_from(l, '/' as u8, 9)))
    } else {
        Option::None
    }
}

/// The port on an `m=audio` line: the decimal digits between the first two
/// spaces; missing or non-numeric digits, or a value above 65535, fail the
/// parse.
pub open spec fn spec_m_port(l: Seq<u8>) -> Option<int> {
    let port_str = l.subrange(8, find_byte_from(l, ' ' as u8, 8));
    if port_str.len() > 0 && all_digits(port_str) && spec_digits_val(port_str) <= 65535 {
        Option::Some(spec_digits_val(port_str))
    } else {
        Option::None
    }
}

/// The payload type on an `m=audio` line: everything after the transport
/// token, read as a decimal number; anything else — several formats, a
/// non-numeric token, a value above 255 — falls back to payload type 0.
pub open spec fn spec_m_pt(l: Seq<u8>) -> int {
    let sp1 = find_byte_from(l, ' ' as u8, 8);
    let sp2 = find_byte_from(l, ' ' as u8, sp1 + 1);
    if sp2 < l.len() {
        let fmt = l.subrange(sp2 + 1, l.len() as int);
        if fmt.len() > 0 && all_digits(fmt) && spec_digits_val(fmt) <= 255 {
            spec_digits_val(fmt)
        } else {
            0
        }
    } else {
        0
    }
}

#[derive(Clone, Copy, Debug, PartialEq, Eq, Structural)]
pub enum SdpError {
    /// No `c=` line in the offer.
    NoConnection,
    /// No `m=audio` line in the offer.
    NoAudioPort,
    /// A `c=` or `m=audio` line that does not parse.
    Malformed,
}

/// What the call needs from an offer.
#[derive(Debug, Clone)]
pub struct OfferInfo {
    /// The peer's connection address, as written in the offer.
    pub addr: Vec<u8>,
    /// The peer's RTP port.
    pub port: u16,
    /// The first declared payload type.
    pub payload_type: u8,
}

/// The whole offer parse: find the `c=` line and the first `m=audio` line,
/// extract address, port and payload type.
pub open spec fn spec_parse_offer(s: Seq<u8>) -> Result<(Seq<u8>, int, int), SdpError> {
    let lines = spec_lines(s);
    match find_line_with_prefix(lines, spec_c_short_prefix()) {
        Option::None => Result::Err(SdpError::NoConnection),
        Option::Some(cl) => match spec_conn_addr(cl) {
            Option::None => Result::Err(SdpError::Malformed),
            Option::Some(addr) => match find_line_with_prefix(lines, spec_m_audio_prefix()) {
                Option::None => Result::Err(SdpError::NoAudioPort),
                Option::Some(ml) => match spec_m_port(ml) {
                    Option::None => Result::Err(SdpError::Malformed),
                    Option::Some(port) => Result::Ok((addr, port, spec_m_pt(ml))),
                },
            },
        },
    }
}

/// Split the offer text into lines, dropping each line's trailing `\r`.
fn split_lines(body: &[u8]) -> (r: Vec<Vec<u8>>)
    ensures
        r@.map_values(|l: Vec<u8>| l@) == spec_lines(body@),
{
    let mut out: Vec<Vec<u8>> = Vec::new();
    let mut cur: Vec<u8> = Vec::new();
    let mut i: usize = 0;
    proof {
        assert(body@.skip(0) =~= body@);
        assert(out@.map_values(|l: Vec<u8>| l@) + lines_acc(body@, cur@) =~= lines_acc(
            body@,
            cur@,
        ));
    }
    while i < body.len()
        invariant
            i <= body@.len(),
            spec_lines(body@) == out@.map_values(|l: Vec<u8>| l@) + lines_acc(
                body@.skip(i as int),
                cur@,
            ),
        decreases body@.len() - i,
    {
        let b = *slice_index_get(body, i);
        proof {
            assert(body@.skip(i as int).first() == b);
            assert(body@.skip(i as int).drop_first() =~= body@.skip(i as int + 1));
        }
        if b == '\n' as u8 {
            let ghost prev = cur@;
            let mut line = cur;
            cur = Vec::new();
            if line.len() > 0 && *byte_at_ref(&line, line.len() - 1) == '\r' as u8 {
                line.pop();
                proof {
                    assert(line@ =~= strip_cr(prev));
                }
            }
            proof {
                assert(line@ == strip_cr(prev));
            }
            let ghost pre = out@;
            out.push(line);
            proof {
                assert(out@.map_values(|l: Vec<u8>| l@) =~= pre.map_values(
                    |l: Vec<u8>| l@,
                ).push(strip_cr(prev)));
            }
        } else {
            cur.push(b);
        }
        i = i + 1;
    }
    let ghost prev = cur@;
    let mut line = cur;
    if line.len() > 0 && *byte_at_ref(&line, line.len() - 1) == '\r' as u8 {
        line.pop();
        proof {
            assert(line@ =~= strip_cr(prev));
        }
    }
    proof {
        assert(line@ == strip_cr(prev));
    }
    let ghost pre = out@;
    out.push(line);
    proof {
        assert(out@.map_values(|l: Vec<u8>| l@) =~= pre.map_values(|l: Vec<u8>| l@).push(
            strip_cr(prev),
        ));
    }
    out
}

fn byte_at_ref(l: &Vec<u8>, i: usize) -> (r: &u8)
    requires
        i < l@.len(),
    ensures
        *r == l@[i as int],
{
    &l[i]
}

/// Does `s` start with `p`?
fn has_prefix_exec(s: &Vec<u8>, p: &Vec<u8>) -> (r: bool)
    ensures
        r == has_prefix(s@, p@),
{
    if p.len() > s.len() {
        assert(!has_prefix(s@, p@));
        return false;
    }
    let mut i: usize = 0;
    while i < p.len()
        invariant
            i <= p@.len() <= s@.len(),
            forall|j: int| 0 <= j < i ==> s@[j] == p@[j],
        decreases p@.len() - i,
    {
        if *byte_at_ref(s, i) != *byte_at_ref(p, i) {
            assert(s@.take(p@.len() as int)[i as int] != p@[i as int]);
            return false;
        }
        i = i + 1;
    }
    assert(s@.take(p@.len() as int) =~= p@);
    true
}

/// Index of the first line starting with `p`.
fn find_line(lines: &Vec<Vec<u8>>, p: &Vec<u8>) -> (r: Option<usize>)
    ensures
        ({
            let f = find_line_with_prefix(lines@.map_values(|l: Vec<u8>| l@), p@);
            match r {
                Option::Some(ix) => ix < lines@.len() && f == Option::Some(lines@[ix as int]@),
                Option::None => f is None,
            }
        }),
{
    let ghost all = lines@.map_values(|l: Vec<u8>| l@);
    let mut i: usize = 0;
    proof {
        assert(all.skip(0) =~= all);
    }
    while i < lines.len()
        invariant
            i <= lines@.len(),
            all == lines@.map_values(|l: Vec<u8>| l@),
            find_line_with_prefix(all, p@) == find_line_with_prefix(all.skip(i as int), p@),
        decreases lines@.len() - i,
    {
        proof {
            assert(all.skip(i as int).first() == lines@[i as int]@);
            assert(all.skip(i as int).drop_first() =~= all.skip(i as int + 1));
        }
        if has_prefix_exec(&lines[i], p) {
            return Some(i);
        }
        i = i + 1;
    }
    None
}

proof fn lemma_found_has_prefix(lines: Seq<Seq<u8>>, p: Seq<u8>)
    ensures
        find_line_with_prefix(lines, p) matches Option::Some(l) ==> has_prefix(l, p),
    decreases lines.len(),
{
    if lines.len() > 0 {
        lemma_found_has_prefix(lines.drop_first(), p);
    }
}

proof fn lemma_digits_prefix_le(s: Seq<u8>, i: int)
    requires
        all_digits(s),
        0 <= i <= s.len(),
    ensures
        spec_digits_val(s.take(i)) <= spec_digits_val(s),
        spec_digits_val(s) >= 0,
    decreases s.len(),
{
    if s.len() == 0 {
    } else if i == s.len() {
        assert(s.take(i) =~= s);
        lemma_digits_prefix_le(s.drop_last(), s.len() - 1);
    } else {
        assert(s.drop_last().take(i) =~= s.take(i));
        lemma_digits_prefix_le(s.drop_last(), i);
    }
}

/// Read the decimal number in `l[from..to]`; `None` when the range is empty,
/// holds a non-digit, or exceeds `max`.
fn parse_decimal(l: &Vec<u8>, from: usize, to: usize, max: u64) -> (r: Option<u64>)
    requires
        from <= to <= l@.len(),
        max <= 1000000,
    ensures
        ({
            let s = l@.subrange(from as int, to as int);
            match r {
                Option::Some(v) => s.len() > 0 && all_digits(s) && spec_digits_val(s) == v && v
                    <= max,
                Option::None => !(s.len() > 0 && all_digits(s) && spec_digits_val(s) <= max),
            }
        }),
{
    let ghost s = l@.subrange(from as int, to as int);
    if from == to {
        return None;
    }
    let mut acc: u64 = 0;
    let mut i: usize = from;
    while i < to
        invariant
            from <= i <= to <= l@.len(),
            s == l@.subrange(from as int, to as int),
            all_digits(s.take(i - from)),
            acc == spec_digits_val(s.take(i - from)),
            acc <= max,
            max <= 1000000,
        decreases to - i,
    {
        let b = *byte_at_ref(l, i);
        proof {
            assert(s[i - from] == l@[i as int]);
        }
        if b < '0' as u8 || b > '9' as u8 {
            proof {
                assert(!is_digit_byte(s[i - from]));
            }
            return None;
        }
        let d = (b - '0' as u8) as u64;
        proof {
            assert(s.take(i - from + 1).drop_last() =~= s.take(i - from));
            assert(s.take(i - from + 1).last() == l@[i as int]);
        }
        if acc > max / 10 || acc * 10 + d > max {
            proof {
                assert(all_digits(s.take(i - from + 1)));
                assert(spec_digits_val(s.take(i - from + 1)) > max);
                if all_digits(s) {
                    lemma_digits_prefix_le(s, i - from + 1);
                }
            }
            return None;
        }
        acc = acc * 10 + d;
        i = i + 1;
    }
    proof {
        assert(s.take(to - from) =~= s);
    }
    Some(acc)
}

/// Position of the first `b` in `l` at or after `from`, or the line length.
fn find_byte(l: &Vec<u8>, b: u8, from: usize) -> (r: usize)
    requires
        from <= l@.len(),
    ensures
        r == find_byte_from(l@, b, from as int),
        from <= r <= l@.len(),
{
    let mut i: usize = from;
    while i < l.len()
        invariant
            from <= i <= l@.len(),
            find_byte_from(l@, b, from as int) == find_byte_from(l@, b, i as int),
        decreases l@.len() - i,
    {
        if *byte_at_ref(l, i) == b {
            return i;
        }
        i = i + 1;
    }
    l.len()
}

fn c_prefix_vec() -> (r: Vec<u8>)
    ensures
        r@ == spec_c_prefix(),
{
    let mut v: Vec<u8> = Vec::new();
    v.push('c' as u8);
    v.push('=' as u8);
    v.push('I' as u8);
    v.push('N' as u8);
    v.push(' ' as u8);
    v.push('I' as u8);
    v.push('P' as u8);
    v.push('4' as u8);
    v.push(' ' as u8);
    assert(v@ =~= spec_c_prefix());
    v
}

fn c_short_prefix_vec() -> (r: Vec<u8>)
    ensures
        r@ == spec_c_short_prefix(),
{
    let mut v: Vec<u8> = Vec::new();
    v.push('c' as u8);
    v.push('=' as u8);
    assert(v@ =~= spec_c_short_prefix());
    v
}

fn m_audio_prefix_vec() -> (r: Vec<u8>)
    ensures
        r@ == spec_m_audio_prefix(),
{
    let mut v: Vec<u8> = Vec::new();
    v.push('m' as u8);
    v.push('=' as u8);
    v.push('a' as u8);
    v.push('u' as u8);
    v.push('d' as u8);
    v.push('i' as u8);
    v.push('o' as u8);
    v.push(' ' as u8);
    assert(v@ =~= spec_m_audio_prefix());
    v
}

fn copy_range(l: &Vec<u8>, from: usize, to: usize) -> (r: Vec<u8>)
    requires
        from <= to <= l@.len(),
    ensures
        r@ == l@.subrange(from as int, to as int),
{
    let mut out: Vec<u8> = Vec::new();
    let mut i: usize = from;
    while i < to
        invariant
            from <= i <= to <= l@.len(),
            out@ == l@.subrange(from as int, i as int),
        decreases to - i,
    {
        out.push(*byte_at_ref(l, i));
        assert(out@ =~= l@.subrange(from as int, i as int + 1));
        i = i + 1;
    }
    out
}

/// Parse an SDP offer down to the three facts the call needs: the peer's
/// connection address, its audio port, and the first payload type.
pub fn parse_offer(body: &[u8]) -> (r: Result<OfferInfo, SdpError>)
    ensures
        ({
            match r {
                Result::Ok(o) => spec_parse_offer(body@) == Result::<(Seq<u8>, int, int),
                    SdpError,
                >::Ok((o.addr@, o.port as int, o.payload_type as int)),
                Result::Err(e) => spec_parse_offer(body@) == Result::<(Seq<u8>, int, int),
                    SdpError,
                >::Err(e),
            }
        }),
{
    let lines = split_lines(body);
    let cl_ix = match find_line(&lines, &c_short_prefix_vec()) {
        Some(ix) => ix,
        None => {
            return Err(SdpError::NoConnection);
        },
    };
    let cl = &lines[cl_ix];
    if !has_prefix_exec(cl, &c_prefix_vec()) {
        return Err(SdpError::Malformed);
    }
    let addr_end = find_byte(cl, '/' as u8, 9);
    let addr = copy_range(cl, 9, addr_end);
    let ml_ix = match find_line(&lines, &m_audio_prefix_vec()) {
        Some(ix) => ix,
        None => {
            return Err(SdpError::NoAudioPort);
        },
    };
    let ml = &lines[ml_ix];
    proof {
        lemma_found_has_prefix(lines@.map_values(|l: Vec<u8>| l@), spec_m_audio_prefix());
    }
    let sp1 = find_byte(ml, ' ' as u8, 8);
    let port = match parse_decimal(ml, 8, sp1, 65535) {
        Some(v) => v as u16,
        None => {
            return Err(SdpError::Malformed);
        },
    };
    let sp2_from = if sp1 < ml.len() {
        sp1 + 1
    } else {
        sp1
    };
    let sp2 = find_byte(ml, ' ' as u8, sp2_from);
    proof {
        if sp1 < ml@.len() {
        } else {
            assert(find_byte_from(ml@, ' ' as u8, sp1 as int + 1) == ml@.len());
            assert(find_byte_from(ml@, ' ' as u8, sp1 as int) == ml@.len());
        }
    }
    let payload_type: u8 = if sp2 < ml.len() {
        match parse_decimal(ml, sp2 + 1, ml.len(), 255) {
            Some(v) => v as u8,
            None => 0u8,
        }
    } else {
        0u8
    };
    Ok(OfferInfo { addr, port, payload_type })
}

/// The codec name advertised in the answer's `rtpmap` line.
pub open spec fn spec_codec_name(pt: int) -> Seq<char> {
    if pt == 0 {
        "PCMU"@
    } else {
        "Unknown"@
    }
}

/// The answer SDP: the fixed template around the local address, RTP port,
/// payload type and SSRC, always advertising `sendrecv`.
pub open spec fn spec_answer_sdp(ip: Seq<char>, port: int, pt: int, ssrc: int) -> Seq<char> {
    "v=0\r\no=- 0 0 IN IP4 "@ + ip + "\r\ns=rsipstack example\r\nc=IN IP4 "@ + ip
        + "\r\nt=0 0\r\nm=audio "@ + spec_dec(port) + " RTP/AVP "@ + spec_dec(pt) + "\r\na=rtpmap:"@
        + spec_dec(pt) + " "@ + spec_codec_name(pt) + "/8000\r\na=ssrc:"@ + spec_dec(ssrc)
        + "\r\na=sendrecv\r\n"@
}

/// Render the answer SDP for the bound local endpoint.
pub fn build_answer_sdp(ip: &str, port: u16, pt: u8, ssrc: u32) -> (r: String)
    ensures
        r@ == spec_answer_sdp(ip@, port as int, pt as int, ssrc as int),
{
    let mut s = String::from_str("v=0\r\no=- 0 0 IN IP4 ");
    s.append(ip);
    s.append("\r\ns=rsipstack example\r\nc=IN IP4 ");
    s.append(ip);
    s.append("\r\nt=0 0\r\nm=audio ");
    let port_s = crate::utils::dec_u64(port as u64);
    s.append(port_s.as_str());
    s.append(" RTP/AVP ");
    let pt_s = crate::utils::dec_u64(pt as u64);
    s.append(pt_s.as_str());
    s.append("\r\na=rtpmap:");
    s.append(pt_s.as_str());
    s.append(" ");
    if pt == 0 {
        s.append("PCMU");
    } else {
        s.append("Unknown");
    }
    s.append("/8000\r\na=ssrc:");
    let ssrc_s = crate::utils::dec_u64(ssrc as u64);
    s.append(ssrc_s.as_str());
    s.append("\r\na=sendrecv\r\n");
    assert(s@ =~= spec_answer_sdp(ip@, port as int, pt as int, ssrc as int));
    s
}

/// The RTP ports the binder probes: `start + 2k` for the first hundred `k`.
pub fn rtp_candidate_ports(start: u16) -> (r: Vec<u16>)
    requires
        start + 198 <= u16::MAX,
    ensures
        r@.len() == 100,
        forall|k: int| 0 <= k < 100 ==> #[trigger] r@[k] == start + 2 * k,
{
    let mut out: Vec<u16> = Vec::new();
    let mut k: usize = 0;
    while k < 100
        invariant
            k <= 100,
            start + 198 <= u16::MAX,
            out@.len() == k,
            forall|j: int| 0 <= j < k ==> #[trigger] out@[j] == start + 2 * j,
        decreases 100 - k,
    {
        out.push(start + 2 * (k as u16));
        k = k + 1;
    }
    out
}

} // verus!
