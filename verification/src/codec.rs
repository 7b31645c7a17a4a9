//! µ-law decoding.
//!
//! Recorded audio is stored as G.711 µ-law bytes; the transcription path
//! decodes it to linear 16-bit PCM samples first.

use vstd::prelude::*;

verus! {

pub open spec fn pow2(e: int) -> int
    decreases e,
{
    if e <= 0 {
        1
    } else {
        2 * pow2(e - 1)
    }
}

/// The linear value of one µ-law byte, in closed form: complement the byte,
/// split it into sign, exponent and mantissa, and expand the magnitude as
/// `(mantissa·8 + 132)·2^exponent − 132`.
pub open spec fn spec_decode_ulaw(b: u8) -> int {
    let c = 255 - b;
    let exponent = (c as int / 16) % 8;
    let mantissa = c as int % 16;
    let magnitude = (mantissa * 8 + 132) * pow2(exponent) - 132;
    if c >= 128 {
        -magnitude
    } else {
        magnitude
    }
}

/// Relies on audio-codec-algorithms' `decode_ulaw`: its decoding table holds
/// exactly the closed form above at every index.
#[verifier::external_body]
fn decode_ulaw_byte(b: u8) -> (r: i16)
    ensures
        r as int == spec_decode_ulaw(b),
{
    audio_codec_algorithms::decode_ulaw(b)
}

/// Decode a µ-law byte string into linear PCM samples.
pub fn decode_ulaw(pcmu: &[u8]) -> (r: Vec<i16>)
    ensures
        r@.len() == pcmu@.len(),
        forall|i: int| 0 <= i < r@.len() ==> #[trigger] r@[i] as int == spec_decode_ulaw(pcmu@[i]),
{
    let mut out: Vec<i16> = Vec::new();
    let mut i: usize = 0;
    while i < pcmu.len()
        invariant
            i <= pcmu@.len(),
            out@.len() == i,
            forall|j: int|
                0 <= j < i ==> #[trigger] out@[j] as int == spec_decode_ulaw(pcmu@[j]),
        decreases pcmu@.len() - i,
    {
        out.push(decode_ulaw_byte(*vstd::slice::slice_index_get(pcmu, i)));
        i = i + 1;
    }
    out
}

} // verus!
