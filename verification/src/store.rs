//! Model of the pre-allocated recording blob.
//!
//! A recording row's `data` column is created at a fixed capacity, filled
//! with zeros, and then written in place at a running offset as audio
//! frames arrive.  A write starting past the end of the buffer — a failed
//! seek — is a no-op that returns the offset unchanged, so the caller can
//! retry at the same position.  Writes that run past the end are truncated.

use vstd::math::min;
use vstd::prelude::*;

verus! {

/// Capacity pre-allocated for one recording: 30 s of 8 kHz µ-law audio,
/// rounded up.
pub const BLOB_CAPACITY: usize = 300000;

pub open spec fn zeros(n: int) -> Seq<u8> {
    Seq::new(n as nat, |i: int| 0u8)
}

/// One in-place append: no-op past the end, else write as many bytes as fit.
/// Returns the new buffer and the new offset.
pub open spec fn spec_append(blob: Seq<u8>, offset: int, data: Seq<u8>) -> (Seq<u8>, int) {
    if offset > blob.len() {
        (blob, offset)
    } else {
        let w = min(data.len() as int, blob.len() - offset);
        (blob.take(offset) + data.take(w) + blob.skip(offset + w), offset + w)
    }
}

/// A zero-filled buffer of the given capacity, as pre-allocated for a new
/// recording row.
pub fn zero_blob(capacity: usize) -> (r: Vec<u8>)
    ensures
        r@ == zeros(capacity as int),
{
    let mut out: Vec<u8> = Vec::new();
    let mut i: usize = 0;
    while i < capacity
        invariant
            i <= capacity,
            out@ == zeros(i as int),
        decreases capacity - i,
    {
        out.push(0u8);
        assert(out@ =~= zeros(i as int + 1));
        i = i + 1;
    }
    out
}

/// Write `data` into `blob` at `offset`, in place.  An offset past the end
/// fails like a failed seek: nothing changes and the offset comes back as
/// it went in.  Otherwise the bytes that fit are written and the new offset
/// is the old one plus the number written.
pub fn append_at(blob: &mut Vec<u8>, offset: usize, data: &[u8]) -> (newoff: usize)
    requires
        offset + data@.len() <= usize::MAX,
    ensures
        final(blob)@ == spec_append(old(blob)@, offset as int, data@).0,
        newoff as int == spec_append(old(blob)@, offset as int, data@).1,
{
    let n = blob.len();
    if offset > n {
        return offset;
    }
    let w = if data.len() < n - offset {
        data.len()
    } else {
        n - offset
    };
    let mut i: usize = 0;
    while i < w
        invariant
            i <= w,
            offset + w <= blob@.len(),
            offset + w <= usize::MAX,
            w <= data@.len(),
            blob@.len() == old(blob)@.len(),
            blob@ == old(blob)@.take(offset as int) + data@.take(i as int) + old(blob)@.skip(
                offset + i,
            ),
        decreases w - i,
    {
        proof {
            assert(old(blob)@.skip(offset + i).len() > 0);
        }
        blob[offset + i] = *vstd::slice::slice_index_get(data, i);
        proof {
            assert(blob@ =~= old(blob)@.take(offset as int) + data@.take(i as int + 1) + old(
                blob,
            )@.skip(offset + i + 1));
        }
        i = i + 1;
    }
    offset + w
}

/// A write that starts past the end of the buffer leaves blob and offset
/// untouched, and repeating it changes nothing either: retrying an append
/// after a failed seek is safe at the same cursor position.
pub proof fn lemma_append_seek_failure_idempotent(blob: Seq<u8>, offset: int, data: Seq<u8>)
    requires
        offset > blob.len(),
    ensures
        spec_append(blob, offset, data) == (blob, offset),
        spec_append(spec_append(blob, offset, data).0, spec_append(blob, offset, data).1, data)
            == (blob, offset),
{
}

/// All the chunks of a capture, appended in order at the running offset.
pub open spec fn spec_capture(blob: Seq<u8>, offset: int, chunks: Seq<Seq<u8>>) -> (Seq<u8>, int)
    decreases chunks.len(),
{
    if chunks.len() == 0 {
        (blob, offset)
    } else {
        let step = spec_append(blob, offset, chunks.first());
        spec_capture(step.0, step.1, chunks.drop_first())
    }
}

/// The chunks of a capture laid end to end.
pub open spec fn spec_concat(chunks: Seq<Seq<u8>>) -> Seq<u8>
    decreases chunks.len(),
{
    if chunks.len() == 0 {
        Seq::empty()
    } else {
        chunks.first() + spec_concat(chunks.drop_first())
    }
}

proof fn lemma_capture_general(blob: Seq<u8>, offset: int, chunks: Seq<Seq<u8>>)
    requires
        0 <= offset <= blob.len(),
        offset + spec_concat(chunks).len() <= blob.len(),
        forall|j: int| offset <= j < blob.len() ==> blob[j] == 0u8,
    ensures
        spec_capture(blob, offset, chunks).1 == offset + spec_concat(chunks).len(),
        spec_capture(blob, offset, chunks).0 =~= blob.take(offset) + spec_concat(chunks) + zeros(
            blob.len() - offset - spec_concat(chunks).len(),
        ),
    decreases chunks.len(),
{
    if chunks.len() == 0 {
        assert(blob =~= blob.take(offset) + spec_concat(chunks) + zeros(blob.len() - offset));
    } else {
        let c = chunks.first();
        let step = spec_append(blob, offset, c);
        assert(c.len() + spec_concat(chunks.drop_first()).len() == spec_concat(chunks).len());
        assert(c.take(c.len() as int) =~= c);
        let blob1 = step.0;
        assert(step.1 == offset + c.len());
        assert(blob1.len() == blob.len());
        assert forall|j: int| offset + c.len() <= j < blob1.len() implies blob1[j] == 0u8 by {
            assert(blob1[j] == blob[j]);
        }
        lemma_capture_general(blob1, offset + c.len(), chunks.drop_first());
        let rest = spec_concat(chunks.drop_first());
        assert(spec_capture(blob, offset, chunks).0 =~= blob1.take(offset + c.len()) + rest
            + zeros(blob.len() - offset - spec_concat(chunks).len()));
        assert(blob1.take(offset + c.len()) =~= blob.take(offset) + c);
        assert(blob.take(offset) + c + rest + zeros(
            blob.len() - offset - spec_concat(chunks).len(),
        ) =~= blob.take(offset) + spec_concat(chunks) + zeros(
            blob.len() - offset - spec_concat(chunks).len(),
        ));
    }
}

/// Capturing chunks into a fresh zero-filled buffer leaves exactly the
/// received bytes as a prefix, the rest of the buffer still zero, and the
/// final offset equal to the number of bytes received.
pub proof fn lemma_capture_prefix(capacity: int, chunks: Seq<Seq<u8>>)
    requires
        0 <= spec_concat(chunks).len() <= capacity,
    ensures
        spec_capture(zeros(capacity), 0, chunks).1 == spec_concat(chunks).len(),
        spec_capture(zeros(capacity), 0, chunks).0 =~= spec_concat(chunks) + zeros(
            capacity - spec_concat(chunks).len(),
        ),
{
    lemma_capture_general(zeros(capacity), 0, chunks);
    assert(zeros(capacity).take(0) =~= Seq::<u8>::empty());
    assert(Seq::<u8>::empty() + spec_concat(chunks) + zeros(capacity - spec_concat(chunks).len())
        =~= spec_concat(chunks) + zeros(capacity - spec_concat(chunks).len()));
}

proof fn lemma_trim_zeros_tail(b: Seq<u8>, k: int)
    requires
        k >= 0,
    ensures
        crate::utils::spec_trim(b + zeros(k)) == crate::utils::spec_trim(b),
    decreases k,
{
    if k == 0 {
        assert(b + zeros(0) =~= b);
    } else {
        assert((b + zeros(k)).last() == 0u8);
        assert((b + zeros(k)).drop_last() =~= b + zeros(k - 1));
        lemma_trim_zeros_tail(b, k - 1);
    }
}

/// Reading a capture back: trimming the zero padding off the stored buffer
/// returns exactly the received bytes, as long as the capture itself does
/// not end in a zero byte.
pub proof fn lemma_capture_read_back(capacity: int, chunks: Seq<Seq<u8>>)
    requires
        0 <= spec_concat(chunks).len() <= capacity,
        spec_concat(chunks).len() == 0 || spec_concat(chunks).last() != 0u8,
    ensures
        crate::utils::spec_trim(spec_capture(zeros(capacity), 0, chunks).0) == spec_concat(
            chunks,
        ),
{
    lemma_capture_prefix(capacity, chunks);
    lemma_trim_zeros_tail(spec_concat(chunks), capacity - spec_concat(chunks).len());
}

} // verus!
