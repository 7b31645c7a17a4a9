//! Small data utilities: trimming the zero padding off a recorded blob and
//! slicing audio data into fixed-size chunks.

use vstd::prelude::*;
use vstd::slice::{slice_index_get, slice_subrange};

verus! {

/// The blob with its trailing zero bytes removed: recorded audio is stored in
/// a pre-allocated buffer and the unused tail reads back as zeros.
pub open spec fn spec_trim(data: Seq<u8>) -> Seq<u8>
    decreases data.len(),
{
    if data.len() == 0 {
        data
    } else if data.last() != 0u8 {
        data
    } else {
        spec_trim(data.drop_last())
    }
}

proof fn lemma_trim_take_step(data: Seq<u8>, end: int)
    requires
        0 < end <= data.len(),
        data[end - 1] == 0u8,
    ensures
        spec_trim(data.take(end)) == spec_trim(data.take(end - 1)),
{
    assert(data.take(end).drop_last() =~= data.take(end - 1));
}

/// Strip the trailing zero bytes from recorded data, exposing the bytes that
/// were actually captured.
pub fn trim_null_bytes(data: &[u8]) -> (r: &[u8])
    ensures
        r@ == spec_trim(data@),
{
    let mut end: usize = data.len();
    assert(data@.take(end as int) =~= data@);
    while end > 0 && *slice_index_get(data, end - 1) == 0u8
        invariant
            end <= data@.len(),
            spec_trim(data@.take(end as int)) == spec_trim(data@),
        decreases end,
    {
        proof {
            lemma_trim_take_step(data@, end as int);
        }
        end = end - 1;
    }
    proof {
        if end > 0 {
            assert(data@.take(end as int).last() == data@[end - 1]);
        }
        assert(spec_trim(data@.take(end as int)) == data@.take(end as int));
    }
    slice_subrange(data, 0, end)
}

/// Fixed-size chunking over a byte buffer, in place of an iterator adapter:
/// `next` hands out successive `chunk_size`-byte slices, the last one short.
pub struct Chunked {
    data: Vec<u8>,
    chunk_size: usize,
    pos: usize,
}

impl Chunked {
    pub closed spec fn spec_data(&self) -> Seq<u8> {
        self.data@
    }

    pub closed spec fn spec_chunk_size(&self) -> nat {
        self.chunk_size as nat
    }

    pub closed spec fn spec_pos(&self) -> nat {
        self.pos as nat
    }

    pub open spec fn wf(&self) -> bool {
        self.spec_pos() <= self.spec_data().len()
    }

    /// The next chunk: `chunk_size` bytes from the current position, or the
    /// shorter remainder at the end; `None` once the data is exhausted, and
    /// always `None` for a zero chunk size.
    pub fn next(&mut self) -> (r: Option<Vec<u8>>)
        requires
            old(self).wf(),
        ensures
            final(self).wf(),
            final(self).spec_data() == old(self).spec_data(),
            final(self).spec_chunk_size() == old(self).spec_chunk_size(),
            old(self).spec_pos() == old(self).spec_data().len() || old(self).spec_chunk_size()
                == 0 ==> r is None && final(self).spec_pos() == old(self).spec_pos(),
            old(self).spec_pos() < old(self).spec_data().len() && old(self).spec_chunk_size() > 0
                ==> {
                let end = vstd::math::min(
                    old(self).spec_pos() + old(self).spec_chunk_size() as int,
                    old(self).spec_data().len() as int,
                );
                &&& r matches Some(chunk)
                &&& chunk@ == old(self).spec_data().subrange(old(self).spec_pos() as int, end)
                &&& final(self).spec_pos() == end
            },
    {
        if self.chunk_size == 0 || self.pos == self.data.len() {
            return None;
        }
        let remaining = self.data.len() - self.pos;
        let take = if self.chunk_size < remaining {
            self.chunk_size
        } else {
            remaining
        };
        let mut chunk: Vec<u8> = Vec::new();
        let mut i: usize = 0;
        while i < take
            invariant
                i <= take,
                self.pos + take <= self.data@.len(),
                self.data@.len() <= usize::MAX,
                chunk@ == self.data@.subrange(self.pos as int, self.pos + i),
            decreases take - i,
        {
            chunk.push(self.data[self.pos + i]);
            assert(chunk@ =~= self.data@.subrange(self.pos as int, self.pos + i + 1));
            i = i + 1;
        }
        self.pos = self.pos + take;
        Some(chunk)
    }
}

/// Wrap a byte buffer for fixed-size chunked traversal.
pub fn chunked(a: Vec<u8>, chunk_size: usize) -> (r: Chunked)
    ensures
        r.wf(),
        r.spec_data() == a@,
        r.spec_chunk_size() == chunk_size as nat,
        r.spec_pos() == 0,
{
    Chunked { data: a, chunk_size, pos: 0 }
}

/// Relies on std's `String::push`: appends exactly the one character.
#[verifier::external_body]
pub(crate) fn push_char(s: &mut String, c: char)
    ensures
        final(s)@ == old(s)@.push(c),
{
    s.push(c);
}

/// The ASCII character for one decimal digit.
pub open spec fn digit_char(d: int) -> char {
    if d == 0 {
        '0'
    } else if d == 1 {
        '1'
    } else if d == 2 {
        '2'
    } else if d == 3 {
        '3'
    } else if d == 4 {
        '4'
    } else if d == 5 {
        '5'
    } else if d == 6 {
        '6'
    } else if d == 7 {
        '7'
    } else if d == 8 {
        '8'
    } else {
        '9'
    }
}

pub(crate) fn push_digit(s: &mut String, d: u64)
    requires
        d < 10,
    ensures
        final(s)@ == old(s)@.push(digit_char(d as int)),
{
    let c = match d {
        0u64 => '0',
        1u64 => '1',
        2u64 => '2',
        3u64 => '3',
        4u64 => '4',
        5u64 => '5',
        6u64 => '6',
        7u64 => '7',
        8u64 => '8',
        _ => '9',
    };
    push_char(s, c);
}

/// The decimal rendering of a non-negative number, most significant digit
/// first, with no leading zeros.
pub open spec fn spec_dec(n: int) -> Seq<char>
    recommends
        n >= 0,
    decreases n,
{
    if n < 10 {
        seq![digit_char(n)]
    } else {
        spec_dec(n / 10).push(digit_char(n % 10))
    }
}

/// Render a number in decimal.
pub fn dec_u64(n: u64) -> (r: String)
    ensures
        r@ == spec_dec(n as int),
    decreases n,
{
    if n < 10 {
        let mut s = String::new();
        push_digit(&mut s, n);
        s
    } else {
        let mut s = dec_u64(n / 10);
        push_digit(&mut s, n % 10);
        s
    }
}

/// Join non-empty transcript fragments with single spaces, the way a list of
/// recognition results is folded into one line of text.
pub open spec fn spec_join_transcript(parts: Seq<Seq<char>>) -> Seq<char>
    decreases parts.len(),
{
    if parts.len() == 0 {
        Seq::empty()
    } else {
        let rest = spec_join_transcript(parts.drop_first());
        if parts.first().len() == 0 {
            rest
        } else if rest.len() == 0 {
            parts.first()
        } else {
            parts.first() + seq![' '] + rest
        }
    }
}

/// Fold a list of transcript fragments into one line: empty fragments are
/// dropped, the rest are joined with single spaces.
pub fn join_transcript(parts: &Vec<String>) -> (r: String)
    ensures
        r@ == spec_join_transcript(parts@.map_values(|p: String| p@)),
{
    let ghost views = parts@.map_values(|p: String| p@);
    let mut out = String::new();
    let mut i: usize = parts.len();
    while i > 0
        invariant
            i <= parts@.len(),
            views == parts@.map_values(|p: String| p@),
            out@ == spec_join_transcript(views.skip(i as int)),
        decreases i,
    {
        i = i - 1;
        let p = &parts[i];
        proof {
            assert(views.skip(i as int).first() == p@);
            assert(views.skip(i as int).drop_first() =~= views.skip(i as int + 1));
        }
        if !p.as_str().is_empty() {
            if out.as_str().is_empty() {
                out = p.clone();
                proof {
                    assert(spec_join_transcript(views.skip(i as int + 1)).len() == 0);
                }
            } else {
                let mut t = p.clone();
                push_char(&mut t, ' ');
                t.append(out.as_str());
                proof {
                    assert(t@ =~= p@ + seq![' '] + spec_join_transcript(
                        views.skip(i as int + 1),
                    ));
                }
                out = t;
            }
        }
    }
    proof {
        assert(views.skip(0) =~= views);
    }
    out
}

} // verus!
