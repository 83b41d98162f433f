//! Frame codec.
//!
//! One message on the wire is a run of `Key: Value` header lines, a blank
//! line, and then exactly as many payload bytes as the `Content-Length`
//! header announced.  Decoding works on a prefix of the byte stream gathered
//! so far: it either produces one whole frame, asks for more bytes, or
//! reports that the headers themselves are unusable.  Headers may come in any
//! order; unrecognized ones are ignored.

use crate::dec::{
    all_digit_bytes, dec_bytes, dec_val_bytes, format_dec, is_digit_byte, lemma_dec_bytes_wf,
    parse_digits_bytes,
};
use vstd::prelude::*;

verus! {

/// Why a byte stream could not be decoded as a frame.
#[derive(Clone, Copy, PartialEq, Eq, Structural, Debug)]
pub enum FrameError {
    /// The header section ended without a `Content-Length` header.
    MissingLength,
    /// The `Content-Length` value is not a valid non-negative integer.
    InvalidLength,
    /// The stream ended in the middle of a frame.
    Truncated,
}

/// Decoding a gathered prefix of the stream.
#[derive(Debug)]
pub enum DecodeResult {
    /// One whole frame: its payload, and how many bytes of the buffer it used.
    Frame { payload: Vec<u8>, consumed: usize },
    /// No verdict yet: more bytes may complete the frame.
    Incomplete,
    /// The header section is complete but unusable.
    Failed { err: FrameError },
}

/// Decoding when the stream has ended: an unfinished frame is an error.
#[derive(Debug)]
pub enum EofDecode {
    Frame { payload: Vec<u8>, consumed: usize },
    /// The stream ended cleanly at a frame boundary.
    End,
    Failed { err: FrameError },
}

/// The spec-level shape of a `DecodeResult`.
pub enum SpecDecode {
    Frame { payload: Seq<u8>, consumed: int },
    Incomplete,
    Failed { err: FrameError },
}

/// The spec-level shape of an `EofDecode`.
pub enum SpecEofDecode {
    Frame { payload: Seq<u8>, consumed: int },
    End,
    Failed { err: FrameError },
}

pub open spec fn decode_view(r: DecodeResult) -> SpecDecode {
    match r {
        DecodeResult::Frame { payload, consumed } => SpecDecode::Frame {
            payload: payload@,
            consumed: consumed as int,
        },
        DecodeResult::Incomplete => SpecDecode::Incomplete,
        DecodeResult::Failed { err } => SpecDecode::Failed { err },
    }
}

pub open spec fn eof_view(r: EofDecode) -> SpecEofDecode {
    match r {
        EofDecode::Frame { payload, consumed } => SpecEofDecode::Frame {
            payload: payload@,
            consumed: consumed as int,
        },
        EofDecode::End => SpecEofDecode::End,
        EofDecode::Failed { err } => SpecEofDecode::Failed { err },
    }
}

// ---------------------------------------------------------------------------
// The header bytes.
// ---------------------------------------------------------------------------

/// The ASCII bytes of `"Content-Length: "`.
pub open spec fn cl_prefix() -> Seq<u8> {
    Seq::new(16, |i: int| cl_prefix_byte(i))
}

/// Byte `i` of `"Content-Length: "`.
pub open spec fn cl_prefix_byte(i: int) -> u8 {
    if i == 0 {
        67u8
    } else if i == 1 {
        111u8
    } else if i == 2 {
        110u8
    } else if i == 3 {
        116u8
    } else if i == 4 {
        101u8
    } else if i == 5 {
        110u8
    } else if i == 6 {
        116u8
    } else if i == 7 {
        45u8
    } else if i == 8 {
        76u8
    } else if i == 9 {
        101u8
    } else if i == 10 {
        110u8
    } else if i == 11 {
        103u8
    } else if i == 12 {
        116u8
    } else if i == 13 {
        104u8
    } else if i == 14 {
        58u8
    } else {
        32u8
    }
}

/// The ASCII bytes of `"\r\n"`.
pub open spec fn crlf() -> Seq<u8> {
    seq![13u8, 10u8]
}

pub open spec fn is_ws_byte(b: u8) -> bool {
    b == 32 || b == 9 || b == 13 || b == 10
}

proof fn lemma_cl_prefix_bytes()
    ensures
        cl_prefix().len() == 16,
        forall|j: int| 0 <= j < 16 ==> #[trigger] cl_prefix()[j] != 10,
        cl_prefix()[0] == 67,
{
    assert forall|j: int| 0 <= j < 16 implies #[trigger] cl_prefix()[j] != 10 by {
        assert(cl_prefix()[j] == cl_prefix_byte(j));
    }
    assert(cl_prefix()[0] == cl_prefix_byte(0));
}

/// The 16 bytes of `"Content-Length: "` as a vector.
fn cl_prefix_vec() -> (r: Vec<u8>)
    ensures
        r@ == cl_prefix(),
{
    let mut v: Vec<u8> = Vec::new();
    v.push(67);
    v.push(111);
    v.push(110);
    v.push(116);
    v.push(101);
    v.push(110);
    v.push(116);
    v.push(45);
    v.push(76);
    v.push(101);
    v.push(110);
    v.push(103);
    v.push(116);
    v.push(104);
    v.push(58);
    v.push(32);
    proof {
        assert(v@ =~= cl_prefix());
    }
    v
}

fn push_all(out: &mut Vec<u8>, src: &[u8])
    ensures
        final(out)@ == old(out)@ + src@,
{
    let mut k: usize = 0;
    while k < src.len()
        invariant
            k <= src@.len(),
            out@ == old(out)@ + src@.take(k as int),
        decreases src@.len() - k,
    {
        out.push(src[k]);
        k = k + 1;
        proof {
            assert(old(out)@ + src@.take(k as int) =~= (old(out)@ + src@.take(k - 1)).push(
                src@[k - 1],
            ));
        }
    }
    proof {
        assert(src@.take(k as int) =~= src@);
    }
}

// ---------------------------------------------------------------------------
// Encoding.
// ---------------------------------------------------------------------------

/// What one payload looks like on the wire: the length header, a blank line,
/// then the payload itself.
pub open spec fn spec_encode(p: Seq<u8>) -> Seq<u8> {
    cl_prefix() + dec_bytes(p.len()) + crlf() + crlf() + p
}

/// Encode one payload as a frame.
pub fn encode_frame(payload: &[u8]) -> (r: Vec<u8>)
    ensures
        r@ == spec_encode(payload@),
{
    let mut out: Vec<u8> = Vec::new();
    let prefix = cl_prefix_vec();
    push_all(&mut out, prefix.as_slice());
    let digits = format_dec(payload.len());
    push_all(&mut out, digits.as_slice());
    out.push(13);
    out.push(10);
    out.push(13);
    out.push(10);
    push_all(&mut out, payload);
    proof {
        assert(out@ =~= spec_encode(payload@));
    }
    out
}

// ---------------------------------------------------------------------------
// Decoding: the spec.
// ---------------------------------------------------------------------------

/// The first `'\n'` at or after `i`.
pub open spec fn find_nl(buf: Seq<u8>, i: int) -> Option<int>
    decreases buf.len() - i,
{
    if i < 0 || i >= buf.len() {
        None
    } else if buf[i] == 10 {
        Some(i)
    } else {
        find_nl(buf, i + 1)
    }
}

/// The first index at or after `i` that holds no whitespace.
pub open spec fn skip_ws_from(s: Seq<u8>, i: int) -> int
    decreases s.len() - i,
{
    if 0 <= i < s.len() && is_ws_byte(s[i]) {
        skip_ws_from(s, i + 1)
    } else {
        i
    }
}

/// The end of the last non-whitespace byte strictly before `i`.
pub open spec fn rskip_ws_from(s: Seq<u8>, i: int) -> int
    decreases i,
{
    if 0 < i <= s.len() && is_ws_byte(s[i - 1]) {
        rskip_ws_from(s, i - 1)
    } else {
        i
    }
}

/// A header line with surrounding whitespace removed.
pub open spec fn line_trim(s: Seq<u8>) -> Seq<u8> {
    let lo = skip_ws_from(s, 0);
    let hi = rskip_ws_from(s, s.len() as int);
    if lo < hi {
        s.subrange(lo, hi)
    } else {
        Seq::empty()
    }
}

/// The value of a `Content-Length` field: an optional `'+'`, then decimal
/// digits naming a value that fits the machine.
pub open spec fn parse_len_field(f: Seq<u8>) -> Option<nat> {
    let d = if f.len() >= 1 && f[0] == 43 {
        f.skip(1)
    } else {
        f
    };
    if d.len() >= 1 && all_digit_bytes(d) && dec_val_bytes(d) <= usize::MAX {
        Some(dec_val_bytes(d))
    } else {
        None
    }
}

/// Decode one frame from `buf`, scanning header lines from `pos` with `len`
/// the `Content-Length` seen so far.
pub open spec fn spec_decode_from(buf: Seq<u8>, pos: int, len: Option<nat>) -> SpecDecode
    decreases buf.len() - pos,
    via spec_decode_from_decreases
{
    match find_nl(buf, pos) {
        None => SpecDecode::Incomplete,
        Some(nl) => {
            let t = line_trim(buf.subrange(pos, nl));
            if t.len() == 0 {
                match len {
                    None => SpecDecode::Failed { err: FrameError::MissingLength },
                    Some(n) => if buf.len() - (nl + 1) >= n {
                        SpecDecode::Frame {
                            payload: buf.subrange(nl + 1, nl + 1 + n),
                            consumed: nl + 1 + n,
                        }
                    } else {
                        SpecDecode::Incomplete
                    },
                }
            } else if cl_prefix().is_prefix_of(t) {
                match parse_len_field(t.skip(16)) {
                    None => SpecDecode::Failed { err: FrameError::InvalidLength },
                    Some(n) => spec_decode_from(buf, nl + 1, Some(n)),
                }
            } else {
                spec_decode_from(buf, nl + 1, len)
            }
        },
    }
}

#[via_fn]
proof fn spec_decode_from_decreases(buf: Seq<u8>, pos: int, len: Option<nat>) {
    lemma_find_nl_bounds(buf, pos);
}

/// Decode one frame from the front of `buf`.
pub open spec fn spec_decode(buf: Seq<u8>) -> SpecDecode {
    spec_decode_from(buf, 0, None)
}

/// Decode when the stream has ended after `buf`: an unfinished frame is a
/// `Truncated` error, and an empty remainder is a clean end.
pub open spec fn spec_decode_at_eof(buf: Seq<u8>) -> SpecEofDecode {
    match spec_decode(buf) {
        SpecDecode::Frame { payload, consumed } => SpecEofDecode::Frame { payload, consumed },
        SpecDecode::Failed { err } => SpecEofDecode::Failed { err },
        SpecDecode::Incomplete => if buf.len() == 0 {
            SpecEofDecode::End
        } else {
            SpecEofDecode::Failed { err: FrameError::Truncated }
        },
    }
}

// ---------------------------------------------------------------------------
// Decoding: lemmas tying the spec scans to executable scans.
// ---------------------------------------------------------------------------

proof fn lemma_find_nl_bounds(buf: Seq<u8>, i: int)
    ensures
        match find_nl(buf, i) {
            Some(nl) => i <= nl < buf.len() && buf[nl] == 10,
            None => true,
        },
    decreases buf.len() - i,
{
    if 0 <= i < buf.len() && buf[i] != 10 {
        lemma_find_nl_bounds(buf, i + 1);
    }
}

proof fn lemma_find_nl_step(buf: Seq<u8>, i: int, k: int)
    requires
        0 <= i <= k <= buf.len(),
        forall|j: int| i <= j < k ==> buf[j] != 10,
    ensures
        find_nl(buf, i) == find_nl(buf, k),
    decreases k - i,
{
    if i < k {
        lemma_find_nl_step(buf, i + 1, k);
    }
}

proof fn lemma_skip_ws_step(s: Seq<u8>, i: int, k: int)
    requires
        0 <= i <= k <= s.len(),
        forall|j: int| i <= j < k ==> is_ws_byte(#[trigger] s[j]),
    ensures
        skip_ws_from(s, i) == skip_ws_from(s, k),
    decreases k - i,
{
    if i < k {
        lemma_skip_ws_step(s, i + 1, k);
    }
}

proof fn lemma_rskip_ws_bounds(s: Seq<u8>, i: int)
    requires
        0 <= i <= s.len(),
    ensures
        0 <= rskip_ws_from(s, i) <= i,
    decreases i,
{
    if 0 < i && is_ws_byte(s[i - 1]) {
        lemma_rskip_ws_bounds(s, i - 1);
    }
}

proof fn lemma_rskip_ws_step(s: Seq<u8>, i: int, k: int)
    requires
        0 <= k <= i <= s.len(),
        forall|j: int| k <= j < i ==> is_ws_byte(#[trigger] s[j]),
    ensures
        rskip_ws_from(s, i) == rskip_ws_from(s, k),
    decreases i - k,
{
    if k < i {
        lemma_rskip_ws_step(s, i - 1, k);
    }
}

// ---------------------------------------------------------------------------
// Decoding: the executable scans.
// ---------------------------------------------------------------------------

fn find_newline(buf: &[u8], from: usize) -> (r: Option<usize>)
    requires
        from <= buf@.len(),
    ensures
        match r {
            Some(k) => find_nl(buf@, from as int) == Some(k as int) && from <= k < buf@.len(),
            None => find_nl(buf@, from as int) is None,
        },
{
    let mut i: usize = from;
    while i < buf.len()
        invariant
            from <= i <= buf@.len(),
            forall|j: int| from <= j < i ==> buf@[j] != 10,
        decreases buf@.len() - i,
    {
        if buf[i] == 10 {
            proof {
                lemma_find_nl_step(buf@, from as int, i as int);
            }
            return Some(i);
        }
        i = i + 1;
    }
    proof {
        lemma_find_nl_step(buf@, from as int, i as int);
    }
    None
}

fn trim_range(buf: &[u8], from: usize, to: usize) -> (r: (usize, usize))
    requires
        from <= to <= buf@.len(),
    ensures
        from <= r.0 <= r.1 <= to,
        line_trim(buf@.subrange(from as int, to as int)) == if r.0 < r.1 {
            buf@.subrange(r.0 as int, r.1 as int)
        } else {
            Seq::<u8>::empty()
        },
{
    let ghost sub = buf@.subrange(from as int, to as int);
    let mut lo: usize = from;
    while lo < to && (buf[lo] == 32 || buf[lo] == 9 || buf[lo] == 13 || buf[lo] == 10)
        invariant
            from <= lo <= to <= buf@.len(),
            forall|j: int| from <= j < lo ==> is_ws_byte(#[trigger] buf@[j]),
        decreases to - lo,
    {
        lo = lo + 1;
    }
    let mut hi: usize = to;
    while hi > lo && (buf[hi - 1] == 32 || buf[hi - 1] == 9 || buf[hi - 1] == 13 || buf[hi - 1]
        == 10)
        invariant
            lo <= hi <= to <= buf@.len(),
            forall|j: int| hi <= j < to ==> is_ws_byte(#[trigger] buf@[j]),
        decreases hi,
    {
        hi = hi - 1;
    }
    proof {
        assert(forall|j: int| 0 <= j < sub.len() ==> sub[j] == buf@[from + j]);
        assert(forall|j: int| 0 <= j < lo - from ==> is_ws_byte(#[trigger] sub[j]));
        lemma_skip_ws_step(sub, 0, lo - from);
        if lo == to {
            // the whole line is whitespace
            assert(skip_ws_from(sub, lo - from) == lo - from);
            lemma_rskip_ws_bounds(sub, sub.len() as int);
            assert(line_trim(sub) =~= Seq::<u8>::empty());
        } else {
            assert(!is_ws_byte(sub[lo - from]));
            assert(skip_ws_from(sub, lo - from) == lo - from);
            assert(forall|j: int| hi - from <= j < to - from ==> is_ws_byte(#[trigger] sub[j]));
            lemma_rskip_ws_step(sub, sub.len() as int, hi - from);
            // `hi == lo` would mean every byte from `lo` on is whitespace,
            // against the stop condition of the first scan
            assert(hi > lo);
            assert(!is_ws_byte(sub[hi - from - 1]));
            assert(rskip_ws_from(sub, hi - from) == hi - from);
            assert(line_trim(sub) =~= buf@.subrange(lo as int, hi as int));
        }
    }
    (lo, hi)
}

fn has_cl_prefix(buf: &[u8], lo: usize, hi: usize) -> (r: bool)
    requires
        lo <= hi <= buf@.len(),
    ensures
        r == cl_prefix().is_prefix_of(buf@.subrange(lo as int, hi as int)),
{
    let ghost t = buf@.subrange(lo as int, hi as int);
    proof {
        lemma_cl_prefix_bytes();
    }
    if hi - lo < 16 {
        return false;
    }
    let p = cl_prefix_vec();
    let mut k: usize = 0;
    while k < 16
        invariant
            k <= 16,
            16 <= hi - lo,
            lo <= hi <= buf@.len(),
            p@ == cl_prefix(),
            t == buf@.subrange(lo as int, hi as int),
            forall|j: int| 0 <= j < k ==> t[j] == cl_prefix()[j],
        decreases 16 - k,
    {
        if buf[lo + k] != p[k] {
            proof {
                assert(t[k as int] == buf@[lo + k]);
                assert(!cl_prefix().is_prefix_of(t));
            }
            return false;
        }
        proof {
            assert(t[k as int] == buf@[lo + k]);
        }
        k = k + 1;
    }
    proof {
        assert(t.take(16) =~= cl_prefix());
    }
    true
}

// ---------------------------------------------------------------------------
// Decoding: the decoder itself.
// ---------------------------------------------------------------------------

pub open spec fn cl_opt_view(cl: Option<usize>) -> Option<nat> {
    match cl {
        Some(n) => Some(n as nat),
        None => None,
    }
}

/// Decode one frame from the front of `buf`.
pub fn decode_frame(buf: &[u8]) -> (r: DecodeResult)
    ensures
        decode_view(r) == spec_decode(buf@),
        (r matches DecodeResult::Frame { consumed, .. } ==> consumed <= buf@.len()),
{
    let mut pos: usize = 0;
    let mut cl: Option<usize> = None;
    loop
        invariant
            pos <= buf@.len(),
            spec_decode_from(buf@, pos as int, cl_opt_view(cl)) == spec_decode(buf@),
        decreases buf@.len() - pos,
    {
        let nl = match find_newline(buf, pos) {
            None => {
                return DecodeResult::Incomplete;
            },
            Some(nl) => nl,
        };
        let (lo, hi) = trim_range(buf, pos, nl);
        let ghost t = line_trim(buf@.subrange(pos as int, nl as int));
        if lo >= hi {
            // blank line: the header section is over
            match cl {
                None => {
                    return DecodeResult::Failed { err: FrameError::MissingLength };
                },
                Some(n) => {
                    let total = buf.len();
                    let body = nl + 1;
                    if total - body >= n {
                        let payload = vstd::slice::slice_to_vec(&buf[body..body + n]);
                        proof {
                            assert(payload@ =~= buf@.subrange(body as int, body + n));
                        }
                        return DecodeResult::Frame { payload, consumed: body + n };
                    } else {
                        return DecodeResult::Incomplete;
                    }
                },
            }
        } else {
            if has_cl_prefix(buf, lo, hi) {
                proof {
                    lemma_cl_prefix_bytes();
                    assert(t == buf@.subrange(lo as int, hi as int));
                    assert(t.skip(16) =~= buf@.subrange(lo + 16, hi as int));
                }
                let mut start = lo + 16;
                if start < hi && buf[start] == 43 {
                    proof {
                        assert(t.skip(16)[0] == buf@[start as int]);
                    }
                    start = start + 1;
                    proof {
                        assert(buf@.subrange(start as int, hi as int) =~= t.skip(16).skip(1));
                    }
                } else {
                    proof {
                        if start < hi {
                            assert(t.skip(16)[0] == buf@[start as int]);
                        }
                        assert(buf@.subrange(start as int, hi as int) =~= t.skip(16));
                    }
                }
                match parse_digits_bytes(buf, start, hi) {
                    Some(n) => {
                        cl = Some(n);
                    },
                    None => {
                        return DecodeResult::Failed { err: FrameError::InvalidLength };
                    },
                }
            }
            pos = nl + 1;
        }
    }
}

/// Decode when the stream has ended after `buf`.
pub fn decode_frame_at_eof(buf: &[u8]) -> (r: EofDecode)
    ensures
        eof_view(r) == spec_decode_at_eof(buf@),
        (r matches EofDecode::Frame { consumed, .. } ==> consumed <= buf@.len()),
{
    match decode_frame(buf) {
        DecodeResult::Frame { payload, consumed } => EofDecode::Frame { payload, consumed },
        DecodeResult::Failed { err } => EofDecode::Failed { err },
        DecodeResult::Incomplete => {
            if buf.len() == 0 {
                EofDecode::End
            } else {
                EofDecode::Failed { err: FrameError::Truncated }
            }
        },
    }
}


// ---------------------------------------------------------------------------
// Laws.
// ---------------------------------------------------------------------------

/// How one well-formed frame at the front of a stream decodes: a header
/// announcing `n` payload bytes followed by `tail` yields the first `n` bytes
/// of `tail` once they are all there, and no verdict before that.
proof fn lemma_decode_header(n: nat, tail: Seq<u8>)
    requires
        n <= usize::MAX,
    ensures
        ({
            let buf = cl_prefix() + dec_bytes(n) + crlf() + crlf() + tail;
            spec_decode(buf) == if tail.len() >= n {
                SpecDecode::Frame {
                    payload: tail.take(n as int),
                    consumed: buf.len() - tail.len() + n,
                }
            } else {
                SpecDecode::Incomplete
            }
        }),
{
    lemma_cl_prefix_bytes();
    lemma_dec_bytes_wf(n);
    let d = dec_bytes(n);
    let dl = d.len() as int;
    let buf = cl_prefix() + d + crlf() + crlf() + tail;
    let hl = 16 + dl;
    assert(buf.len() == hl + 4 + tail.len());
    assert forall|j: int| 0 <= j < 16 implies #[trigger] buf[j] == cl_prefix()[j] by {}
    assert forall|j: int| 0 <= j < dl implies #[trigger] buf[16 + j] == d[j] by {}
    assert(buf[hl] == 13);
    assert(buf[hl + 1] == 10);
    assert(buf[hl + 2] == 13);
    assert(buf[hl + 3] == 10);

    // the first line runs up to the newline after the length header
    assert forall|j: int| 0 <= j < hl + 1 implies #[trigger] buf[j] != 10 by {
        if j < 16 {
            assert(buf[j] == cl_prefix()[j]);
        } else if j < hl {
            assert(buf[j] == d[j - 16]);
            assert(is_digit_byte(d[j - 16]));
        }
    }
    lemma_find_nl_step(buf, 0, hl + 1);
    assert(find_nl(buf, hl + 1) == Some(hl + 1));

    let line = buf.subrange(0, hl + 1);
    assert(line.len() == hl + 1);
    assert(line[0] == 67);
    assert(!is_ws_byte(line[0]));
    assert(skip_ws_from(line, 0) == 0);
    assert(line[hl] == 13);
    assert(rskip_ws_from(line, hl + 1) == rskip_ws_from(line, hl));
    assert(is_digit_byte(d[dl - 1]));
    assert(line[hl - 1] == d[dl - 1]);
    assert(!is_ws_byte(line[hl - 1]));
    assert(rskip_ws_from(line, hl) == hl);
    let t = line_trim(line);
    assert(t == line.subrange(0, hl));
    assert(t.len() == hl);

    assert(t.take(16) =~= cl_prefix());
    assert(cl_prefix().is_prefix_of(t));
    assert(t.skip(16) =~= d);
    assert(is_digit_byte(d[0]));
    assert(d[0] != 43);
    assert(parse_len_field(d) == Some(n));

    assert(spec_decode(buf) == spec_decode_from(buf, hl + 2, Some(n)));

    // the second line is blank: the headers are over
    assert(find_nl(buf, hl + 3) == Some(hl + 3));
    lemma_find_nl_step(buf, hl + 2, hl + 3);
    let line2 = buf.subrange(hl + 2, hl + 3);
    assert(line2.len() == 1);
    assert(line2[0] == 13);
    assert(skip_ws_from(line2, 0) == skip_ws_from(line2, 1));
    assert(skip_ws_from(line2, 1) == 1);
    assert(rskip_ws_from(line2, 1) == rskip_ws_from(line2, 0));
    assert(rskip_ws_from(line2, 0) == 0);
    assert(line_trim(line2).len() == 0);

    assert(buf.len() - (hl + 4) == tail.len());
    if tail.len() >= n {
        assert(buf.subrange(hl + 4, hl + 4 + n) =~= tail.take(n as int));
        assert(spec_decode_from(buf, hl + 2, Some(n)) == SpecDecode::Frame {
            payload: tail.take(n as int),
            consumed: hl + 4 + n,
        });
    } else {
        assert(spec_decode_from(buf, hl + 2, Some(n)) == SpecDecode::Incomplete);
    }
}

/// Law: a round trip through the codec is the identity on payloads.  Whatever
/// payload is encoded, decoding the stream that starts with that frame yields
/// the payload byte for byte, consuming exactly the frame, whatever follows
/// and for every payload length, zero included.
pub proof fn lemma_encode_decode_roundtrip(p: Seq<u8>, rest: Seq<u8>)
    requires
        p.len() <= usize::MAX,
    ensures
        (spec_decode(spec_encode(p) + rest) == SpecDecode::Frame {
            payload: p,
            consumed: spec_encode(p).len() as int,
        }),
{
    lemma_decode_header(p.len(), p + rest);
    assert(spec_encode(p) + rest =~= cl_prefix() + dec_bytes(p.len()) + crlf() + crlf() + (p
        + rest));
    assert((p + rest).take(p.len() as int) =~= p);
    assert((p + rest).len() >= p.len());
}

/// Law: a stream that ends after a header announcing more payload bytes than
/// it supplies is a framing error, never a truncated payload.
pub proof fn lemma_truncated_is_error(n: nat, body: Seq<u8>)
    requires
        body.len() < n <= usize::MAX,
    ensures
        (spec_decode_at_eof(cl_prefix() + dec_bytes(n) + crlf() + crlf() + body)
            == SpecEofDecode::Failed { err: FrameError::Truncated }),
{
    lemma_decode_header(n, body);
    lemma_cl_prefix_bytes();
    assert((cl_prefix() + dec_bytes(n) + crlf() + crlf() + body).len() > 0);
}

} // verus!

