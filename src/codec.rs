//! The frame codec: requests into bytes, and a byte stream into responses.
//!
//! The decoder is fed a buffer that the transport appends to. It keeps a
//! cursor: how far the buffer is known to hold no terminator, so that each
//! byte is looked at once however the stream is cut into pieces.
use vstd::prelude::*;
use vstd::slice::slice_subrange;
use vstd::string::*;
use vstd::utf8::encode_utf8;

use crate::framing::drain;
use crate::request::{request_text, Request};
use crate::response::{parse_frame, parses_to, Response, ResponseParseError};

verus! {

#[verifier::external_type_specification]
#[verifier::external_body]
pub struct ExBytesMut(bytes::BytesMut);

/// The bytes that the buffer `b` holds.
pub uninterp spec fn buffer_of(b: bytes::BytesMut) -> Seq<u8>;

/// Relies on `<BytesMut as Deref>::deref`: a view of the bytes it holds.
#[verifier::external_body]
fn buffer_bytes(b: &bytes::BytesMut) -> (r: &[u8])
    ensures
        r@ == buffer_of(*b),
{
    &b[..]
}

/// Relies on `BytesMut::split_to`: the first `at` bytes move to the result,
/// the rest stay.
#[verifier::external_body]
fn split_front(b: &mut bytes::BytesMut, at: usize) -> (r: bytes::BytesMut)
    requires
        at <= buffer_of(*old(b)).len(),
    ensures
        buffer_of(r) == buffer_of(*old(b)).subrange(0, at as int),
        buffer_of(*final(b)) == buffer_of(*old(b)).subrange(at as int, buffer_of(*old(b)).len() as int),
{
    b.split_to(at)
}

/// Relies on `BytesMut::extend_from_slice`: the bytes of `s` are appended.
#[verifier::external_body]
fn append_bytes(b: &mut bytes::BytesMut, s: &[u8])
    ensures
        buffer_of(*final(b)) == buffer_of(*old(b)) + s@,
{
    b.extend_from_slice(s)
}

/// The frame terminator.
pub open spec fn terminator() -> u8 {
    0x04
}

/// The index of the first terminator in `b` at or after `from`.
pub open spec fn first_terminator_from(b: Seq<u8>, from: int) -> Option<int>
    decreases b.len() - from,
{
    if from < 0 || from >= b.len() {
        None
    } else if b[from] == terminator() {
        Some(from)
    } else {
        first_terminator_from(b, from + 1)
    }
}

/// Whether `b` holds no terminator before `end`.
pub open spec fn clear_until(b: Seq<u8>, end: int) -> bool {
    forall|k: int| 0 <= k < end && k < b.len() ==> #[trigger] b[k] != terminator()
}

/// One call of the decoder on the buffer `b` with cursor `c`: the frame it
/// takes out, if `b` holds a terminator at or after `c`, and the buffer and
/// cursor after the call.
pub open spec fn decode_step(b: Seq<u8>, c: int) -> (Option<Seq<u8>>, Seq<u8>, int) {
    match first_terminator_from(b, c) {
        None => (None, b, b.len() as int),
        Some(i) => (Some(b.subrange(0, i)), b.subrange(i + 1, b.len() as int), 0),
    }
}

/// Whether `r` is the outcome of decoding the frame text `frame`.
pub open spec fn decodes_to(frame: Seq<u8>, r: Result<Option<Response>, ResponseParseError>) -> bool {
    match r {
        Ok(Some(resp)) => parses_to(frame, Ok(resp)),
        Ok(None) => false,
        Err(e) => parses_to(frame, Err(e)),
    }
}

/// Whether `r` is the outcome of reading `buf` as one whole frame:
/// nothing where it does not end with the terminator, else the parse of the
/// text before it.
pub open spec fn whole_frame_as(buf: Seq<u8>, r: Result<Option<Response>, ResponseParseError>) -> bool {
    if buf.len() == 0 || buf.last() != terminator() {
        r matches Ok(None)
    } else {
        decodes_to(buf.drop_last(), r)
    }
}

/// Reads `buf` as one whole frame, terminator included (`whole_frame_as`).
///
/// A read that ended before the terminator (the connection was closed)
/// gives `Ok(None)`.
pub fn parse_response(buf: &[u8]) -> (r: Result<Option<Response>, ResponseParseError>)
    ensures
        whole_frame_as(buf@, r),
{
    let n = buf.len();
    if n == 0 || buf[n - 1] != 0x04 {
        return Ok(None);
    }
    let text = slice_subrange(buf, 0, n - 1);
    assert(text@ =~= buf@.drop_last());
    match parse_frame(text) {
        Ok(resp) => Ok(Some(resp)),
        Err(e) => Err(e),
    }
}

/// Where the decoder's search for a terminator in `b` stops, starting at
/// `cursor`: just past the terminator it finds, or the end of `b`.
pub open spec fn scan_end(b: Seq<u8>, cursor: int) -> int {
    match first_terminator_from(b, cursor) {
        Some(i) => i + 1,
        None => b.len() as int,
    }
}

/// The first terminator at or after `from` is one, and none comes before it.
pub proof fn lemma_first_terminator_bounds(b: Seq<u8>, from: int)
    requires
        0 <= from,
    ensures
        first_terminator_from(b, from) matches Some(i) ==> from <= i < b.len() && b[i]
            == terminator() && clear_from_to(b, from, i),
        first_terminator_from(b, from) is None ==> clear_from_to(b, from, b.len() as int),
    decreases b.len() - from,
{
    if from < b.len() && b[from] != terminator() {
        lemma_first_terminator_bounds(b, from + 1);
    }
}

/// Whether `b` holds no terminator from `start` up to `end`.
pub open spec fn clear_from_to(b: Seq<u8>, start: int, end: int) -> bool {
    forall|k: int| start <= k < end && 0 <= k < b.len() ==> #[trigger] b[k] != terminator()
}

proof fn lemma_first_terminator_skip(b: Seq<u8>, from: int, to: int)
    requires
        0 <= from <= to,
        clear_from_to(b, from, to),
    ensures
        first_terminator_from(b, from) == first_terminator_from(b, to),
    decreases to - from,
{
    if from < to && from < b.len() {
        lemma_first_terminator_skip(b, from + 1, to);
    }
}

/// Starting at a cursor before which the buffer holds no terminator finds
/// the same frame as starting at the front: the bytes before the cursor need
/// no second look.
pub proof fn lemma_search_from_cursor(b: Seq<u8>, cursor: int)
    requires
        0 <= cursor <= b.len(),
        clear_until(b, cursor),
    ensures
        first_terminator_from(b, cursor) == first_terminator_from(b, 0),
{
    lemma_first_terminator_skip(b, 0, cursor);
}

/// An incomplete decode keeps the cursor's promise across a growing buffer:
/// after it, the cursor is the buffer's end and no byte before it is a
/// terminator; once more bytes are appended, that still holds, the next
/// search looks at the new bytes alone, and it finds what a search of the
/// whole buffer from the front would. So over a run of incomplete decodes
/// each byte is looked at once, and the work is the number of bytes.
pub proof fn lemma_cursor_monotonic(b: Seq<u8>, cursor: int, more: Seq<u8>)
    requires
        0 <= cursor <= b.len(),
        clear_until(b, cursor),
        first_terminator_from(b, cursor) is None,
    ensures
        clear_until(b, b.len() as int),
        cursor <= b.len(),
        scan_end(b, cursor) == b.len(),
        clear_until(b + more, b.len() as int),
        first_terminator_from(b + more, b.len() as int) == first_terminator_from(b + more, 0),
        scan_end(b + more, b.len() as int) - b.len() <= more.len(),
{
    lemma_first_terminator_bounds(b, cursor);
    assert forall|k: int| 0 <= k < b.len() && k < (b + more).len() implies #[trigger] (b
        + more)[k] != terminator() by {
        assert((b + more)[k] == b[k]);
    }
    lemma_search_from_cursor(b + more, b.len() as int);
    lemma_first_terminator_bounds(b + more, b.len() as int);
}

/// The cursor that the decoder holds when called on `bufs[j]`, where it was
/// called on each earlier buffer of `bufs` in turn, starting fresh.
pub open spec fn run_cursor(bufs: Seq<Seq<u8>>, j: int) -> int
    decreases j,
{
    if j <= 0 {
        0
    } else {
        decode_step(bufs[j - 1], run_cursor(bufs, j - 1)).2
    }
}

/// The bytes that the first `n` calls of such a run look at: each call
/// examines its buffer from its cursor up to `scan_end`.
pub open spec fn run_work(bufs: Seq<Seq<u8>>, n: int) -> int
    decreases n,
{
    if n <= 0 {
        0
    } else {
        run_work(bufs, n - 1) + (scan_end(bufs[n - 1], run_cursor(bufs, n - 1)) - run_cursor(
            bufs,
            n - 1,
        ))
    }
}

/// Whether `b` starts with `a`: what `a` grows into when bytes are appended.
pub open spec fn extends(a: Seq<u8>, b: Seq<u8>) -> bool {
    a.len() <= b.len() && b.subrange(0, a.len() as int) == a
}

/// Whether `bufs` is a run of buffers that the caller only appended to, and
/// every call but the last found no whole frame.
pub open spec fn incomplete_run(bufs: Seq<Seq<u8>>) -> bool {
    &&& bufs.len() > 0
    &&& forall|j: int| 1 <= j < bufs.len() ==> #[trigger] extends(bufs[j - 1], bufs[j])
    &&& forall|j: int|
        0 <= j < bufs.len() - 1 ==> (#[trigger] decode_step(bufs[j], run_cursor(bufs, j))).0 is None
}

proof fn lemma_run_prefix(bufs: Seq<Seq<u8>>, n: int)
    requires
        incomplete_run(bufs),
        1 <= n < bufs.len(),
    ensures
        run_cursor(bufs, n) == bufs[n - 1].len(),
        run_work(bufs, n) == bufs[n - 1].len(),
        clear_until(bufs[n], bufs[n - 1].len() as int),
    decreases n,
{
    let j = n - 1;
    let c = run_cursor(bufs, j);
    assert(decode_step(bufs[j], run_cursor(bufs, j)).0 is None);
    assert(extends(bufs[n - 1], bufs[n]));
    if j == 0 {
        assert(c == 0);
    } else {
        lemma_run_prefix(bufs, j);
        assert(extends(bufs[j - 1], bufs[j]));
    }
    assert(0 <= c <= bufs[j].len());
    assert(clear_until(bufs[j], c)) by {
        if j > 0 {
            assert forall|k: int| 0 <= k < c && k < bufs[j].len() implies #[trigger] bufs[j][k]
                != terminator() by {
                assert(clear_until(bufs[j], bufs[j - 1].len() as int));
            }
        }
    }
    lemma_first_terminator_bounds(bufs[j], c);
    assert(first_terminator_from(bufs[j], c) is None);
    assert(clear_until(bufs[j], bufs[j].len() as int));
    assert(run_work(bufs, j) == c);
    assert(scan_end(bufs[j], c) == bufs[j].len());
    assert(run_work(bufs, n) == run_work(bufs, j) + (scan_end(bufs[j], c) - c));
    assert forall|k: int| 0 <= k < bufs[j].len() && k < bufs[n].len() implies #[trigger] bufs[n][k]
        != terminator() by {
        assert(bufs[n].subrange(0, bufs[j].len() as int)[k] == bufs[n][k]);
    }
}

/// No byte is looked at twice: over a run of calls on a buffer that the
/// caller only appends to, where every call but the last finds no whole
/// frame, each call starts where the previous buffer ended, and all the
/// calls together examine at most as many bytes as the last buffer holds.
pub proof fn lemma_run_work(bufs: Seq<Seq<u8>>)
    requires
        incomplete_run(bufs),
    ensures
        forall|j: int| 0 < j < bufs.len() ==> run_cursor(bufs, j) == bufs[j - 1].len(),
        run_work(bufs, bufs.len() as int) <= bufs.last().len(),
{
    assert forall|j: int| 0 < j < bufs.len() implies run_cursor(bufs, j) == bufs[j - 1].len() by {
        lemma_run_prefix(bufs, j);
    }
    let m = bufs.len() - 1;
    let c = run_cursor(bufs, m);
    if m > 0 {
        lemma_run_prefix(bufs, m);
    }
    assert(0 <= c) by {
        if m > 0 {
            assert(c == bufs[m - 1].len());
        }
    }
    lemma_first_terminator_bounds(bufs[m], c);
    assert(scan_end(bufs[m], c) <= bufs[m].len());
    assert(run_work(bufs, m) == c);
    assert(run_work(bufs, m + 1) == run_work(bufs, m) + (scan_end(bufs[m], c) - c));
}

/// The encoder and decoder of frames.
#[derive(Debug)]
pub struct Codec {
    next_idx: usize,
}

impl View for Codec {
    type V = nat;

    /// The cursor: the buffer is known to hold no terminator before it.
    closed spec fn view(&self) -> nat {
        self.next_idx as nat
    }
}

impl Default for Codec {
    fn default() -> (r: Self)
        ensures
            r@ == 0,
    {
        Codec::new()
    }
}

impl Codec {
    /// A codec at the start of a stream.
    pub fn new() -> (r: Self)
        ensures
            r@ == 0,
    {
        Codec { next_idx: 0 }
    }

    /// The cursor: `decode` asks that it not pass the buffer's end.
    pub fn cursor(&self) -> (r: usize)
        ensures
            r == self@,
    {
        self.next_idx
    }

    /// Appends the wire bytes of `msg`, its terminator included, to `buff`.
    ///
    /// Encoding cannot fail.
    pub fn encode(&mut self, msg: Request, buff: &mut bytes::BytesMut) -> (r: Result<
        (),
        ResponseParseError,
    >)
        ensures
            r is Ok,
            final(self)@ == old(self)@,
            buffer_of(*final(buff)) == buffer_of(*old(buff)) + encode_utf8(request_text(msg)),
    {
        let text = msg.render();
        append_bytes(buff, text.as_str().as_bytes());
        Ok(())
    }

    /// Takes the first whole frame out of `buff`, if it holds one.
    ///
    /// The search for the terminator starts at the cursor. Where there is
    /// none, the buffer stays as it is, the cursor moves to its end, and the
    /// result is `Ok(None)`: more bytes are needed. Where there is one, the
    /// frame and its terminator leave the buffer, the cursor goes back to 0,
    /// and the frame's text is parsed; a frame that does not parse is gone
    /// all the same.
    pub fn decode(&mut self, buff: &mut bytes::BytesMut) -> (r: Result<
        Option<Response>,
        ResponseParseError,
    >)
        requires
            old(self)@ <= buffer_of(*old(buff)).len(),
        ensures
            ({
                let (frame, rest, cursor) = decode_step(buffer_of(*old(buff)), old(self)@ as int);
                &&& buffer_of(*final(buff)) == rest
                &&& final(self)@ == cursor
                &&& match frame {
                    None => r matches Ok(None),
                    Some(f) => decodes_to(f, r),
                }
            }),
    {
        let bytes = buffer_bytes(buff);
        let n = bytes.len();
        let mut i: usize = self.next_idx;
        while i < n
            invariant
                self.next_idx <= i <= n,
                n == bytes@.len(),
                bytes@ == buffer_of(*buff),
                first_terminator_from(bytes@, self.next_idx as int) == first_terminator_from(
                    bytes@,
                    i as int,
                ),
            ensures
                i <= n,
                i < n ==> bytes@[i as int] == 0x04,
                first_terminator_from(bytes@, self.next_idx as int) == first_terminator_from(
                    bytes@,
                    i as int,
                ),
            decreases n - i,
        {
            if bytes[i] == 0x04 {
                break;
            }
            i = i + 1;
        }
        if i == n {
            self.next_idx = n;
            return Ok(None);
        }
        let ghost b = bytes@;
        assert(first_terminator_from(b, i as int) == Some(i as int));
        let line = split_front(buff, i + 1);
        self.next_idx = 0;
        let frame = buffer_bytes(&line);
        let text = slice_subrange(frame, 0, i);
        assert(text@ =~= b.subrange(0, i as int));
        match parse_frame(text) {
            Ok(resp) => Ok(Some(resp)),
            Err(e) => Err(e),
        }
    }

    /// Takes every whole frame out of `buff`, in order, calling `decode`
    /// until it reports that more bytes are needed.
    ///
    /// The outcomes are those of `drain`: one per frame, each the parse of
    /// its frame's text, and the buffer and cursor are left as `drain` leaves
    /// them.
    pub fn decode_all(&mut self, buff: &mut bytes::BytesMut) -> (r: Vec<
        Result<Response, ResponseParseError>,
    >)
        requires
            old(self)@ <= buffer_of(*old(buff)).len(),
        ensures
            ({
                let (frames, rest, cursor) = drain(buffer_of(*old(buff)), old(self)@ as int);
                &&& r@.len() == frames.len()
                &&& forall|k: int| 0 <= k < frames.len() ==> parses_to(frames[k], #[trigger] r@[k])
                &&& buffer_of(*final(buff)) == rest
                &&& final(self)@ == cursor
            }),
    {
        let ghost b0 = buffer_of(*buff);
        let ghost c0 = self@ as int;
        let ghost mut taken: Seq<Seq<u8>> = Seq::empty();
        let mut out: Vec<Result<Response, ResponseParseError>> = Vec::new();
        assert(taken + drain(b0, c0).0 =~= drain(b0, c0).0);
        loop
            invariant
                b0 == buffer_of(*old(buff)),
                c0 == old(self)@,
                self@ <= buffer_of(*buff).len(),
                drain(b0, c0) == (
                    taken + drain(buffer_of(*buff), self@ as int).0,
                    drain(buffer_of(*buff), self@ as int).1,
                    drain(buffer_of(*buff), self@ as int).2,
                ),
                out@.len() == taken.len(),
                forall|k: int| 0 <= k < taken.len() ==> parses_to(taken[k], #[trigger] out@[k]),
            decreases buffer_of(*buff).len(),
        {
            let ghost b = buffer_of(*buff);
            let ghost c = self@ as int;
            proof {
                lemma_first_terminator_bounds(b, c);
            }
            let step = self.decode(buff);
            match step {
                Ok(None) => {
                    assert(decode_step(b, c).0 is None);
                    assert(drain(b, c) == (Seq::<Seq<u8>>::empty(), b, b.len() as int));
                    assert(taken + Seq::<Seq<u8>>::empty() =~= taken);
                    assert(buffer_of(*buff) == b);
                    assert(self@ == b.len());
                    return out;
                },
                Ok(Some(resp)) => {
                    out.push(Ok(resp));
                },
                Err(e) => {
                    out.push(Err(e));
                },
            }
            proof {
                let f = decode_step(b, c).0->0;
                assert(drain(b, c).0 == seq![f] + drain(buffer_of(*buff), 0).0);
                assert(taken + (seq![f] + drain(buffer_of(*buff), 0).0) =~= taken.push(f) + drain(
                    buffer_of(*buff),
                    0,
                ).0);
                taken = taken.push(f);
            }
        }
    }
}

} // verus!
