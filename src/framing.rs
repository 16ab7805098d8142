//! Frames across a stream: what a decoder that is called until it reports
//! that it needs more bytes takes out of a stream, however the stream is cut
//! into the pieces that the transport delivers.
use vstd::prelude::*;
use vstd::utf8::*;

use crate::codec::{
    clear_until, decode_step, first_terminator_from, lemma_first_terminator_bounds,
    lemma_search_from_cursor, terminator,
};
use crate::request::{eot, request_body, request_text, Request};

verus! {

/// Decoding `b` from cursor `c` until no whole frame is left: the frames
/// taken out, in order, and the buffer and cursor that remain.
pub open spec fn drain(b: Seq<u8>, c: int) -> (Seq<Seq<u8>>, Seq<u8>, int)
    decreases b.len(),
{
    match decode_step(b, c) {
        (Some(frame), rest, cur) => if rest.len() < b.len() {
            let (frames, left, cursor) = drain(rest, cur);
            (seq![frame] + frames, left, cursor)
        } else {
            (seq![frame], rest, cur)
        },
        (None, rest, cur) => (Seq::empty(), rest, cur),
    }
}

/// Feeding the pieces `chunks` in order to a decoder that starts empty,
/// draining after each: the frames taken out, and the buffer and cursor left.
pub open spec fn feed(chunks: Seq<Seq<u8>>) -> (Seq<Seq<u8>>, Seq<u8>, int)
    decreases chunks.len(),
{
    if chunks.len() == 0 {
        (Seq::empty(), Seq::empty(), 0)
    } else {
        let (frames, b, c) = feed(chunks.drop_last());
        let (more, left, cursor) = drain(b + chunks.last(), c);
        (frames + more, left, cursor)
    }
}

/// The pieces `chunks` one after the other.
pub open spec fn joined(chunks: Seq<Seq<u8>>) -> Seq<u8>
    decreases chunks.len(),
{
    if chunks.len() == 0 {
        Seq::empty()
    } else {
        joined(chunks.drop_last()) + chunks.last()
    }
}

/// The bytes of the requests `rs`, encoded one after the other.
pub open spec fn stream(rs: Seq<Request>) -> Seq<u8>
    decreases rs.len(),
{
    if rs.len() == 0 {
        Seq::empty()
    } else {
        stream(rs.drop_last()) + encode_utf8(request_text(rs.last()))
    }
}

/// The frames that the requests `rs` travel in: their texts without the
/// terminator, encoded.
pub open spec fn bodies(rs: Seq<Request>) -> Seq<Seq<u8>>
    decreases rs.len(),
{
    if rs.len() == 0 {
        Seq::empty()
    } else {
        bodies(rs.drop_last()).push(encode_utf8(request_body(rs.last())))
    }
}

/// Whether a request fits in one frame: the terminator is not among the
/// characters of its text (the atoms, names and passwords it was made of).
pub open spec fn frameable(r: Request) -> bool {
    forall|i: int| 0 <= i < request_body(r).len() ==> #[trigger] request_body(r)[i] != eot()
}

proof fn lemma_encode_concat(a: Seq<char>, b: Seq<char>)
    ensures
        encode_utf8(a + b) == encode_utf8(a) + encode_utf8(b),
    decreases a.len(),
{
    if a.len() == 0 {
        assert(a + b =~= b);
    } else {
        lemma_encode_concat(a.drop_first(), b);
        assert((a + b).drop_first() =~= a.drop_first() + b);
        assert((a + b)[0] == a[0]);
        assert(encode_utf8(a + b) =~= encode_utf8(a) + encode_utf8(b));
    }
}

proof fn lemma_scalar_clear(c: char)
    requires
        c != eot(),
    ensures
        forall|k: int| 0 <= k < encode_scalar(c as u32).len() ==> #[trigger] encode_scalar(c as u32)[k]
            != terminator(),
{
    let v = c as u32;
    if has_width_1_encoding(v) {
        assert(v != 4) by {
            assert(c != '\u{4}');
        }
        assert((v & 0x7F) as u8 != 4) by (bit_vector)
            requires
                v <= 0x7F,
                v != 4,
        ;
    } else {
        let w1 = ((v >> 6) & 0x1F) as u8;
        let w2 = ((v >> 12) & 0x0F) as u8;
        let w3 = ((v >> 18) & 0x7) as u8;
        let x1 = (v & 0x3F) as u8;
        let x2 = ((v >> 6) & 0x3F) as u8;
        let x3 = ((v >> 12) & 0x3F) as u8;
        assert(0xC0 | w1 != 4) by (bit_vector);
        assert(0xE0 | w2 != 4) by (bit_vector);
        assert(0xF0 | w3 != 4) by (bit_vector);
        assert(0x80 | x1 != 4) by (bit_vector);
        assert(0x80 | x2 != 4) by (bit_vector);
        assert(0x80 | x3 != 4) by (bit_vector);
    }
}

proof fn lemma_encode_clear(s: Seq<char>)
    requires
        forall|i: int| 0 <= i < s.len() ==> #[trigger] s[i] != eot(),
    ensures
        clear_until(encode_utf8(s), encode_utf8(s).len() as int),
    decreases s.len(),
{
    if s.len() > 0 {
        assert(s[0] != eot());
        lemma_scalar_clear(s[0]);
        assert forall|i: int| 0 <= i < s.drop_first().len() implies #[trigger] s.drop_first()[i]
            != eot() by {
            assert(s.drop_first()[i] == s[i + 1]);
        }
        lemma_encode_clear(s.drop_first());
        let e = encode_utf8(s);
        let h = encode_scalar(s[0] as u32);
        let t = encode_utf8(s.drop_first());
        assert(e == h + t);
        assert forall|k: int| 0 <= k < e.len() && k < e.len() implies #[trigger] e[k]
            != terminator() by {
            if k < h.len() {
                assert(e[k] == h[k]);
            } else {
                assert(e[k] == t[k - h.len()]);
            }
        }
    }
}

/// The bytes of a frameable request: its frame, then the terminator.
proof fn lemma_request_bytes(r: Request)
    requires
        frameable(r),
    ensures
        encode_utf8(request_text(r)) == encode_utf8(request_body(r)) + seq![terminator()],
        clear_until(encode_utf8(request_body(r)), encode_utf8(request_body(r)).len() as int),
{
    lemma_encode_concat(request_body(r), seq![eot()]);
    lemma_encode_clear(request_body(r));
    let v = eot() as u32;
    assert(v == 4) by {
        assert(eot() == '\u{4}');
    }
    assert((v & 0x7F) as u8 == 4) by (bit_vector)
        requires
            v == 4,
    ;
    let t = seq![eot()];
    assert(t.drop_first() =~= Seq::<char>::empty());
    assert(encode_utf8(t.drop_first()) =~= Seq::<u8>::empty());
    assert(t[0] as u32 == v);
    assert(encode_scalar(v) == seq![leading_byte_width_1(v)]);
    assert(encode_utf8(t) == encode_scalar(t[0] as u32) + encode_utf8(t.drop_first()));
    assert(encode_utf8(t) =~= seq![terminator()]);
}

proof fn lemma_first_terminator_prefix(b: Seq<u8>, m: Seq<u8>, from: int)
    requires
        0 <= from,
        first_terminator_from(b, from) is Some,
    ensures
        first_terminator_from(b + m, from) == first_terminator_from(b, from),
    decreases b.len() - from,
{
    assert((b + m)[from] == b[from]);
    if b[from] != terminator() {
        lemma_first_terminator_prefix(b, m, from + 1);
    }
}

/// Draining, then appending and draining again, takes out the same frames
/// as appending first and draining once.
proof fn lemma_drain_append(b: Seq<u8>, c: int, m: Seq<u8>)
    requires
        0 <= c <= b.len(),
        clear_until(b, c),
    ensures
        ({
            let (frames, rest, cur) = drain(b, c);
            let (more, left, cursor) = drain(rest + m, cur);
            &&& drain(b + m, c) == (frames + more, left, cursor)
            &&& 0 <= cur <= rest.len()
            &&& clear_until(rest, cur)
        }),
    decreases b.len(),
{
    lemma_first_terminator_bounds(b, c);
    match first_terminator_from(b, c) {
        None => {
            assert(drain(b, c) == (Seq::<Seq<u8>>::empty(), b, b.len() as int));
            assert(clear_until(b, b.len() as int));
            assert(clear_until(b + m, b.len() as int)) by {
                assert forall|k: int| 0 <= k < b.len() && k < (b + m).len() implies #[trigger] (b
                    + m)[k] != terminator() by {
                    assert((b + m)[k] == b[k]);
                }
            }
            assert(clear_until(b + m, c)) by {
                assert forall|k: int| 0 <= k < c && k < (b + m).len() implies #[trigger] (b
                    + m)[k] != terminator() by {
                    assert((b + m)[k] == b[k]);
                }
            }
            lemma_search_from_cursor(b + m, b.len() as int);
            lemma_search_from_cursor(b + m, c);
            assert(Seq::<Seq<u8>>::empty() + drain(b + m, b.len() as int).0 =~= drain(
                b + m,
                b.len() as int,
            ).0);
        },
        Some(i) => {
            lemma_first_terminator_prefix(b, m, c);
            let rest = b.subrange(i + 1, b.len() as int);
            assert((b + m).subrange(0, i) =~= b.subrange(0, i));
            assert((b + m).subrange(i + 1, (b + m).len() as int) =~= rest + m);
            assert(clear_until(rest, 0));
            lemma_drain_append(rest, 0, m);
            let (frames, r2, cur2) = drain(rest, 0);
            let (more, left, cursor) = drain(r2 + m, cur2);
            assert(seq![b.subrange(0, i)] + frames + more =~= seq![b.subrange(0, i)] + (frames
                + more));
        },
    }
}

/// A decoder fed the pieces of a stream takes out what draining the whole
/// stream at once would: how the stream was cut does not matter.
proof fn lemma_feed_joined(chunks: Seq<Seq<u8>>)
    ensures
        feed(chunks) == drain(joined(chunks), 0),
        0 <= feed(chunks).2 <= feed(chunks).1.len(),
        clear_until(feed(chunks).1, feed(chunks).2),
    decreases chunks.len(),
{
    if chunks.len() == 0 {
        assert(drain(Seq::<u8>::empty(), 0) == (Seq::<Seq<u8>>::empty(), Seq::<u8>::empty(), 0int));
    } else {
        lemma_feed_joined(chunks.drop_last());
        let j = joined(chunks.drop_last());
        assert(clear_until(j, 0));
        lemma_drain_append(j, 0, chunks.last());
        let (frames, b, c) = drain(j, 0);
        lemma_drain_append(b + chunks.last(), c, Seq::empty());
        assert(b + chunks.last() + Seq::<u8>::empty() =~= b + chunks.last());
    }
}

/// Draining the bytes of frameable requests takes out each one's frame, in
/// order, and leaves nothing.
proof fn lemma_drain_stream(rs: Seq<Request>)
    requires
        forall|i: int| 0 <= i < rs.len() ==> #[trigger] frameable(rs[i]),
    ensures
        drain(stream(rs), 0) == (bodies(rs), Seq::<u8>::empty(), 0int),
    decreases rs.len(),
{
    if rs.len() == 0 {
        assert(drain(Seq::<u8>::empty(), 0) == (Seq::<Seq<u8>>::empty(), Seq::<u8>::empty(), 0int));
    } else {
        let init = rs.drop_last();
        assert forall|i: int| 0 <= i < init.len() implies #[trigger] frameable(init[i]) by {
            assert(init[i] == rs[i]);
        }
        lemma_drain_stream(init);
        let r = rs.last();
        assert(frameable(rs[rs.len() - 1]));
        lemma_request_bytes(r);
        let body = encode_utf8(request_body(r));
        let e = encode_utf8(request_text(r));
        assert(clear_until(stream(init), 0));
        lemma_drain_append(stream(init), 0, e);
        assert(Seq::<u8>::empty() + e =~= e);
        // The one frame of `e`.
        assert(clear_until(e, body.len() as int)) by {
            assert forall|k: int| 0 <= k < body.len() && k < e.len() implies #[trigger] e[k]
                != terminator() by {
                assert(e[k] == body[k]);
            }
        }
        lemma_search_from_cursor(e, body.len() as int);
        assert(e[body.len() as int] == terminator());
        assert(first_terminator_from(e, body.len() as int) == Some(body.len() as int));
        assert(e.subrange(0, body.len() as int) =~= body);
        assert(e.subrange(body.len() as int + 1, e.len() as int) =~= Seq::<u8>::empty());
        assert(drain(Seq::<u8>::empty(), 0) == (Seq::<Seq<u8>>::empty(), Seq::<u8>::empty(), 0int));
        assert(drain(e, 0) == (seq![body], Seq::<u8>::empty(), 0int)) by {
            assert(seq![body] + Seq::<Seq<u8>>::empty() =~= seq![body]);
        }
        assert(bodies(init) + seq![body] =~= bodies(rs));
    }
}

/// Round trip of framing: requests that each fit in a frame, encoded one
/// after the other and delivered in any pieces (down to one byte at a time),
/// come out of a decoder that is drained after each piece as exactly their
/// frames, in order, with nothing left over. Every call that finds less than
/// a whole frame reports that more bytes are needed (`drain` stops there).
///
/// `Codec::encode` appends the bytes that `stream` joins, and
/// `Codec::decode_all`, run after each piece is appended, does what `drain`
/// says, so `feed` is the run of those calls.
pub proof fn lemma_round_trip(rs: Seq<Request>, chunks: Seq<Seq<u8>>)
    requires
        forall|i: int| 0 <= i < rs.len() ==> #[trigger] frameable(rs[i]),
        joined(chunks) == stream(rs),
    ensures
        feed(chunks).0 == bodies(rs),
        feed(chunks).0.len() == rs.len(),
        feed(chunks).1.len() == 0,
{
    lemma_feed_joined(chunks);
    lemma_drain_stream(rs);
    lemma_bodies_len(rs);
}

proof fn lemma_bodies_len(rs: Seq<Request>)
    ensures
        bodies(rs).len() == rs.len(),
    decreases rs.len(),
{
    if rs.len() > 0 {
        lemma_bodies_len(rs.drop_last());
    }
}

} // verus!
