//! Length-delimited framing of ABCI messages: every message goes on the wire
//! as the varint of its length followed by its bytes.

use vstd::prelude::*;
use std::marker::PhantomData;
use bytes::BytesMut;
use crate::buf::{buf_advance, buf_as_slice, buf_contents, buf_len, buf_put, buf_split_to};
use crate::varint::{
    lemma_decoding_len, lemma_varint_len, lemma_varint_prefix, lemma_varint_roundtrip, peek_varint, put_varint, varint_decoding,
    varint_encoding,
};

verus! {

/// Where a decoder stands in the stream: before a length, or before a body of
/// the length it read.
#[derive(Debug, PartialEq, Eq, Structural, Clone, Copy)]
pub enum DecodeState {
    Head,
    Body { len: usize },
}

/// A frame on the wire: the varint of the body's length, then the body.
pub open spec fn frame_encoding(body: Seq<u8>) -> Seq<u8> {
    varint_encoding(body.len()) + body
}

/// Taking a body of `len` bytes from the front of `s`: the next state, the
/// body if all of it is there, and the bytes left.
pub open spec fn body_step(len: usize, s: Seq<u8>) -> (DecodeState, Option<Seq<u8>>, Seq<u8>) {
    if s.len() < len {
        (DecodeState::Body { len }, None, s)
    } else {
        (DecodeState::Head, Some(s.take(len as int)), s.skip(len as int))
    }
}

/// One step of decoding from `state` with the bytes `s` buffered, any body
/// handed out being accepted: the next state, the body of a whole frame if
/// one is there, and the bytes left. A
/// length that cannot be read yet, or cannot be read at all, leaves everything
/// as it was.
pub open spec fn frame_step(state: DecodeState, s: Seq<u8>) -> (DecodeState, Option<Seq<u8>>, Seq<u8>) {
    match state {
        DecodeState::Head => match varint_decoding(s) {
            None => (DecodeState::Head, None, s),
            Some((n, len)) => body_step(len as usize, s.skip(n as int)),
        },
        DecodeState::Body { len } => body_step(len, s),
    }
}

/// Decodes length-delimited frames from a stream of bytes.
pub struct Decode<M> {
    state: DecodeState,
    _marker: PhantomData<M>,
}

impl<M> Decode<M> {
    /// Where the decoder stands.
    pub closed spec fn decode_state(&self) -> DecodeState {
        self.state
    }

    /// Takes the next frame's body off the front of `src` if all of it has
    /// arrived, and otherwise keeps what it has read of the frame so far. A
    /// body handed out leaves the decoder before a body of that length until
    /// `body_accepted` says the body was decoded; a body that is not accepted
    /// leaves it there, so the next call takes as many bytes again as a body.
    pub fn decode(&mut self, src: &mut BytesMut) -> (r: Option<BytesMut>)
        ensures
            ({
                let (st, frame, rest) = frame_step(old(self).decode_state(), buf_contents(*old(src)));
                &&& buf_contents(*final(src)) == rest
                &&& match frame {
                    Some(body) => r matches Some(b) && buf_contents(b) == body
                        && final(self).decode_state() == (DecodeState::Body { len: body.len() as usize }),
                    None => r is None && final(self).decode_state() == st,
                }
            }),
    {
        match self.state {
            DecodeState::Head => {
                let peeked = peek_varint(buf_as_slice(src));
                match peeked {
                    None => None,
                    Some((n, v)) => {
                        proof {
                            lemma_decoding_len(buf_contents(*src));
                        }
                        buf_advance(src, n);
                        let len = #[verifier::truncate] (v as usize);
                        self.state = DecodeState::Body { len };
                        self.decode_body(len, src)
                    },
                }
            },
            DecodeState::Body { len } => self.decode_body(len, src),
        }
    }

    fn decode_body(&mut self, len: usize, src: &mut BytesMut) -> (r: Option<BytesMut>)
        requires
            old(self).state == (DecodeState::Body { len }),
        ensures
            ({
                let (st, frame, rest) = body_step(len, buf_contents(*old(src)));
                &&& final(self).state == (DecodeState::Body { len })
                &&& buf_contents(*final(src)) == rest
                &&& match frame {
                    Some(body) => r matches Some(b) && buf_contents(b) == body && body.len() == len,
                    None => r is None,
                }
            }),
    {
        if buf_len(src) < len {
            return None;
        }
        let body = buf_split_to(src, len);
        Some(body)
    }

    /// The body last handed out was decoded: the decoder now waits for the
    /// next frame's length. Together, `decode` and then `body_accepted` make
    /// one step of `frame_step`.
    pub fn body_accepted(&mut self)
        ensures
            final(self).decode_state() == DecodeState::Head,
    {
        self.state = DecodeState::Head;
    }
}

impl<M> Default for Decode<M> {
    fn default() -> (r: Self)
        ensures
            r.decode_state() == DecodeState::Head,
    {
        Decode { state: DecodeState::Head, _marker: PhantomData }
    }
}

/// Encodes bodies as length-delimited frames.
pub struct Encode<M> {
    _marker: PhantomData<M>,
}

impl<M> Encode<M> {
    /// Appends to `dst` the frame that carries `body`.
    pub fn encode(&mut self, body: BytesMut, dst: &mut BytesMut)
        requires
            buf_contents(*old(dst)).len() + 10 + buf_contents(body).len() <= isize::MAX,
        ensures
            buf_contents(*final(dst)) == buf_contents(*old(dst)) + frame_encoding(buf_contents(body)),
    {
        let len = buf_len(&body);
        proof {
            lemma_varint_len(len as u64);
        }
        put_varint(len as u64, dst);
        buf_put(dst, body);
        assert(buf_contents(*dst) =~= buf_contents(*old(dst)) + frame_encoding(buf_contents(body)));
    }
}

/// Whether the frame that carries `body` can be appended to `dst`: a buffer
/// holds at most `isize::MAX` bytes, and the length takes at most ten.
pub fn frame_fits(body: &BytesMut, dst: &BytesMut) -> (r: bool)
    ensures
        r == (buf_contents(*dst).len() + 10 + buf_contents(*body).len() <= isize::MAX),
{
    let d = buf_len(dst);
    let b = buf_len(body);
    d <= isize::MAX as usize && b <= isize::MAX as usize - d && 10 <= isize::MAX as usize - d - b
}

impl<M> Default for Encode<M> {
    fn default() -> (r: Self) {
        Encode { _marker: PhantomData }
    }
}

/// A frame written by `encode` is read back by `decode` from a decoder
/// waiting for a length: the same body comes out, and the bytes that follow
/// the frame are left as they were.
pub proof fn lemma_frame_roundtrip(body: Seq<u8>, rest: Seq<u8>)
    requires
        body.len() <= usize::MAX,
    ensures
        frame_step(DecodeState::Head, frame_encoding(body) + rest)
            == (DecodeState::Head, Some(body), rest),
{
    let e = varint_encoding(body.len());
    let s = frame_encoding(body) + rest;
    assert(s =~= e + (body + rest));
    lemma_varint_roundtrip(body.len() as u64, body + rest);
    assert(s.skip(e.len() as int) =~= body + rest);
    assert((body + rest).take(body.len() as int) =~= body);
    assert((body + rest).skip(body.len() as int) =~= rest);
}

/// The frames that carry `bodies`, one after another.
pub open spec fn frames_encoding(bodies: Seq<Seq<u8>>) -> Seq<u8>
    decreases bodies.len(),
{
    if bodies.len() == 0 {
        Seq::empty()
    } else {
        frame_encoding(bodies[0]) + frames_encoding(bodies.drop_first())
    }
}

/// `n` steps of decoding in a row, from a decoder waiting for a length, each
/// of which must hand out a whole frame: the bodies in order and the bytes
/// left, or `None` where a step hands out nothing.
pub open spec fn decode_frames(s: Seq<u8>, n: nat) -> Option<(Seq<Seq<u8>>, Seq<u8>)>
    decreases n,
{
    if n == 0 {
        Some((Seq::empty(), s))
    } else {
        match frame_step(DecodeState::Head, s) {
            (DecodeState::Head, Some(body), rest) => match decode_frames(rest, (n - 1) as nat) {
                Some((bodies, left)) => Some((seq![body] + bodies, left)),
                None => None,
            },
            _ => None,
        }
    }
}

/// Frames written one after another are read back one after another: the
/// same bodies in the same order, and the bytes that follow them are left.
pub proof fn lemma_frames_roundtrip(bodies: Seq<Seq<u8>>, rest: Seq<u8>)
    requires
        forall|i: int| 0 <= i < bodies.len() ==> #[trigger] bodies[i].len() <= usize::MAX,
    ensures
        decode_frames(frames_encoding(bodies) + rest, bodies.len()) == Some((bodies, rest)),
    decreases bodies.len(),
{
    if bodies.len() > 0 {
        let tail = bodies.drop_first();
        let after = frames_encoding(tail) + rest;
        assert(bodies[0].len() <= usize::MAX);
        lemma_frame_roundtrip(bodies[0], after);
        assert(frames_encoding(bodies) + rest =~= frame_encoding(bodies[0]) + after);
        assert forall|i: int| 0 <= i < tail.len() implies #[trigger] tail[i].len() <= usize::MAX by {
            assert(tail[i] == bodies[i + 1]);
        }
        lemma_frames_roundtrip(tail, rest);
        assert(seq![bodies[0]] + tail =~= bodies);
    }
}

/// Decoding resumes where it stopped: when a step hands out no frame, feeding
/// it more bytes later gives what one step over all the bytes gives.
pub proof fn lemma_decode_resumes(state: DecodeState, s: Seq<u8>, more: Seq<u8>)
    ensures
        ({
            let (st, frame, rest) = frame_step(state, s);
            frame is None ==> frame_step(st, rest + more) == frame_step(state, s + more)
        }),
{
    let (st, frame, rest) = frame_step(state, s);
    if frame is None {
        match state {
            DecodeState::Head => {
                if let Some((n, len)) = varint_decoding(s) {
                    lemma_varint_prefix(s, more);
                    lemma_decoding_len(s);
                    assert((s + more).skip(n as int) =~= s.skip(n as int) + more);
                }
            },
            DecodeState::Body { len } => {},
        }
    }
}

/// How far a state is from handing out a body without reading more bytes.
pub open spec fn state_rank(state: DecodeState) -> nat {
    match state {
        DecodeState::Head => 0,
        DecodeState::Body { .. } => 1,
    }
}

/// A step that hands out a body shortens the buffer, or moves from a body to
/// a length without reading anything.
pub proof fn lemma_step_progress(state: DecodeState, s: Seq<u8>)
    ensures
        ({
            let (st, frame, rest) = frame_step(state, s);
            frame is Some ==> st == DecodeState::Head && (rest.len() < s.len() || (rest.len()
                == s.len() && state_rank(st) < state_rank(state)))
        }),
{
    if let DecodeState::Head = state {
        lemma_decoding_len(s);
    }
}

/// Decoding from `state` with the bytes `s` buffered until a step hands out
/// nothing, every body being accepted: the state then, the bodies in order,
/// and the bytes left.
pub open spec fn drain(state: DecodeState, s: Seq<u8>) -> (DecodeState, Seq<Seq<u8>>, Seq<u8>)
    decreases s.len(), state_rank(state),
{
    let (st, frame, rest) = frame_step(state, s);
    match frame {
        None => (st, Seq::empty(), rest),
        Some(body) => {
            proof {
                lemma_step_progress(state, s);
            }
            let (st2, bodies, left) = drain(st, rest);
            (st2, seq![body] + bodies, left)
        },
    }
}

/// The chunks of a stream put back together.
pub open spec fn concat_chunks(chunks: Seq<Seq<u8>>) -> Seq<u8>
    decreases chunks.len(),
{
    if chunks.len() == 0 {
        Seq::empty()
    } else {
        concat_chunks(chunks.drop_last()) + chunks.last()
    }
}

/// A new decoder fed the chunks one by one: each chunk is appended to what is
/// buffered, then decoded until a step hands out nothing. The state at the
/// end, the bodies in order, and the bytes left.
pub open spec fn feed(chunks: Seq<Seq<u8>>) -> (DecodeState, Seq<Seq<u8>>, Seq<u8>)
    decreases chunks.len(),
{
    if chunks.len() == 0 {
        (DecodeState::Head, Seq::empty(), Seq::empty())
    } else {
        let (st, bodies, left) = feed(chunks.drop_last());
        let (st2, more, left2) = drain(st, left + chunks.last());
        (st2, bodies + more, left2)
    }
}

/// A step that hands out a body hands out the same body with more bytes
/// buffered, and leaves those bytes after the rest.
proof fn lemma_step_extends(state: DecodeState, s: Seq<u8>, more: Seq<u8>)
    ensures
        ({
            let (st, frame, rest) = frame_step(state, s);
            frame is Some ==> frame_step(state, s + more) == (st, frame, rest + more)
        }),
{
    let (st, frame, rest) = frame_step(state, s);
    if frame is Some {
        match state {
            DecodeState::Head => {
                let (n, len) = varint_decoding(s)->0;
                lemma_varint_prefix(s, more);
                lemma_decoding_len(s);
                let body_bytes = s.skip(n as int);
                assert((s + more).skip(n as int) =~= body_bytes + more);
                assert((body_bytes + more).take(len as usize as int) =~= body_bytes.take(len as usize as int));
                assert((body_bytes + more).skip(len as usize as int) =~= body_bytes.skip(len as usize as int) + more);
            },
            DecodeState::Body { len } => {
                assert((s + more).take(len as int) =~= s.take(len as int));
                assert((s + more).skip(len as int) =~= s.skip(len as int) + more);
            },
        }
    }
}

/// Draining, then draining again after more bytes arrive, gives what one
/// drain over all the bytes gives.
pub proof fn lemma_drain_resumes(state: DecodeState, s: Seq<u8>, more: Seq<u8>)
    ensures
        ({
            let (st, bodies, left) = drain(state, s);
            let (st2, more_bodies, left2) = drain(st, left + more);
            drain(state, s + more) == (st2, bodies + more_bodies, left2)
        }),
    decreases s.len(), state_rank(state),
{
    let (st, frame, rest) = frame_step(state, s);
    match frame {
        None => {
            lemma_decode_resumes(state, s, more);
            assert(drain(state, s).1 + drain(st, rest + more).1 =~= drain(st, rest + more).1);
        },
        Some(body) => {
            lemma_step_progress(state, s);
            lemma_step_extends(state, s, more);
            lemma_drain_resumes(st, rest, more);
            let (st1, bodies1, left1) = drain(st, rest);
            let (st2, bodies2, left2) = drain(st1, left1 + more);
            assert(seq![body] + (bodies1 + bodies2) =~= (seq![body] + bodies1) + bodies2);
        },
    }
}

/// How a stream is cut into chunks never changes what is decoded: a decoder
/// fed the chunks one by one ends as one that drains the whole stream at
/// once, with the same bodies in the same order and the same bytes left.
pub proof fn lemma_chunking_invariant(chunks: Seq<Seq<u8>>)
    ensures
        feed(chunks) == drain(DecodeState::Head, concat_chunks(chunks)),
    decreases chunks.len(),
{
    if chunks.len() == 0 {
        assert(varint_decoding(Seq::<u8>::empty()) is None);
        assert(Seq::<Seq<u8>>::empty() =~= Seq::<Seq<u8>>::empty());
    } else {
        let prev = chunks.drop_last();
        lemma_chunking_invariant(prev);
        lemma_drain_resumes(DecodeState::Head, concat_chunks(prev), chunks.last());
    }
}

/// Frames written one after another and nothing else are decoded, however
/// the stream is cut into chunks, into the same bodies in the same order, and
/// nothing is left buffered.
pub proof fn lemma_chunked_frames_roundtrip(bodies: Seq<Seq<u8>>, chunks: Seq<Seq<u8>>)
    requires
        forall|i: int| 0 <= i < bodies.len() ==> #[trigger] bodies[i].len() <= usize::MAX,
        concat_chunks(chunks) == frames_encoding(bodies),
    ensures
        feed(chunks) == (DecodeState::Head, bodies, Seq::<u8>::empty()),
{
    lemma_chunking_invariant(chunks);
    lemma_drain_frames(bodies);
}

/// Draining the frames that carry `bodies` gives those bodies and leaves
/// nothing.
proof fn lemma_drain_frames(bodies: Seq<Seq<u8>>)
    requires
        forall|i: int| 0 <= i < bodies.len() ==> #[trigger] bodies[i].len() <= usize::MAX,
    ensures
        drain(DecodeState::Head, frames_encoding(bodies)) == (DecodeState::Head, bodies, Seq::<u8>::empty()),
    decreases bodies.len(),
{
    if bodies.len() == 0 {
        assert(varint_decoding(Seq::<u8>::empty()) is None);
        assert(bodies =~= Seq::<Seq<u8>>::empty());
    } else {
        let tail = bodies.drop_first();
        let after = frames_encoding(tail);
        assert(bodies[0].len() <= usize::MAX);
        lemma_frame_roundtrip(bodies[0], after);
        assert forall|i: int| 0 <= i < tail.len() implies #[trigger] tail[i].len() <= usize::MAX by {
            assert(tail[i] == bodies[i + 1]);
        }
        lemma_drain_frames(tail);
        assert(seq![bodies[0]] + tail =~= bodies);
    }
}

} // verus!
