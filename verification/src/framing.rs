use vstd::prelude::*;
use crate::varint::{decode_varint, encode_varint, read_varint, write_varint, lemma_decode_varint_len, lemma_varint_roundtrip, truncated, is_truncated, lemma_decode_varint_prefix, lemma_decode_varint_failure_stays};

verus! {

/// One message on the wire: the varint length of the body, then the body.
pub open spec fn frame_of(body: Seq<u8>) -> Seq<u8> {
    encode_varint(body.len()) + body
}

/// The frames of `bodies`, one after the other.
pub open spec fn frames_of(bodies: Seq<Seq<u8>>) -> Seq<u8>
    decreases bodies.len(),
{
    if bodies.len() == 0 {
        Seq::empty()
    } else {
        frame_of(bodies[0]) + frames_of(bodies.drop_first())
    }
}

/// What a byte stream holds: the bodies of the complete frames at its front,
/// the bytes after them, and whether those bytes start with a length prefix
/// that can never decode, whatever bytes follow.
pub struct FrameSplit {
    pub bodies: Seq<Seq<u8>>,
    pub rest: Seq<u8>,
    pub corrupt: bool,
}

/// Splits `s` into the complete frames at its front.  It stops at the end of
/// `s`, at a length prefix that can never decode (corrupt), or at a frame
/// still arriving: one whose length prefix or body is not all there yet.  A
/// length prefix cut short waits for more bytes rather than ending the
/// stream, even though the protobuf runtime reports it as an invalid varint.
pub open spec fn split_frames_spec(s: Seq<u8>) -> FrameSplit
    decreases s.len(),
{
    if s.len() == 0 {
        FrameSplit { bodies: Seq::empty(), rest: s, corrupt: false }
    } else {
        match decode_varint(s) {
            None => FrameSplit { bodies: Seq::empty(), rest: s, corrupt: !truncated(s) },
            Some((n, k)) => {
                if k + n > s.len() || k == 0 {
                    FrameSplit { bodies: Seq::empty(), rest: s, corrupt: false }
                } else {
                    let tail = split_frames_spec(s.skip((k + n) as int));
                    FrameSplit {
                        bodies: seq![s.subrange(k as int, (k + n) as int)] + tail.bodies,
                        rest: tail.rest,
                        corrupt: tail.corrupt,
                    }
                }
            },
        }
    }
}

/// Where one frame of a buffer lies: it starts at `start`, its length prefix
/// takes `header_len` bytes and its body the `body_len` bytes after that.
#[derive(Debug, Clone, Copy, PartialEq, Eq, Structural)]
pub struct FrameBounds {
    pub start: usize,
    pub header_len: usize,
    pub body_len: usize,
}

impl FrameBounds {
    /// First byte of the body.
    pub open spec fn body_start(self) -> int {
        self.start + self.header_len
    }

    /// One past the last byte of the frame.
    pub open spec fn end(self) -> int {
        self.start + self.header_len + self.body_len
    }

    /// The body of this frame in `s`.
    pub open spec fn body_in(self, s: Seq<u8>) -> Seq<u8> {
        s.subrange(self.body_start(), self.end())
    }
}

/// What the front of a buffer holds.
#[derive(Debug)]
pub enum FrameStep {
    /// A complete frame: the prefix takes `header_len` bytes, the body the
    /// `body_len` bytes after it.
    Frame { header_len: usize, body_len: usize },
    /// A frame whose length prefix or body has not all arrived: wait for
    /// more bytes.
    Incomplete,
    /// A length prefix that can never decode: the stream is corrupt.
    Corrupt(prost::DecodeError),
}

/// Looks at the front of `buf`: a complete frame, a frame still arriving
/// (its length prefix or its body cut short), or a corrupt length prefix.
/// A length prefix cut short by the end of the buffer reads, to the
/// protobuf runtime, as an invalid varint; since more bytes can still
/// complete it, it counts here as a frame still arriving, and only a prefix
/// that no further bytes can repair counts as corrupt.
pub fn next_frame(buf: &[u8]) -> (step: FrameStep)
    requires
        buf@.len() > 0,
    ensures
        match step {
            FrameStep::Frame { header_len, body_len } => {
                &&& decode_varint(buf@) == Some((body_len as nat, header_len as nat))
                &&& header_len + body_len <= buf@.len()
            },
            FrameStep::Incomplete => match decode_varint(buf@) {
                Some((n, k)) => k + n > buf@.len(),
                None => truncated(buf@),
            },
            FrameStep::Corrupt(_) => decode_varint(buf@) is None && !truncated(buf@),
        },
{
    match read_varint(buf) {
        Ok((len, header_len)) => {
            let available = buf.len() - header_len;
            if len > available as u64 {
                FrameStep::Incomplete
            } else {
                FrameStep::Frame { header_len, body_len: len as usize }
            }
        },
        Err(e) => {
            if is_truncated(buf) {
                FrameStep::Incomplete
            } else {
                FrameStep::Corrupt(e)
            }
        },
    }
}

/// The complete frames at the front of a buffer.
#[derive(Debug)]
pub struct FrameBatch {
    /// The complete frames, in order.
    pub frames: Vec<FrameBounds>,
    /// Bytes the complete frames occupy, from the front.
    pub consumed: usize,
    /// The decoder's error when the bytes after the frames start with a
    /// length prefix that does not decode.
    pub corrupt: Option<prost::DecodeError>,
}

/// The bodies that `frames` mark in `s`.
pub open spec fn bodies_in(s: Seq<u8>, frames: Seq<FrameBounds>) -> Seq<Seq<u8>> {
    frames.map_values(|f: FrameBounds| f.body_in(s))
}

/// The frames follow each other from the front of `s`, each starting with a
/// length prefix that gives its body length, and all of them lie in `s`.
pub open spec fn frames_chain(s: Seq<u8>, frames: Seq<FrameBounds>, end: int) -> bool {
    &&& forall|j: int| 0 <= j < frames.len() ==> {
        &&& #[trigger] frames[j].end() <= s.len()
        &&& decode_varint(s.skip(frames[j].start as int)) == Some(
            (frames[j].body_len as nat, frames[j].header_len as nat),
        )
    }
    &&& frames.len() > 0 ==> frames[0].start == 0
    &&& forall|j: int| 0 <= j < frames.len() - 1 ==> #[trigger] frames[j + 1].start == frames[j].end()
    &&& end == if frames.len() == 0 { 0 } else { frames.last().end() }
}

proof fn lemma_split_step(s: Seq<u8>, n: nat, k: nat)
    requires
        s.len() > 0,
        decode_varint(s) == Some((n, k)),
        k + n <= s.len(),
    ensures
        k >= 1,
        split_frames_spec(s) == (FrameSplit {
            bodies: seq![s.subrange(k as int, (k + n) as int)] + split_frames_spec(s.skip((k + n) as int)).bodies,
            rest: split_frames_spec(s.skip((k + n) as int)).rest,
            corrupt: split_frames_spec(s.skip((k + n) as int)).corrupt,
        }),
{
    lemma_decode_varint_len(s, 0);
}

/// Splits `buf` into the complete frames at its front, as
/// `split_frames_spec` says, and tells where they end.
pub fn split_frames(buf: &[u8]) -> (batch: FrameBatch)
    ensures
        frames_chain(buf@, batch.frames@, batch.consumed as int),
        bodies_in(buf@, batch.frames@) == split_frames_spec(buf@).bodies,
        batch.consumed <= buf@.len(),
        buf@.skip(batch.consumed as int) == split_frames_spec(buf@).rest,
        batch.corrupt is Some <==> split_frames_spec(buf@).corrupt,
{
    let mut frames: Vec<FrameBounds> = Vec::new();
    let mut pos: usize = 0;
    let ghost s = buf@;
    assert(s.skip(0) =~= s);
    while pos < buf.len()
        invariant_except_break
            pos <= s.len(),
            s == buf@,
            frames_chain(s, frames@, pos as int),
            split_frames_spec(s) == (FrameSplit {
                bodies: bodies_in(s, frames@) + split_frames_spec(s.skip(pos as int)).bodies,
                rest: split_frames_spec(s.skip(pos as int)).rest,
                corrupt: split_frames_spec(s.skip(pos as int)).corrupt,
            }),
        ensures
            pos <= s.len(),
            frames_chain(s, frames@, pos as int),
            split_frames_spec(s) == (FrameSplit {
                bodies: bodies_in(s, frames@) + split_frames_spec(s.skip(pos as int)).bodies,
                rest: split_frames_spec(s.skip(pos as int)).rest,
                corrupt: split_frames_spec(s.skip(pos as int)).corrupt,
            }),
            split_frames_spec(s.skip(pos as int)).bodies.len() == 0,
            split_frames_spec(s.skip(pos as int)).rest == s.skip(pos as int),
            !split_frames_spec(s.skip(pos as int)).corrupt,
        decreases s.len() - pos,
    {
        let rest = vstd::slice::slice_subrange(buf, pos, buf.len());
        assert(rest@ =~= s.skip(pos as int));
        match next_frame(rest) {
            FrameStep::Frame { header_len, body_len } => {
                proof {
                    lemma_split_step(rest@, body_len as nat, header_len as nat);
                    assert(rest@.skip((header_len + body_len) as int) =~= s.skip(pos + header_len + body_len));
                }
                let f = FrameBounds { start: pos, header_len, body_len };
                let ghost old_frames = frames@;
                frames.push(f);
                proof {
                    assert(f.body_in(s) =~= rest@.subrange(header_len as int, (header_len + body_len) as int));
                    assert(bodies_in(s, frames@) =~= bodies_in(s, old_frames) + seq![f.body_in(s)]);
                    assert(s.skip(f.start as int) == rest@);
                    assert(frames@.last() == f);
                    assert(forall|j: int| 0 <= j < old_frames.len() ==> frames@[j] == old_frames[j]);
                    assert forall|j: int| 0 <= j < frames@.len() implies {
                        &&& #[trigger] frames@[j].end() <= s.len()
                        &&& decode_varint(s.skip(frames@[j].start as int)) == Some(
                            (frames@[j].body_len as nat, frames@[j].header_len as nat),
                        )
                    } by {
                        if j < old_frames.len() {
                            assert(frames@[j] == old_frames[j]);
                        }
                    }
                    assert forall|j: int| 0 <= j < frames@.len() - 1 implies #[trigger] frames@[j + 1].start
                        == frames@[j].end() by {
                        if j + 1 < old_frames.len() {
                            assert(frames@[j + 1] == old_frames[j + 1]);
                            assert(frames@[j] == old_frames[j]);
                        } else {
                            assert(frames@[j] == old_frames.last());
                        }
                    }
                    assert(frames_chain(s, frames@, f.end()));
                    let tail = split_frames_spec(s.skip(pos + header_len + body_len));
                    assert(bodies_in(s, old_frames) + (seq![f.body_in(s)] + tail.bodies)
                        =~= bodies_in(s, frames@) + tail.bodies);
                }
                pos = pos + header_len + body_len;
            },
            FrameStep::Incomplete => {
                assert(split_frames_spec(rest@).bodies.len() == 0);
                break;
            },
            FrameStep::Corrupt(e) => {
                assert(split_frames_spec(rest@).corrupt);
                assert(split_frames_spec(rest@).bodies.len() == 0);
                assert(bodies_in(s, frames@) + Seq::<Seq<u8>>::empty() =~= bodies_in(s, frames@));
                return FrameBatch { frames, consumed: pos, corrupt: Some(e) };
            },
        }
    }
    assert(bodies_in(s, frames@) + Seq::<Seq<u8>>::empty() =~= bodies_in(s, frames@));
    FrameBatch { frames, consumed: pos, corrupt: None }
}

/// The frame that carries `body`: its varint length, then the body.
pub fn encode_frame(body: &[u8]) -> (out: Vec<u8>)
    requires
        body@.len() <= u64::MAX,
    ensures
        out@ == frame_of(body@),
{
    let mut out: Vec<u8> = Vec::new();
    write_varint(body.len() as u64, &mut out);
    out.extend_from_slice(body);
    proof {
        assert(out@ =~= encode_varint(body@.len()) + body@);
    }
    out
}

/// Law: a frame at the front of a stream is read back as its body, whatever
/// follows it; the rest of the stream is split as it would be alone.
pub proof fn lemma_split_frame_then(body: Seq<u8>, tail: Seq<u8>)
    requires
        body.len() <= u64::MAX,
    ensures
        split_frames_spec(frame_of(body) + tail) == (FrameSplit {
            bodies: seq![body] + split_frames_spec(tail).bodies,
            rest: split_frames_spec(tail).rest,
            corrupt: split_frames_spec(tail).corrupt,
        }),
{
    let n = body.len();
    let e = encode_varint(n);
    let s = frame_of(body) + tail;
    lemma_varint_roundtrip(n as u64, body + tail);
    assert(s =~= e + (body + tail));
    let k = e.len();
    lemma_split_step(s, n, k);
    assert(s.subrange(k as int, (k + n) as int) =~= body);
    assert(s.skip((k + n) as int) =~= tail);
}

/// Law: the frames of a sequence of bodies, written one after the other and
/// followed by any bytes, are read back as exactly those bodies, in order;
/// what follows them is split as it would be alone.
pub proof fn lemma_split_frames(bodies: Seq<Seq<u8>>, tail: Seq<u8>)
    requires
        forall|j: int| 0 <= j < bodies.len() ==> #[trigger] bodies[j].len() <= u64::MAX,
    ensures
        split_frames_spec(frames_of(bodies) + tail) == (FrameSplit {
            bodies: bodies + split_frames_spec(tail).bodies,
            rest: split_frames_spec(tail).rest,
            corrupt: split_frames_spec(tail).corrupt,
        }),
    decreases bodies.len(),
{
    if bodies.len() == 0 {
        assert(frames_of(bodies) + tail =~= tail);
        assert(bodies + split_frames_spec(tail).bodies =~= split_frames_spec(tail).bodies);
    } else {
        let first = bodies[0];
        let others = bodies.drop_first();
        assert(forall|j: int| 0 <= j < others.len() ==> #[trigger] others[j] == bodies[j + 1]);
        lemma_split_frames(others, tail);
        assert(frames_of(bodies) + tail =~= frame_of(first) + (frames_of(others) + tail));
        lemma_split_frame_then(first, frames_of(others) + tail);
        assert(seq![first] + (others + split_frames_spec(tail).bodies)
            =~= bodies + split_frames_spec(tail).bodies);
    }
}

/// Law: a frame cut anywhere after its length prefix, before its last byte,
/// is a frame still arriving: no body is read, nothing is corrupt, and all
/// of it is kept.
pub proof fn lemma_split_partial_frame(body: Seq<u8>, cut: int)
    requires
        body.len() <= u64::MAX,
        encode_varint(body.len()).len() <= cut < frame_of(body).len(),
    ensures
        split_frames_spec(frame_of(body).take(cut)) == (FrameSplit {
            bodies: Seq::empty(),
            rest: frame_of(body).take(cut),
            corrupt: false,
        }),
{
    let n = body.len();
    let e = encode_varint(n);
    let s = frame_of(body).take(cut);
    lemma_varint_roundtrip(n as u64, body.take(cut - e.len()));
    assert(s =~= e + body.take(cut - e.len()));
}

/// Law: a stream of complete frames followed by a frame whose length prefix
/// has arrived but whose body has not all arrived yields exactly the complete
/// bodies, keeps the partial frame, and is not corrupt.
pub proof fn lemma_split_stream(bodies: Seq<Seq<u8>>, next: Seq<u8>, cut: int)
    requires
        forall|j: int| 0 <= j < bodies.len() ==> #[trigger] bodies[j].len() <= u64::MAX,
        next.len() <= u64::MAX,
        encode_varint(next.len()).len() <= cut < frame_of(next).len(),
    ensures
        split_frames_spec(frames_of(bodies) + frame_of(next).take(cut)) == (FrameSplit {
            bodies: bodies,
            rest: frame_of(next).take(cut),
            corrupt: false,
        }),
{
    lemma_split_frames(bodies, frame_of(next).take(cut));
    lemma_split_partial_frame(next, cut);
    assert(bodies + Seq::<Seq<u8>>::empty() =~= bodies);
}

/// Law: bytes that arrive later do not change the frames already complete:
/// splitting `s` followed by `c` gives the frames of `s`, then the frames of
/// what `s` left over followed by `c` (as long as `s` is not corrupt).
pub proof fn lemma_split_append(s: Seq<u8>, c: Seq<u8>)
    requires
        !split_frames_spec(s).corrupt,
    ensures
        split_frames_spec(s + c) == (FrameSplit {
            bodies: split_frames_spec(s).bodies + split_frames_spec(split_frames_spec(s).rest + c).bodies,
            rest: split_frames_spec(split_frames_spec(s).rest + c).rest,
            corrupt: split_frames_spec(split_frames_spec(s).rest + c).corrupt,
        }),
    decreases s.len(),
{
    let sc = s + c;
    if s.len() == 0 {
        assert(sc =~= c);
        assert(split_frames_spec(s).rest + c =~= c);
        assert(Seq::<Seq<u8>>::empty() + split_frames_spec(c).bodies =~= split_frames_spec(c).bodies);
    } else {
        match decode_varint(s) {
            None => {
                assert(Seq::<Seq<u8>>::empty() + split_frames_spec(sc).bodies =~= split_frames_spec(sc).bodies);
            },
            Some((n, k)) => {
                if k + n > s.len() {
                    assert(Seq::<Seq<u8>>::empty() + split_frames_spec(sc).bodies =~= split_frames_spec(sc).bodies);
                } else {
                    lemma_split_step(s, n, k);
                    lemma_decode_varint_prefix(s, c, 0);
                    lemma_split_step(sc, n, k);
                    let tail = s.skip((k + n) as int);
                    assert(sc.skip((k + n) as int) =~= tail + c);
                    assert(sc.subrange(k as int, (k + n) as int) =~= s.subrange(k as int, (k + n) as int));
                    lemma_split_append(tail, c);
                    let body = s.subrange(k as int, (k + n) as int);
                    let later = split_frames_spec(split_frames_spec(tail).rest + c).bodies;
                    assert(seq![body] + (split_frames_spec(tail).bodies + later)
                        =~= (seq![body] + split_frames_spec(tail).bodies) + later);
                }
            },
        }
    }
}

/// Law: a corrupt stream stays corrupt whatever bytes arrive later, and no
/// further frame is read from it.
pub proof fn lemma_split_corrupt_stays(s: Seq<u8>, c: Seq<u8>)
    requires
        split_frames_spec(s).corrupt,
    ensures
        split_frames_spec(s + c).corrupt,
        split_frames_spec(s + c).bodies == split_frames_spec(s).bodies,
    decreases s.len(),
{
    let sc = s + c;
    match decode_varint(s) {
        None => {
            lemma_decode_varint_failure_stays(s, c, 0);
            assert(sc.len() > 0);
            assert(!truncated(sc)) by {
                if truncated(sc) {
                    assert forall|i: int| 0 <= i < s.len() implies #[trigger] s[i] >= 128 by {
                        assert(s[i] == sc[i]);
                    }
                }
            }
        },
        Some((n, k)) => {
            lemma_split_step(s, n, k);
            lemma_decode_varint_prefix(s, c, 0);
            lemma_split_step(sc, n, k);
            let tail = s.skip((k + n) as int);
            assert(sc.skip((k + n) as int) =~= tail + c);
            assert(sc.subrange(k as int, (k + n) as int) =~= s.subrange(k as int, (k + n) as int));
            lemma_split_corrupt_stays(tail, c);
        },
    }
}

/// What is left over after the complete frames of a stream that is not
/// corrupt is a frame still arriving, or nothing: splitting it again reads
/// no frame and keeps all of it.
pub proof fn lemma_split_rest_pending(s: Seq<u8>)
    requires
        !split_frames_spec(s).corrupt,
    ensures
        split_frames_spec(split_frames_spec(s).rest) == (FrameSplit {
            bodies: Seq::empty(),
            rest: split_frames_spec(s).rest,
            corrupt: false,
        }),
    decreases s.len(),
{
    if s.len() > 0 {
        if let Some((n, k)) = decode_varint(s) {
            if k + n <= s.len() {
                lemma_split_step(s, n, k);
                lemma_split_rest_pending(s.skip((k + n) as int));
            }
        }
    }
}

/// All the bytes of a sequence of reads, in order.
pub open spec fn concat_reads(chunks: Seq<Seq<u8>>) -> Seq<u8>
    decreases chunks.len(),
{
    if chunks.len() == 0 {
        Seq::empty()
    } else {
        chunks[0] + concat_reads(chunks.drop_first())
    }
}

/// What a connection has done after a sequence of reads: the bodies it has
/// served, the bytes it keeps for later, and whether it found the stream
/// corrupt (and stopped).
pub struct ReadsOutcome {
    pub served: Seq<Seq<u8>>,
    pub buffer: Seq<u8>,
    pub corrupt: bool,
}

/// A connection that holds `buffer` and then receives `chunks`, one read
/// at a time: after each read it serves the complete frames in what it
/// holds and keeps the rest; at a corrupt length prefix it stops.
pub open spec fn serve_reads(buffer: Seq<u8>, chunks: Seq<Seq<u8>>) -> ReadsOutcome
    decreases chunks.len(),
{
    if chunks.len() == 0 {
        ReadsOutcome { served: Seq::empty(), buffer, corrupt: false }
    } else {
        let sp = split_frames_spec(buffer + chunks[0]);
        if sp.corrupt {
            ReadsOutcome { served: sp.bodies, buffer: sp.rest, corrupt: true }
        } else {
            let next = serve_reads(sp.rest, chunks.drop_first());
            ReadsOutcome { served: sp.bodies + next.served, buffer: next.buffer, corrupt: next.corrupt }
        }
    }
}

proof fn lemma_serve_reads_from(b: Seq<u8>, chunks: Seq<Seq<u8>>)
    requires
        split_frames_spec(b) == (FrameSplit { bodies: Seq::empty(), rest: b, corrupt: false }),
    ensures
        serve_reads(b, chunks).served == split_frames_spec(b + concat_reads(chunks)).bodies,
        serve_reads(b, chunks).corrupt == split_frames_spec(b + concat_reads(chunks)).corrupt,
        !serve_reads(b, chunks).corrupt ==> serve_reads(b, chunks).buffer == split_frames_spec(
            b + concat_reads(chunks),
        ).rest,
    decreases chunks.len(),
{
    if chunks.len() == 0 {
        assert(b + concat_reads(chunks) =~= b);
    } else {
        let c0 = chunks[0];
        let later = concat_reads(chunks.drop_first());
        let s = b + c0;
        assert(b + concat_reads(chunks) =~= s + later);
        let sp = split_frames_spec(s);
        if sp.corrupt {
            lemma_split_corrupt_stays(s, later);
        } else {
            lemma_split_append(s, later);
            lemma_split_rest_pending(s);
            lemma_serve_reads_from(sp.rest, chunks.drop_first());
        }
    }
}

/// Law: however the bytes of a stream are cut into reads, a connection
/// serves exactly the frames that the whole stream holds, in order, and finds
/// it corrupt exactly when the whole stream is; when it is not corrupt, it
/// keeps exactly the bytes after those frames.
pub proof fn lemma_serve_reads(chunks: Seq<Seq<u8>>)
    ensures
        serve_reads(Seq::empty(), chunks).served == split_frames_spec(concat_reads(chunks)).bodies,
        serve_reads(Seq::empty(), chunks).corrupt == split_frames_spec(concat_reads(chunks)).corrupt,
        !serve_reads(Seq::empty(), chunks).corrupt ==> serve_reads(Seq::empty(), chunks).buffer
            == split_frames_spec(concat_reads(chunks)).rest,
{
    let e = Seq::<u8>::empty();
    assert(split_frames_spec(e) == (FrameSplit { bodies: Seq::empty(), rest: e, corrupt: false }));
    lemma_serve_reads_from(e, chunks);
    assert(e + concat_reads(chunks) =~= concat_reads(chunks));
}

/// Law: two connections that receive the same bytes, cut into reads at
/// different points, serve the same frames, agree on corruption, and keep
/// the same bytes when the stream is not corrupt.
pub proof fn lemma_reads_agree(a: Seq<Seq<u8>>, b: Seq<Seq<u8>>)
    requires
        concat_reads(a) == concat_reads(b),
    ensures
        serve_reads(Seq::empty(), a).served == serve_reads(Seq::empty(), b).served,
        serve_reads(Seq::empty(), a).corrupt == serve_reads(Seq::empty(), b).corrupt,
        !serve_reads(Seq::empty(), a).corrupt ==> serve_reads(Seq::empty(), a).buffer == serve_reads(
            Seq::empty(),
            b,
        ).buffer,
{
    lemma_serve_reads(a);
    lemma_serve_reads(b);
}

} // verus!
