//! The receive side of a connection: a two-state machine that turns the bytes
//! read from the socket, in whatever pieces they arrive, back into payloads.

use vstd::prelude::*;
use vstd::slice::slice_subrange;
use crate::net::frame::{
    decode_len, frame_of, header_of, header_value, lemma_header_round_trip, lemma_header_unique,
    HEADER_LEN, MAX_MSG_BYTES, MESSAGE_SIZE_CAP,
};

verus! {

/// What a byte stream holds, read from its start.
pub struct Parsed {
    /// The payloads of the complete frames, in the order they stand in the stream.
    pub payloads: Seq<Seq<u8>>,
    /// The bytes of the last, incomplete frame.
    pub rest: Seq<u8>,
    /// Whether a length prefix announced more than the largest payload; nothing
    /// behind such a prefix is read.
    pub oversize: bool,
}

/// Reads `stream` frame by frame until it ends or a frame is too large.
#[verifier::opaque]
pub open spec fn parse(stream: Seq<u8>) -> Parsed
    decreases stream.len(),
{
    if stream.len() < 8 {
        Parsed { payloads: Seq::empty(), rest: stream, oversize: false }
    } else {
        let n = header_value(stream);
        if n > MAX_MSG_BYTES {
            Parsed { payloads: Seq::empty(), rest: Seq::empty(), oversize: true }
        } else if stream.len() < 8 + n {
            Parsed { payloads: Seq::empty(), rest: stream, oversize: false }
        } else {
            let tail = parse(stream.skip(8 + n));
            Parsed {
                payloads: seq![stream.subrange(8, 8 + n)] + tail.payloads,
                rest: tail.rest,
                oversize: tail.oversize,
            }
        }
    }
}

/// What a stream delivers in all when `first` was delivered from its start and
/// `later` is what the bytes behind that hold.
pub open spec fn after(first: Seq<Seq<u8>>, later: Parsed) -> Parsed {
    Parsed { payloads: first + later.payloads, rest: later.rest, oversize: later.oversize }
}

/// The frames of `payloads`, one behind the other.
pub open spec fn stream_of(payloads: Seq<Seq<u8>>) -> Seq<u8>
    decreases payloads.len(),
{
    if payloads.len() == 0 {
        Seq::empty()
    } else {
        frame_of(payloads[0]) + stream_of(payloads.skip(1))
    }
}

/// The byte sequences that `payloads` hold.
pub open spec fn views(payloads: Seq<Vec<u8>>) -> Seq<Seq<u8>> {
    Seq::new(payloads.len(), |i: int| payloads[i]@)
}

/// Where the receiver stands between two reads of the socket.
#[derive(Debug)]
pub enum RecvState {
    /// Collecting the length prefix; holds the bytes of it that have arrived.
    ReadHead(Vec<u8>),
    /// Collecting a payload of the given length; holds the bytes of it that
    /// have arrived.
    ReadBody(usize, Vec<u8>),
}

/// What one more byte did to the receiver.
#[derive(Debug)]
pub enum Step {
    /// The frame under way is still incomplete.
    Pending,
    /// The byte completed a frame with this payload.
    Payload(Vec<u8>),
    /// The byte completed a length prefix that announces too large a payload.
    Oversize,
}

/// What a run of bytes did to the receiver.
#[derive(Debug)]
pub struct Intake {
    /// The payloads completed by these bytes, oldest first.
    pub payloads: Vec<Vec<u8>>,
    /// Whether the bytes held a length prefix beyond the limit. The payloads
    /// are then those that stood before it; the bytes behind it were dropped.
    pub oversize: bool,
}

impl RecvState {
    /// A state always holds an incomplete frame: a short prefix, or an accepted
    /// length with fewer bytes than it announces.
    pub open spec fn wf(&self) -> bool {
        match self {
            RecvState::ReadHead(head) => head@.len() < 8,
            RecvState::ReadBody(len, body) => *len <= MAX_MSG_BYTES && body@.len() < *len,
        }
    }

    /// The bytes of the incomplete frame, as they came from the socket.
    pub open spec fn pending(&self) -> Seq<u8> {
        match self {
            RecvState::ReadHead(head) => head@,
            RecvState::ReadBody(len, body) => header_of(*len as u64) + body@,
        }
    }

    /// The state of a connection on which nothing has arrived.
    pub fn new() -> (state: Self)
        ensures
            state.wf(),
            state.pending() == Seq::<u8>::empty(),
    {
        RecvState::ReadHead(Vec::with_capacity(HEADER_LEN))
    }

    /// Whether the state holds an incomplete frame, as every state does that
    /// `new`, `push` and `feed` leave behind.
    pub fn is_wf(&self) -> (ok: bool)
        ensures
            ok == self.wf(),
    {
        match self {
            RecvState::ReadHead(head) => head.len() < HEADER_LEN,
            RecvState::ReadBody(len, body) => *len <= MAX_MSG_BYTES && body.len() < *len,
        }
    }

    /// Takes one byte from the socket.
    pub fn push(&mut self, byte: u8) -> (step: Step)
        requires
            old(self).wf(),
        ensures
            final(self).wf(),
            match step {
                Step::Pending => final(self).pending() == old(self).pending().push(byte),
                Step::Payload(payload) => {
                    &&& payload@.len() <= MAX_MSG_BYTES
                    &&& old(self).pending().push(byte) == frame_of(payload@)
                    &&& final(self).pending() == Seq::<u8>::empty()
                },
                Step::Oversize => {
                    &&& old(self).pending().push(byte).len() == 8
                    &&& header_value(old(self).pending().push(byte)) > MAX_MSG_BYTES
                    &&& final(self).pending() == Seq::<u8>::empty()
                },
            },
    {
        let mut cur = RecvState::ReadHead(Vec::new());
        core::mem::swap(self, &mut cur);
        match cur {
            RecvState::ReadHead(mut head) => {
                head.push(byte);
                if head.len() == HEADER_LEN {
                    let n: u64 = decode_len(head.as_slice());
                    proof {
                        lemma_header_unique(head@);
                    }
                    if n > MESSAGE_SIZE_CAP {
                        Step::Oversize
                    } else if n == 0 {
                        let payload: Vec<u8> = Vec::new();
                        assert(frame_of(payload@) =~= head@);
                        Step::Payload(payload)
                    } else {
                        *self = RecvState::ReadBody(n as usize, Vec::new());
                        assert(self.pending() =~= head@);
                        Step::Pending
                    }
                } else {
                    *self = RecvState::ReadHead(head);
                    Step::Pending
                }
            },
            RecvState::ReadBody(len, mut body) => {
                body.push(byte);
                assert(header_of(len as u64) + body@ =~= (header_of(len as u64) + body@.drop_last()).push(
                    byte,
                ));
                assert(body@.drop_last() =~= old(self).pending().skip(8)) by {
                    lemma_header_round_trip(len as u64);
                }
                if body.len() == len {
                    Step::Payload(body)
                } else {
                    *self = RecvState::ReadBody(len, body);
                    Step::Pending
                }
            },
        }
    }

    /// Takes the bytes of one read from the socket and hands out the payloads
    /// that they complete.
    pub fn feed(&mut self, bytes: &[u8]) -> (got: Intake)
        requires
            old(self).wf(),
        ensures
            final(self).wf(),
            views(got.payloads@) == parse(old(self).pending() + bytes@).payloads,
            got.oversize == parse(old(self).pending() + bytes@).oversize,
            final(self).pending() == parse(old(self).pending() + bytes@).rest,
    {
        let ghost total = old(self).pending() + bytes@;
        let mut payloads: Vec<Vec<u8>> = Vec::new();
        let mut pos: usize = 0;
        assert(views(payloads@) =~= Seq::<Seq<u8>>::empty());
        assert(bytes@.skip(0) =~= bytes@);
        assert(after(views(payloads@), parse(total)).payloads =~= parse(total).payloads);
        while pos < bytes.len()
            invariant
                self.wf(),
                pos <= bytes@.len(),
                total == old(self).pending() + bytes@,
                parse(total) == after(
                    views(payloads@),
                    parse(self.pending() + bytes@.skip(pos as int)),
                ),
            decreases bytes@.len() - pos,
        {
            let ghost before = self.pending();
            let ghost delivered = views(payloads@);
            let mut cur = RecvState::ReadHead(Vec::new());
            core::mem::swap(self, &mut cur);
            match cur {
                RecvState::ReadHead(head) => {
                    let ghost behind = bytes@.skip(pos + 1);
                    assert(before + bytes@.skip(pos as int) =~= before.push(bytes@[pos as int])
                        + behind);
                    *self = RecvState::ReadHead(head);
                    let step = self.push(bytes[pos]);
                    pos = pos + 1;
                    match step {
                        Step::Pending => {},
                        Step::Payload(payload) => {
                            proof {
                                lemma_delivers(delivered, payload@, behind);
                                assert(self.pending() + behind =~= behind);
                                assert(views(payloads@.push(payload)) =~= delivered + seq![
                                    payload@,
                                ]);
                            }
                            payloads.push(payload);
                        },
                        Step::Oversize => {
                            proof {
                                lemma_parse_oversize(before.push(bytes@[pos - 1]), behind);
                                assert(delivered + Seq::<Seq<u8>>::empty() =~= delivered);
                            }
                            return Intake { payloads, oversize: true };
                        },
                    }
                },
                RecvState::ReadBody(len, mut body) => {
                    let missing: usize = len - body.len();
                    let offered: usize = bytes.len() - pos;
                    let take: usize = if missing < offered {
                        missing
                    } else {
                        offered
                    };
                    let ghost had = body@;
                    let ghost behind = bytes@.skip(pos + take);
                    body.extend_from_slice(slice_subrange(bytes, pos, pos + take));
                    proof {
                        assert(body@ =~= had + bytes@.subrange(pos as int, pos + take));
                        assert(before + bytes@.skip(pos as int) =~= (header_of(len as u64)
                            + body@) + behind);
                    }
                    pos = pos + take;
                    if body.len() == len {
                        proof {
                            lemma_delivers(delivered, body@, behind);
                            assert(self.pending() + behind =~= behind);
                            assert(views(payloads@.push(body)) =~= delivered + seq![body@]);
                        }
                        payloads.push(body);
                    } else {
                        *self = RecvState::ReadBody(len, body);
                    }
                },
            }
        }
        proof {
            assert(bytes@.skip(pos as int) =~= Seq::<u8>::empty());
            assert(self.pending() + Seq::<u8>::empty() =~= self.pending());
            lemma_parse_incomplete(*self);
            assert(views(payloads@) + Seq::<Seq<u8>>::empty() =~= views(payloads@));
        }
        Intake { payloads, oversize: false }
    }
}

/// A whole frame behind payloads that were delivered adds its payload to them.
proof fn lemma_delivers(delivered: Seq<Seq<u8>>, payload: Seq<u8>, behind: Seq<u8>)
    requires
        payload.len() <= MAX_MSG_BYTES,
    ensures
        after(delivered, parse(frame_of(payload) + behind)) == after(
            delivered + seq![payload],
            parse(behind),
        ),
{
    lemma_parse_frame(payload, behind);
    assert(delivered + (seq![payload] + parse(behind).payloads) =~= (delivered + seq![payload])
        + parse(behind).payloads);
}

/// Between two reads nothing is left over but the frame under way.
pub proof fn lemma_parse_incomplete(state: RecvState)
    requires
        state.wf(),
    ensures
        incomplete(state.pending()),
{
    reveal(parse);
    match state {
        RecvState::ReadHead(head) => {},
        RecvState::ReadBody(len, body) => {
            lemma_header_round_trip(len as u64);
            lemma_same_header(header_of(len as u64), body@);
        },
    }
}

/// Fewer bytes than a length prefix hold no frame.
pub proof fn lemma_parse_short(stream: Seq<u8>)
    requires
        stream.len() < 8,
    ensures
        incomplete(stream),
{
    reveal(parse);
}

/// The length that a stream announces depends on its first eight bytes only.
pub proof fn lemma_same_header(head: Seq<u8>, behind: Seq<u8>)
    requires
        head.len() >= 8,
    ensures
        header_value(head + behind) == header_value(head),
{
}

/// A stream that starts with a whole frame of acceptable size delivers that
/// frame's payload first, and then whatever the rest of the stream delivers.
pub proof fn lemma_parse_frame(payload: Seq<u8>, behind: Seq<u8>)
    requires
        payload.len() <= MAX_MSG_BYTES,
    ensures
        parse(frame_of(payload) + behind) == after(seq![payload], parse(behind)),
{
    reveal(parse);
    let stream = frame_of(payload) + behind;
    let head = header_of(payload.len() as u64);
    lemma_header_round_trip(payload.len() as u64);
    assert(stream =~= head + (payload + behind));
    lemma_same_header(head, payload + behind);
    assert(stream.subrange(8, 8 + payload.len() as int) =~= payload);
    assert(stream.skip(8 + payload.len() as int) =~= behind);
}

/// A stream that starts with a length prefix beyond the limit delivers
/// nothing, whatever follows the prefix.
pub proof fn lemma_parse_oversize(head: Seq<u8>, behind: Seq<u8>)
    requires
        head.len() == 8,
        header_value(head) > MAX_MSG_BYTES,
    ensures
        parse(head + behind) == (Parsed {
            payloads: Seq::empty(),
            rest: Seq::empty(),
            oversize: true,
        }),
{
    reveal(parse);
    lemma_same_header(head, behind);
}

/// Whether every payload is small enough for a receiver to accept.
pub open spec fn all_fit(payloads: Seq<Seq<u8>>) -> bool {
    forall|i: int| 0 <= i < payloads.len() ==> (#[trigger] payloads[i]).len() <= MAX_MSG_BYTES
}

/// How the bytes are cut into reads does not matter: reading `a` and then `b`
/// delivers what reading both at once delivers, in the same order, unless `a`
/// already failed, after which `b` is not read at all.
pub proof fn lemma_parse_concat(a: Seq<u8>, b: Seq<u8>)
    ensures
        parse(a).oversize ==> parse(a + b) == parse(a),
        !parse(a).oversize ==> parse(a + b) == after(parse(a).payloads, parse(parse(a).rest + b)),
    decreases a.len(),
{
    reveal(parse);
    let none = Seq::<Seq<u8>>::empty();
    if a.len() < 8 {
        assert(none + parse(a + b).payloads =~= parse(a + b).payloads);
    } else {
        let n = header_value(a);
        lemma_same_header(a, b);
        if n > MAX_MSG_BYTES {
        } else if a.len() < 8 + n {
            assert(none + parse(a + b).payloads =~= parse(a + b).payloads);
        } else {
            let first = a.subrange(8, 8 + n);
            let tail = a.skip(8 + n);
            lemma_parse_concat(tail, b);
            assert((a + b).skip(8 + n) =~= tail + b);
            assert((a + b).subrange(8, 8 + n) =~= first);
            if !parse(tail).oversize {
                let next = parse(parse(tail).rest + b);
                assert(seq![first] + (parse(tail).payloads + next.payloads) =~= (seq![first]
                    + parse(tail).payloads) + next.payloads);
            }
        }
    }
}

/// A payload that fits comes out of its own frame unchanged, with nothing
/// left over.
pub proof fn lemma_round_trip(payload: Seq<u8>)
    requires
        payload.len() <= MAX_MSG_BYTES,
    ensures
        parse(frame_of(payload)) == (Parsed {
            payloads: seq![payload],
            rest: Seq::empty(),
            oversize: false,
        }),
{
    let none = Seq::<u8>::empty();
    lemma_parse_short(none);
    lemma_parse_frame(payload, none);
    assert(frame_of(payload) + none =~= frame_of(payload));
    assert(seq![payload] + Seq::<Seq<u8>>::empty() =~= seq![payload]);
}

/// Leaving out the first of some payloads that fit leaves payloads that fit.
proof fn lemma_later_fit(payloads: Seq<Seq<u8>>)
    requires
        all_fit(payloads),
        payloads.len() > 0,
    ensures
        all_fit(payloads.skip(1)),
        payloads[0].len() <= MAX_MSG_BYTES,
{
    let later = payloads.skip(1);
    assert forall|i: int| 0 <= i < later.len() implies (#[trigger] later[i]).len()
        <= MAX_MSG_BYTES by {
        assert(later[i] == payloads[i + 1]);
    }
}

/// Payloads that fit are delivered completely and in the order in which their
/// frames were written.
pub proof fn lemma_order_kept(payloads: Seq<Seq<u8>>)
    requires
        all_fit(payloads),
    ensures
        parse(stream_of(payloads)) == (Parsed {
            payloads,
            rest: Seq::empty(),
            oversize: false,
        }),
    decreases payloads.len(),
{
    if payloads.len() > 0 {
        let first = payloads[0];
        let later = payloads.skip(1);
        lemma_later_fit(payloads);
        lemma_order_kept(later);
        lemma_parse_frame(first, stream_of(later));
        let tail = parse(stream_of(later));
        assert(stream_of(payloads) == frame_of(first) + stream_of(later));
        assert(parse(stream_of(payloads)) == after(seq![first], tail));
        assert(seq![first] + later =~= payloads);
    } else {
        assert(payloads =~= Seq::<Seq<u8>>::empty());
        assert(stream_of(payloads) =~= Seq::<u8>::empty());
        lemma_parse_short(stream_of(payloads));
    }
}

/// A length prefix beyond the limit ends the delivery: the payloads written
/// before it arrive, and nothing written after it does, not even frames that
/// are themselves in order.
pub proof fn lemma_oversize_stops(payloads: Seq<Seq<u8>>, head: Seq<u8>, behind: Seq<u8>)
    requires
        all_fit(payloads),
        head.len() == 8,
        header_value(head) > MAX_MSG_BYTES,
    ensures
        parse(stream_of(payloads) + (head + behind)) == (Parsed {
            payloads,
            rest: Seq::empty(),
            oversize: true,
        }),
{
    lemma_order_kept(payloads);
    lemma_parse_concat(stream_of(payloads), head + behind);
    lemma_parse_oversize(head, behind);
    assert(Seq::<u8>::empty() + (head + behind) =~= head + behind);
    assert(payloads + Seq::<Seq<u8>>::empty() =~= payloads);
}

/// Writing one more frame behind a stream of frames gives the stream of them
/// all: what a sender writes, frame upon frame, is the stream of its payloads
/// in the order in which it was given them.
pub proof fn lemma_stream_push(payloads: Seq<Seq<u8>>, payload: Seq<u8>)
    ensures
        stream_of(payloads.push(payload)) == stream_of(payloads) + frame_of(payload),
    decreases payloads.len(),
{
    let all = payloads.push(payload);
    if payloads.len() == 0 {
        assert(all.skip(1) =~= Seq::<Seq<u8>>::empty());
        assert(stream_of(all.skip(1)) =~= Seq::<u8>::empty());
        assert(stream_of(all) =~= frame_of(payload));
        assert(stream_of(payloads) + frame_of(payload) =~= frame_of(payload));
    } else {
        lemma_stream_push(payloads.skip(1), payload);
        assert(all.skip(1) =~= payloads.skip(1).push(payload));
        assert(all[0] == payloads[0]);
        assert(frame_of(payloads[0]) + (stream_of(payloads.skip(1)) + frame_of(payload)) =~= (
        frame_of(payloads[0]) + stream_of(payloads.skip(1))) + frame_of(payload));
    }
}

/// Whether `bytes` hold no whole frame and no oversize prefix: the bytes of a
/// frame under way, as a receiver keeps them between two reads.
pub open spec fn incomplete(bytes: Seq<u8>) -> bool {
    parse(bytes) == (Parsed { payloads: Seq::empty(), rest: bytes, oversize: false })
}

/// The bytes of `chunks`, one chunk behind the other.
pub open spec fn joined(chunks: Seq<Seq<u8>>) -> Seq<u8>
    decreases chunks.len(),
{
    if chunks.len() == 0 {
        Seq::empty()
    } else {
        chunks[0] + joined(chunks.skip(1))
    }
}

/// What a receiver that holds `pending` delivers over the reads `chunks`, each
/// handed to `feed` in turn, up to the read that meets an oversize prefix.
pub open spec fn read_all(pending: Seq<u8>, chunks: Seq<Seq<u8>>) -> Parsed
    decreases chunks.len(),
{
    if chunks.len() == 0 {
        Parsed { payloads: Seq::empty(), rest: pending, oversize: false }
    } else {
        let first = parse(pending + chunks[0]);
        if first.oversize {
            first
        } else {
            after(first.payloads, read_all(first.rest, chunks.skip(1)))
        }
    }
}

/// What is left over behind the last whole frame is a frame under way.
pub proof fn lemma_rest_incomplete(stream: Seq<u8>)
    ensures
        incomplete(parse(stream).rest),
    decreases stream.len(),
{
    reveal(parse);
    if stream.len() >= 8 {
        let n = header_value(stream);
        if n <= MAX_MSG_BYTES && stream.len() >= 8 + n {
            lemma_rest_incomplete(stream.skip(8 + n));
        }
    }
}

/// However the socket cuts the stream into reads, the receiver delivers what
/// the whole stream holds: the same payloads, in the same order.
pub proof fn lemma_reads_join(pending: Seq<u8>, chunks: Seq<Seq<u8>>)
    requires
        incomplete(pending),
    ensures
        read_all(pending, chunks) == parse(pending + joined(chunks)),
    decreases chunks.len(),
{
    if chunks.len() == 0 {
        assert(pending + joined(chunks) =~= pending);
    } else {
        let first = parse(pending + chunks[0]);
        let later = chunks.skip(1);
        lemma_parse_concat(pending + chunks[0], joined(later));
        assert((pending + chunks[0]) + joined(later) =~= pending + joined(chunks));
        if !first.oversize {
            lemma_rest_incomplete(pending + chunks[0]);
            lemma_reads_join(first.rest, later);
        }
    }
}

/// Sent through a connection in any number of reads, payloads that fit arrive
/// completely, unchanged and in the order in which they were sent.
pub proof fn lemma_transport_in_order(payloads: Seq<Seq<u8>>, chunks: Seq<Seq<u8>>)
    requires
        all_fit(payloads),
        joined(chunks) == stream_of(payloads),
    ensures
        read_all(Seq::empty(), chunks) == (Parsed {
            payloads,
            rest: Seq::empty(),
            oversize: false,
        }),
{
    let none = Seq::<u8>::empty();
    lemma_parse_short(none);
    lemma_reads_join(none, chunks);
    lemma_order_kept(payloads);
    assert(none + joined(chunks) =~= joined(chunks));
}

} // verus!
