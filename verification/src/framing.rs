//! gRPC length-prefixed message framing.
//!
//! On the wire every gRPC message (and, in gRPC-web, the trailer block) is a
//! frame: one flag byte, the payload length as a big-endian `u32`, then the
//! payload. This module writes frames and cuts a byte stream back into them.
use vstd::prelude::*;
use bytes::BytesMut;
use crate::buffers::{
    be32, be32_value, bytes_mut_advance, bytes_mut_as_slice, bytes_mut_contents,
    bytes_mut_extend_from_slice, bytes_mut_len, bytes_mut_new, bytes_mut_put_slice,
    bytes_mut_put_u32, bytes_mut_put_u8, lemma_be32_roundtrip, lemma_be32_value_bounds,
    slice_get_u32,
};

verus! {

/// Length of the flag byte plus the length prefix.
pub const FRAME_HEADER_SIZE: usize = 5;

/// Flag byte of a data frame that is not compressed.
pub const UNCOMPRESSED_FLAG: u8 = 0;

/// Flag byte that marks the gRPC-web trailer frame.
pub const GRPC_WEB_TRAILERS_BIT: u8 = 0b1000_0000;

/// A frame with the given flag and length prefix, followed by `payload`.
pub open spec fn frame_bytes(flag: u8, len: u32, payload: Seq<u8>) -> Seq<u8> {
    seq![flag] + be32(len) + payload
}

/// The frame of `payload`, whose length prefix is the payload's length.
pub open spec fn spec_frame(flag: u8, payload: Seq<u8>) -> Seq<u8>
    recommends
        payload.len() <= u32::MAX,
{
    frame_bytes(flag, payload.len() as u32, payload)
}

/// The payload length announced by the frame header at the start of `buf`.
pub open spec fn announced_len(buf: Seq<u8>) -> int {
    be32_value(buf.subrange(1, 5))
}

/// `buf` starts with a whole frame: its header and all the payload it announces.
pub open spec fn has_complete_frame(buf: Seq<u8>) -> bool {
    buf.len() >= 5 && buf.len() >= 5 + announced_len(buf)
}

/// Cuts `buf` into the payloads of the whole frames at its start, and what is
/// left after them (an incomplete frame, or nothing). The flag byte of each
/// frame is not kept.
pub open spec fn split_frames(buf: Seq<u8>) -> (Seq<Seq<u8>>, Seq<u8>)
    decreases buf.len(),
{
    if has_complete_frame(buf) {
        let n = 5 + announced_len(buf);
        let rest = split_frames(buf.skip(n));
        (seq![buf.subrange(5, n)] + rest.0, rest.1)
    } else {
        (seq![], buf)
    }
}

/// The chunks of a stream, one after the other.
pub open spec fn concat_chunks(chunks: Seq<Seq<u8>>) -> Seq<u8>
    decreases chunks.len(),
{
    if chunks.len() == 0 {
        seq![]
    } else {
        concat_chunks(chunks.drop_last()) + chunks.last()
    }
}

/// The frames of `payloads`, each with the given flag, one after the other.
pub open spec fn frames_of(flag: u8, payloads: Seq<Seq<u8>>) -> Seq<u8>
    decreases payloads.len(),
{
    if payloads.len() == 0 {
        seq![]
    } else {
        spec_frame(flag, payloads[0]) + frames_of(flag, payloads.drop_first())
    }
}

proof fn lemma_announced_len_nonneg(buf: Seq<u8>)
    requires
        buf.len() >= 5,
    ensures
        0 <= announced_len(buf) <= u32::MAX,
{
    lemma_be32_value_bounds(buf.subrange(1, 5));
}

/// Every frame is its flag, then the length in big-endian order (most
/// significant byte first), then the payload.
pub proof fn law_frame_layout(flag: u8, len: u32, payload: Seq<u8>)
    ensures
        frame_bytes(flag, len, payload).len() == 5 + payload.len(),
        frame_bytes(flag, len, payload)[0] == flag,
        frame_bytes(flag, len, payload)[1] as int == len as int / 0x100_0000,
        frame_bytes(flag, len, payload)[2] as int == (len as int / 0x1_0000) % 0x100,
        frame_bytes(flag, len, payload)[3] as int == (len as int / 0x100) % 0x100,
        frame_bytes(flag, len, payload)[4] as int == len as int % 0x100,
        frame_bytes(flag, len, payload).subrange(5, 5 + payload.len() as int) == payload,
{
    let f = frame_bytes(flag, len, payload);
    assert(f.subrange(5, 5 + payload.len() as int) =~= payload);
}

/// A message frame is flagged 0 (not compressed); the trailer frame is
/// flagged with the high bit alone.
pub proof fn law_frame_flags()
    ensures
        UNCOMPRESSED_FLAG == 0u8,
        GRPC_WEB_TRAILERS_BIT == 0x80u8,
{
}

/// The length a frame header announces is the big-endian number spelled by
/// the four bytes after the flag.
pub proof fn law_announced_len_is_big_endian(buf: Seq<u8>)
    requires
        buf.len() >= 5,
    ensures
        announced_len(buf) == buf[1] as int * 0x100_0000 + buf[2] as int * 0x1_0000 + buf[3] as int
            * 0x100 + buf[4] as int,
{
}

/// Any buffer that is a flag, four bytes spelling the payload's length in
/// big-endian order, and the payload, is cut into exactly that payload.
pub proof fn law_big_endian_frame_parses_back(
    flag: u8,
    b1: u8,
    b2: u8,
    b3: u8,
    b4: u8,
    payload: Seq<u8>,
)
    requires
        b1 as int * 0x100_0000 + b2 as int * 0x1_0000 + b3 as int * 0x100 + b4 as int
            == payload.len(),
    ensures
        split_frames(seq![flag, b1, b2, b3, b4] + payload) == (seq![payload], Seq::<u8>::empty()),
{
    let buf = seq![flag, b1, b2, b3, b4] + payload;
    law_announced_len_is_big_endian(buf);
    assert(announced_len(buf) == payload.len());
    assert(has_complete_frame(buf));
    let n: int = 5 + payload.len() as int;
    assert(buf.skip(n) =~= Seq::<u8>::empty());
    assert(buf.subrange(5, n) =~= payload);
    assert(!has_complete_frame(Seq::<u8>::empty()));
    assert(split_frames(buf.skip(n)) == (Seq::<Seq<u8>>::empty(), Seq::<u8>::empty()));
    assert(split_frames(buf).0 =~= seq![payload]);
}

/// Frames are cut the same way whatever follows them: the whole frames at the
/// start of `a + b` are those of `a`, then those of what `a` left over
/// followed by `b`.
pub proof fn lemma_split_frames_append(a: Seq<u8>, b: Seq<u8>)
    ensures
        split_frames(a + b).0 == split_frames(a).0 + split_frames(split_frames(a).1 + b).0,
        split_frames(a + b).1 == split_frames(split_frames(a).1 + b).1,
    decreases a.len(),
{
    if has_complete_frame(a) {
        lemma_announced_len_nonneg(a);
        let n = 5 + announced_len(a);
        assert((a + b).subrange(1, 5) =~= a.subrange(1, 5));
        assert(has_complete_frame(a + b));
        assert((a + b).skip(n) =~= a.skip(n) + b);
        assert((a + b).subrange(5, n) =~= a.subrange(5, n));
        lemma_split_frames_append(a.skip(n), b);
        assert(split_frames(a + b).0 =~= split_frames(a).0 + split_frames(split_frames(a).1 + b).0);
    } else {
        assert(split_frames(a).0 =~= seq![]);
        assert(split_frames(a).0 + split_frames(a + b).0 =~= split_frames(a + b).0);
    }
}

/// A stream made of whole frames is cut back into exactly their payloads,
/// with nothing left over.
pub proof fn lemma_frames_roundtrip(flag: u8, payloads: Seq<Seq<u8>>)
    requires
        forall|i: int| 0 <= i < payloads.len() ==> #[trigger] payloads[i].len() <= u32::MAX,
    ensures
        split_frames(frames_of(flag, payloads)) == (payloads, Seq::<u8>::empty()),
    decreases payloads.len(),
{
    if payloads.len() == 0 {
        assert(!has_complete_frame(frames_of(flag, payloads)));
    } else {
        let p = payloads[0];
        let f = spec_frame(flag, p);
        let rest = frames_of(flag, payloads.drop_first());
        let all = frames_of(flag, payloads);
        assert(all == f + rest);
        lemma_be32_roundtrip(p.len() as u32);
        assert(all.subrange(1, 5) =~= be32(p.len() as u32));
        assert(announced_len(all) == p.len());
        assert(has_complete_frame(all));
        let n: int = 5 + p.len() as int;
        assert(all.skip(n) =~= rest);
        assert(all.subrange(5, n) =~= p);
        lemma_frames_roundtrip(flag, payloads.drop_first());
        assert(seq![p] + payloads.drop_first() =~= payloads);
    }
}

/// A single frame is cut back into its payload, with nothing left over.
pub proof fn lemma_frame_roundtrip(flag: u8, payload: Seq<u8>)
    requires
        payload.len() <= u32::MAX,
    ensures
        split_frames(spec_frame(flag, payload)) == (seq![payload], Seq::<u8>::empty()),
{
    let ps = seq![payload];
    assert(frames_of(flag, ps.drop_first()) =~= Seq::<u8>::empty());
    assert(frames_of(flag, ps) =~= spec_frame(flag, payload));
    lemma_frames_roundtrip(flag, ps);
}

/// What `split_frames` leaves over is never longer than its input.
pub proof fn lemma_split_frames_rest_len(buf: Seq<u8>)
    ensures
        split_frames(buf).1.len() <= buf.len(),
    decreases buf.len(),
{
    if has_complete_frame(buf) {
        lemma_announced_len_nonneg(buf);
        lemma_split_frames_rest_len(buf.skip(5 + announced_len(buf)));
    }
}

proof fn lemma_concat_chunks_prefix(chunks: Seq<Seq<u8>>, i: int)
    requires
        0 <= i <= chunks.len(),
    ensures
        concat_chunks(chunks.take(i)).len() <= concat_chunks(chunks).len(),
    decreases chunks.len(),
{
    if i < chunks.len() {
        assert(chunks.drop_last().take(i) =~= chunks.take(i));
        lemma_concat_chunks_prefix(chunks.drop_last(), i);
    } else {
        assert(chunks.take(i) =~= chunks);
    }
}

/// Cuts the data chunks of a whole gRPC response body into the payloads of its
/// frames, in order. An incomplete frame at the end yields nothing. However
/// the stream was cut into chunks, the payloads are those of its bytes taken
/// as one: the contract speaks of the chunks only through their concatenation.
pub fn parse_grpc_stream(chunks: &Vec<Vec<u8>>) -> (messages: Vec<Vec<u8>>)
    requires
        concat_chunks(chunks.deep_view()).len() <= isize::MAX,
    ensures
        messages.deep_view() == split_frames(concat_chunks(chunks.deep_view())).0,
{
    let ghost all = chunks.deep_view();
    let mut decoder = GrpcFrameDecoder::new();
    let mut messages: Vec<Vec<u8>> = Vec::new();
    let mut i: usize = 0;
    assert(all.take(0) =~= Seq::<Seq<u8>>::empty());
    assert(split_frames(Seq::<u8>::empty()).0 =~= Seq::<Seq<u8>>::empty());
    while i < chunks.len()
        invariant
            all == chunks.deep_view(),
            0 <= i <= chunks.len(),
            concat_chunks(all).len() <= isize::MAX,
            messages.deep_view() == split_frames(concat_chunks(all.take(i as int))).0,
            decoder.pending() == split_frames(concat_chunks(all.take(i as int))).1,
        decreases chunks.len() - i,
    {
        let chunk = &chunks[i];
        let ghost prefix = concat_chunks(all.take(i as int));
        proof {
            assert(all[i as int] == chunk@);
            assert(all.take(i + 1).drop_last() =~= all.take(i as int));
            assert(concat_chunks(all.take(i + 1)) == prefix + chunk@);
            lemma_concat_chunks_prefix(all, i + 1);
            lemma_split_frames_rest_len(prefix);
            lemma_split_frames_append(prefix, chunk@);
        }
        let mut fresh = decoder.push(chunk.as_slice());
        let ghost before = messages.deep_view();
        let ghost fresh_view = fresh.deep_view();
        messages.append(&mut fresh);
        assert(messages.deep_view() =~= before + fresh_view);
        i = i + 1;
    }
    assert(all.take(chunks.len() as int) =~= all);
    messages
}

/// Frames an already encoded message as an uncompressed data frame. Like the
/// `put_u32(len as u32)` it is built with, the length prefix holds the
/// payload length modulo 2^32.
pub fn message_to_frame(encoded_message: &[u8]) -> (framed: BytesMut)
    requires
        encoded_message@.len() + 5 <= isize::MAX,
    ensures
        bytes_mut_contents(framed) == frame_bytes(
            UNCOMPRESSED_FLAG,
            encoded_message@.len() as u32,
            encoded_message@,
        ),
{
    let mut framed = bytes_mut_new();
    bytes_mut_put_u8(&mut framed, UNCOMPRESSED_FLAG);
    #[verifier::truncate]
    let len: u32 = encoded_message.len() as u32;
    bytes_mut_put_u32(&mut framed, len);
    bytes_mut_put_slice(&mut framed, encoded_message);
    assert(bytes_mut_contents(framed) =~= frame_bytes(
        UNCOMPRESSED_FLAG,
        encoded_message@.len() as u32,
        encoded_message@,
    ));
    framed
}

/// Cuts an incoming byte stream into frame payloads as its chunks arrive.
/// Bytes of a frame that has not fully arrived are kept until it has.
pub struct GrpcFrameDecoder {
    buf: BytesMut,
}

impl GrpcFrameDecoder {
    /// The bytes received and not yet handed out as a payload.
    pub closed spec fn pending(&self) -> Seq<u8> {
        bytes_mut_contents(self.buf)
    }

    /// A decoder that holds nothing yet.
    pub fn new() -> (d: Self)
        ensures
            d.pending() == Seq::<u8>::empty(),
    {
        GrpcFrameDecoder { buf: bytes_mut_new() }
    }

    /// The number of bytes pending.
    pub fn pending_len(&self) -> (n: usize)
        ensures
            n == self.pending().len(),
    {
        bytes_mut_len(&self.buf)
    }

    /// Takes the next chunk of the stream and hands out the payloads of all
    /// frames that are now whole, in order; the rest stays pending.
    pub fn push(&mut self, data: &[u8]) -> (messages: Vec<Vec<u8>>)
        requires
            old(self).pending().len() + data@.len() <= isize::MAX,
        ensures
            messages.deep_view() == split_frames(old(self).pending() + data@).0,
            final(self).pending() == split_frames(old(self).pending() + data@).1,
    {
        let ghost total = self.pending() + data@;
        bytes_mut_extend_from_slice(&mut self.buf, data);
        let mut messages: Vec<Vec<u8>> = Vec::new();
        loop
            invariant
                total == old(self).pending() + data@,
                split_frames(total).0 == messages.deep_view() + split_frames(self.pending()).0,
                split_frames(total).1 == split_frames(self.pending()).1,
                self.pending().len() <= isize::MAX,
            ensures
                split_frames(total).0 == messages.deep_view(),
                split_frames(total).1 == self.pending(),
            decreases self.pending().len(),
        {
            let ghost cur = self.pending();
            let len = bytes_mut_len(&self.buf);
            if len < FRAME_HEADER_SIZE {
                assert(messages.deep_view() + seq![] =~= messages.deep_view());
                return messages;
            }
            let view = bytes_mut_as_slice(&self.buf);
            let header = &view[1..5];
            assert(header@ =~= cur.subrange(1, 5));
            let msg_len = slice_get_u32(header) as usize;
            if len - FRAME_HEADER_SIZE < msg_len {
                assert(messages.deep_view() + seq![] =~= messages.deep_view());
                return messages;
            }
            let end = FRAME_HEADER_SIZE + msg_len;
            let msg = vstd::slice::slice_to_vec(&view[5..end]);
            proof {
                assert(has_complete_frame(cur));
                assert(msg@ =~= cur.subrange(5, end as int));
                assert(messages.deep_view().push(msg@) + split_frames(cur.skip(end as int)).0
                    =~= messages.deep_view() + split_frames(cur).0);
            }
            let ghost before = messages.deep_view();
            assert(msg.deep_view() =~= msg@);
            messages.push(msg);
            bytes_mut_advance(&mut self.buf, end);
            assert(messages.deep_view() =~= before.push(msg@));
        }
    }
}

} // verus!
