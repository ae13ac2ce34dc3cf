//! gRPC-web trailers: the trailing headers of a gRPC response, written as a
//! text block (`name:value\r\n` per value) inside a frame whose flag has the
//! trailers bit set, so that a gRPC-web client reads them from the body.
use vstd::prelude::*;
use bytes::Bytes;
use http::{HeaderMap, HeaderValue};
use crate::buffers::{
    bytes_contents, bytes_mut_contents, bytes_mut_freeze, bytes_mut_put_slice, bytes_mut_put_u32,
    bytes_mut_put_u8, bytes_mut_with_capacity,
};
use crate::framing::{lemma_frame_roundtrip, spec_frame, split_frames, FRAME_HEADER_SIZE, GRPC_WEB_TRAILERS_BIT};
use crate::headers::{header_entries, header_map_pairs};
use crate::text::append_bytes;

verus! {

/// The line of one trailer: its name, a colon, its value, CR LF.
pub open spec fn encode_entry(entry: (Seq<u8>, Seq<u8>)) -> Seq<u8> {
    entry.0 + seq![58u8] + entry.1 + seq![13u8, 10u8]
}

/// The lines of all trailers, in order.
pub open spec fn encode_entries(entries: Seq<(Seq<u8>, Seq<u8>)>) -> Seq<u8>
    decreases entries.len(),
{
    if entries.len() == 0 {
        seq![]
    } else {
        encode_entries(entries.drop_last()) + encode_entry(entries.last())
    }
}

/// No trailers make an empty block, and one trailer makes one line: its
/// name, a colon, its value byte for byte, CR LF. With the concatenation law
/// below this fixes the block of any trailers.
pub proof fn law_trailer_line(name: Seq<u8>, value: Seq<u8>)
    ensures
        encode_entries(Seq::<(Seq<u8>, Seq<u8>)>::empty()) == Seq::<u8>::empty(),
        encode_entries(seq![(name, value)]) == name + seq![58u8] + value + seq![13u8, 10u8],
{
    let one = seq![(name, value)];
    assert(one.drop_last() =~= Seq::<(Seq<u8>, Seq<u8>)>::empty());
    assert(encode_entries(one.drop_last()) == Seq::<u8>::empty());
    assert(one.last() == (name, value));
    assert(encode_entries(one) == encode_entries(one.drop_last()) + encode_entry(one.last()));
    assert(encode_entries(one) =~= name + seq![58u8] + value + seq![13u8, 10u8]);
}

/// The trailer block of a concatenation is the concatenation of the blocks.
pub proof fn lemma_encode_entries_append(
    a: Seq<(Seq<u8>, Seq<u8>)>,
    b: Seq<(Seq<u8>, Seq<u8>)>,
)
    ensures
        encode_entries(a + b) == encode_entries(a) + encode_entries(b),
    decreases b.len(),
{
    if b.len() == 0 {
        assert(a + b =~= a);
        assert(encode_entries(a) + encode_entries(b) =~= encode_entries(a));
    } else {
        assert((a + b).drop_last() =~= a + b.drop_last());
        lemma_encode_entries_append(a, b.drop_last());
        assert(encode_entries(a + b) =~= encode_entries(a) + encode_entries(b));
    }
}

/// The trailer frame is flagged as trailers, and a reader that cuts the body
/// into frames gets back exactly the trailer block.
pub proof fn law_trailer_frame_carries_block(entries: Seq<(Seq<u8>, Seq<u8>)>)
    requires
        encode_entries(entries).len() <= u32::MAX,
    ensures
        spec_frame(GRPC_WEB_TRAILERS_BIT, encode_entries(entries))[0] == 0x80u8,
        split_frames(spec_frame(GRPC_WEB_TRAILERS_BIT, encode_entries(entries))) == (
            seq![encode_entries(entries)],
            Seq::<u8>::empty(),
        ),
{
    lemma_frame_roundtrip(GRPC_WEB_TRAILERS_BIT, encode_entries(entries));
}

/// Trailing headers of a response, to be sent as a gRPC-web trailer frame.
pub struct Trailers {
    inner: HeaderMap<HeaderValue>,
}

impl View for Trailers {
    type V = Seq<(Seq<u8>, Seq<u8>)>;

    /// The (name, value) pairs of the trailers, in the order they are written.
    closed spec fn view(&self) -> Seq<(Seq<u8>, Seq<u8>)> {
        header_entries(self.inner)
    }
}

impl Trailers {
    /// Wraps the trailing headers of a response.
    pub fn new(inner: HeaderMap<HeaderValue>) -> (t: Self)
        ensures
            t@ == header_entries(inner),
    {
        Trailers { inner }
    }

    /// The trailer block: one `name:value\r\n` line per value, in order.
    fn encode(self) -> (block: Vec<u8>)
        ensures
            block@ == encode_entries(self@),
    {
        let pairs = header_map_pairs(&self.inner);
        let ghost entries = pairs.deep_view();
        let mut acc: Vec<u8> = Vec::new();
        let mut i: usize = 0;
        assert(entries.take(0) =~= Seq::<(Seq<u8>, Seq<u8>)>::empty());
        while i < pairs.len()
            invariant
                entries == pairs.deep_view(),
                entries == self@,
                0 <= i <= pairs@.len(),
                acc@ == encode_entries(entries.take(i as int)),
            decreases pairs@.len() - i,
        {
            let (key, value) = &pairs[i];
            let ghost before = acc@;
            append_bytes(&mut acc, key.as_slice());
            acc.push(58u8);
            append_bytes(&mut acc, value.as_slice());
            acc.push(13u8);
            acc.push(10u8);
            proof {
                assert(entries[i as int] == (key@, value@));
                assert(entries.take(i + 1).drop_last() =~= entries.take(i as int));
                assert(acc@ =~= before + encode_entry(entries[i as int]));
            }
            i = i + 1;
        }
        assert(entries.take(pairs@.len() as int) =~= entries);
        acc
    }

    /// Puts a trailer block into a frame flagged as trailers.
    fn frame(block: Vec<u8>) -> (frame: Bytes)
        requires
            block@.len() <= u32::MAX,
            block@.len() + 5 <= isize::MAX,
        ensures
            bytes_contents(frame) == spec_frame(GRPC_WEB_TRAILERS_BIT, block@),
    {
        let len = block.len();
        let mut frame = bytes_mut_with_capacity(len + FRAME_HEADER_SIZE);
        bytes_mut_put_u8(&mut frame, GRPC_WEB_TRAILERS_BIT);
        bytes_mut_put_u32(&mut frame, len as u32);
        bytes_mut_put_slice(&mut frame, block.as_slice());
        assert(bytes_mut_contents(frame) =~= spec_frame(GRPC_WEB_TRAILERS_BIT, block@));
        bytes_mut_freeze(frame)
    }

    /// The gRPC-web trailer frame: the trailers bit as flag, the length of
    /// the trailer block as a big-endian `u32`, then the block. The block
    /// must fit the length prefix, and the frame must fit in memory.
    pub fn into_to_frame(self) -> (frame: Bytes)
        requires
            encode_entries(self@).len() <= u32::MAX,
            encode_entries(self@).len() + 5 <= isize::MAX,
        ensures
            bytes_contents(frame) == spec_frame(GRPC_WEB_TRAILERS_BIT, encode_entries(self@)),
    {
        let block = self.encode();
        Self::frame(block)
    }

    /// Like `into_to_frame`, but gives `None` where the trailer block would not
    /// fit the length prefix or the frame would not fit in memory (where
    /// `into_to_frame` may not be called).
    pub fn try_into_to_frame(self) -> (frame: Option<Bytes>)
        ensures
            match frame {
                Some(f) => encode_entries(self@).len() <= u32::MAX && encode_entries(self@).len()
                    + 5 <= isize::MAX && bytes_contents(f) == spec_frame(
                    GRPC_WEB_TRAILERS_BIT,
                    encode_entries(self@),
                ),
                None => encode_entries(self@).len() > u32::MAX || encode_entries(self@).len() + 5
                    > isize::MAX,
            },
    {
        let block = self.encode();
        if block.len() <= 0xffff_ffff && block.len() <= (isize::MAX as usize) - FRAME_HEADER_SIZE {
            Some(Self::frame(block))
        } else {
            None
        }
    }
}

} // verus!
