//! The two protocol flavours that the proxy accepts, chosen by the request's
//! content type: plain gRPC is forwarded as it is, gRPC-web is rewritten into
//! gRPC on the way in and back into gRPC-web on the way out.
use vstd::prelude::*;
use bytes::Bytes;
use http::{HeaderMap, HeaderValue};
use crate::buffers::bytes_contents;
use crate::framing::{spec_frame, GRPC_WEB_TRAILERS_BIT};
use crate::headers::{
    grew_by_at_most_one, header_entries, header_map_get, header_map_remove, header_map_try_insert,
    header_name_count, header_value_as_bytes, header_value_bytes, header_value_from_static,
    header_values, is_static_header_name, is_static_header_value, same_except,
    HEADER_CAPACITY_BOUND,
};
use crate::text::{ascii_bytes, ascii_str_bytes, bytes_eq};
use crate::trailers::{encode_entries, Trailers};

verus! {

/// Name of the content type header.
pub open spec fn content_type_name() -> Seq<u8> {
    ascii_bytes("content-type"@)
}

/// Name of the content length header.
pub open spec fn content_length_name() -> Seq<u8> {
    ascii_bytes("content-length"@)
}

/// Content type of plain gRPC.
pub open spec fn grpc_content_type() -> Seq<u8> {
    ascii_bytes("application/grpc"@)
}

/// Content type of gRPC-web.
pub open spec fn grpc_web_content_type() -> Seq<u8> {
    ascii_bytes("application/grpc-web"@)
}

/// Content type of gRPC-web with protobuf messages.
pub open spec fn grpc_web_proto_content_type() -> Seq<u8> {
    ascii_bytes("application/grpc-web+proto"@)
}

/// gRPC-web: requests and responses are rewritten between gRPC-web and gRPC.
#[derive(Debug)]
pub struct GrpcKindWeb;

/// Plain gRPC: requests pass through unchanged, and so do response bodies.
#[derive(Debug)]
pub struct GrpcKindPlain;

/// The protocol flavour of a request.
#[derive(Debug)]
pub enum GrpcKind {
    Web(GrpcKindWeb),
    Plain(GrpcKindPlain),
}

/// Why a request cannot be forwarded.
#[derive(Debug)]
pub enum ForwardError {
    /// The request has no content type.
    MissingContentType,
    /// The content type is neither gRPC nor gRPC-web.
    UnsupportedContentType,
    /// The upstream authority cannot stand in a `host` header.
    InvalidHost,
    /// The request's header map cannot grow to take the `host` header.
    HeaderMapFull,
}

/// A header map could not grow to take a rewritten header.
#[derive(Debug)]
pub struct HeaderMapFull;

/// The outcome of a rewrite of `before` into `after`: on success `rewritten`
/// holds and the map grew by at most one value and one name; on failure the
/// map could not grow, and its entries are those of `before`.
pub open spec fn rewrite_outcome(
    r: Result<(), HeaderMapFull>,
    before: Seq<(Seq<u8>, Seq<u8>)>,
    after: Seq<(Seq<u8>, Seq<u8>)>,
    rewritten: bool,
) -> bool {
    match r {
        Ok(()) => rewritten && grew_by_at_most_one(before, after),
        Err(_) => after == before && header_name_count(before) >= HEADER_CAPACITY_BOUND,
    }
}

/// One frame of a response body: data, or the trailing headers.
#[derive(Debug)]
pub enum BodyFrame {
    Data(Bytes),
    Trailers(HeaderMap<HeaderValue>),
}

/// The flavour that a content type selects, if any.
pub open spec fn spec_from_content_type(content_type: Seq<u8>) -> Option<GrpcKind> {
    if content_type == grpc_content_type() {
        Some(GrpcKind::Plain(GrpcKindPlain))
    } else if content_type == grpc_web_content_type() || content_type
        == grpc_web_proto_content_type() {
        Some(GrpcKind::Web(GrpcKindWeb))
    } else {
        None
    }
}

/// The flavour of a request with these headers, taken from its first content
/// type value, or why there is none.
pub open spec fn spec_kind_of_headers(entries: Seq<(Seq<u8>, Seq<u8>)>) -> Result<
    GrpcKind,
    ForwardError,
> {
    let types = header_values(entries, content_type_name());
    if types.len() == 0 {
        Err(ForwardError::MissingContentType)
    } else {
        match spec_from_content_type(types[0]) {
            Some(kind) => Ok(kind),
            None => Err(ForwardError::UnsupportedContentType),
        }
    }
}

/// `after` is `before` rewritten from a gRPC-web request into a gRPC one: the
/// content type is plain gRPC, the content length is gone, and every other
/// header is kept.
pub open spec fn web_request_rewritten(
    before: Seq<(Seq<u8>, Seq<u8>)>,
    after: Seq<(Seq<u8>, Seq<u8>)>,
) -> bool {
    &&& header_values(after, content_type_name()) == seq![grpc_content_type()]
    &&& header_values(after, content_length_name()).len() == 0
    &&& forall|k: Seq<u8>|
        k != content_type_name() && k != content_length_name() ==> #[trigger] header_values(
            after,
            k,
        ) == header_values(before, k)
}

/// `after` is `before` rewritten from a gRPC response into a gRPC-web one: the
/// content type is gRPC-web with protobuf messages, and every other header is
/// kept.
pub open spec fn web_response_rewritten(
    before: Seq<(Seq<u8>, Seq<u8>)>,
    after: Seq<(Seq<u8>, Seq<u8>)>,
) -> bool {
    &&& header_values(after, content_type_name()) == seq![grpc_web_proto_content_type()]
    &&& same_except(before, after, content_type_name())
}

proof fn lemma_header_literals()
    ensures
        is_static_header_name("content-type"@),
        is_static_header_name("content-length"@),
        is_static_header_value("application/grpc"@),
        is_static_header_value("application/grpc-web+proto"@),
        content_type_name() != content_length_name(),
        grpc_content_type() != grpc_web_content_type(),
        grpc_content_type() != grpc_web_proto_content_type(),
        "application/grpc".is_ascii(),
        "application/grpc-web".is_ascii(),
        "application/grpc-web+proto".is_ascii(),
{
    reveal_strlit("content-type");
    reveal_strlit("content-length");
    reveal_strlit("application/grpc");
    reveal_strlit("application/grpc-web");
    reveal_strlit("application/grpc-web+proto");
    assert(content_type_name().len() != content_length_name().len());
    assert(grpc_content_type().len() != grpc_web_content_type().len());
    assert(grpc_content_type().len() != grpc_web_proto_content_type().len());
}

impl GrpcKind {
    /// The flavour selected by a content type value: exactly
    /// `application/grpc` is plain gRPC; exactly `application/grpc-web` or
    /// `application/grpc-web+proto` is gRPC-web; anything else is refused.
    pub fn from_content_type(content_type: &HeaderValue) -> (kind: Option<GrpcKind>)
        ensures
            kind == spec_from_content_type(header_value_bytes(*content_type)),
    {
        proof {
            lemma_header_literals();
        }
        let content_type = header_value_as_bytes(content_type);
        if bytes_eq(content_type, ascii_str_bytes("application/grpc")) {
            Some(GrpcKind::Plain(GrpcKindPlain))
        } else if bytes_eq(content_type, ascii_str_bytes("application/grpc-web")) || bytes_eq(
            content_type,
            ascii_str_bytes("application/grpc-web+proto"),
        ) {
            Some(GrpcKind::Web(GrpcKindWeb))
        } else {
            None
        }
    }

    /// The flavour of a request with these headers, from its (first) content
    /// type: an error when it has none, or one that selects no flavour.
    pub fn from_headers(headers: &HeaderMap<HeaderValue>) -> (kind: Result<GrpcKind, ForwardError>)
        ensures
            kind == spec_kind_of_headers(header_entries(*headers)),
    {
        proof {
            lemma_header_literals();
        }
        match header_map_get(headers, "content-type") {
            None => Err(ForwardError::MissingContentType),
            Some(content_type) => match GrpcKind::from_content_type(content_type) {
                Some(kind) => Ok(kind),
                None => Err(ForwardError::UnsupportedContentType),
            },
        }
    }
}

impl GrpcKind {
    /// Prepares the headers of a request of this flavour for the backend: a
    /// gRPC-web request is rewritten into a gRPC one (`GrpcKindWeb::modify_request`),
    /// a gRPC request is left as it is.
    pub fn prepare_request(&self, headers: &mut HeaderMap<HeaderValue>) -> (r: Result<
        (),
        HeaderMapFull,
    >)
        ensures
            match self {
                GrpcKind::Plain(_) => r is Ok && *final(headers) == *old(headers),
                GrpcKind::Web(_) => rewrite_outcome(
                    r,
                    header_entries(*old(headers)),
                    header_entries(*final(headers)),
                    web_request_rewritten(
                        header_entries(*old(headers)),
                        header_entries(*final(headers)),
                    ),
                ),
            },
    {
        match self {
            GrpcKind::Plain(_) => Ok(()),
            GrpcKind::Web(web) => web.modify_request(headers),
        }
    }
}

impl GrpcKindWeb {
    /// Turns the headers of a gRPC-web request into those of a gRPC request:
    /// sets the content type to `application/grpc` and drops the content
    /// length; every other header is kept. It fails, leaving the entries as
    /// they were, only where the map cannot grow to take the content type.
    pub fn modify_request(&self, headers: &mut HeaderMap<HeaderValue>) -> (r: Result<
        (),
        HeaderMapFull,
    >)
        ensures
            rewrite_outcome(
                r,
                header_entries(*old(headers)),
                header_entries(*final(headers)),
                web_request_rewritten(header_entries(*old(headers)), header_entries(*final(headers))),
            ),
    {
        proof {
            lemma_header_literals();
        }
        let ghost before = header_entries(*headers);
        let value = header_value_from_static("application/grpc");
        match header_map_try_insert(headers, "content-type", value) {
            Err(_) => {
                return Err(HeaderMapFull);
            },
            Ok(()) => {},
        }
        let ghost middle = header_entries(*headers);
        header_map_remove(headers, "content-length");
        let ghost after = header_entries(*headers);
        assert forall|k: Seq<u8>|
            k != content_type_name() && k != content_length_name() implies #[trigger] header_values(
            after,
            k,
        ) == header_values(before, k) by {
            assert(header_values(after, k) == header_values(middle, k));
            assert(header_values(middle, k) == header_values(before, k));
        }
        assert(header_values(after, content_type_name()) == header_values(middle, content_type_name()));
        Ok(())
    }

    /// Turns the headers of a gRPC response into those of a gRPC-web
    /// response: sets the content type to `application/grpc-web+proto`;
    /// every other header is kept. It fails, leaving the entries as they
    /// were, only where the map cannot grow to take the content type.
    pub fn modify_response(&self, headers: &mut HeaderMap<HeaderValue>) -> (r: Result<
        (),
        HeaderMapFull,
    >)
        ensures
            rewrite_outcome(
                r,
                header_entries(*old(headers)),
                header_entries(*final(headers)),
                web_response_rewritten(header_entries(*old(headers)), header_entries(*final(headers))),
            ),
    {
        proof {
            lemma_header_literals();
        }
        let value = header_value_from_static("application/grpc-web+proto");
        match header_map_try_insert(headers, "content-type", value) {
            Err(_) => Err(HeaderMapFull),
            Ok(()) => Ok(()),
        }
    }

    /// The gRPC-web body data for one frame of a gRPC response body: data
    /// passes unchanged; trailing headers become a trailer frame. `None` where
    /// the trailer block does not fit a frame.
    pub fn modify_frame(&self, frame: BodyFrame) -> (data: Option<Bytes>)
        ensures
            match frame {
                BodyFrame::Data(b) => data == Some(b),
                BodyFrame::Trailers(map) => {
                    let block = encode_entries(header_entries(map));
                    match data {
                        Some(d) => block.len() <= u32::MAX && block.len() + 5 <= isize::MAX
                            && bytes_contents(d) == spec_frame(GRPC_WEB_TRAILERS_BIT, block),
                        None => block.len() > u32::MAX || block.len() + 5 > isize::MAX,
                    }
                },
            },
    {
        match frame {
            BodyFrame::Data(b) => Some(b),
            BodyFrame::Trailers(map) => Trailers::new(map).try_into_to_frame(),
        }
    }
}

/// Exactly `application/grpc` selects plain gRPC; exactly
/// `application/grpc-web` or `application/grpc-web+proto` selects gRPC-web;
/// every other content type selects nothing.
pub proof fn law_content_type_choice(content_type: Seq<u8>)
    ensures
        spec_from_content_type(content_type) == Some(GrpcKind::Plain(GrpcKindPlain)) <==> content_type
            == ascii_bytes("application/grpc"@),
        spec_from_content_type(content_type) == Some(GrpcKind::Web(GrpcKindWeb)) <==> (content_type
            == ascii_bytes("application/grpc-web"@) || content_type == ascii_bytes(
            "application/grpc-web+proto"@,
        )),
        spec_from_content_type(content_type) is None <==> (content_type != ascii_bytes(
            "application/grpc"@,
        ) && content_type != ascii_bytes("application/grpc-web"@) && content_type != ascii_bytes(
            "application/grpc-web+proto"@,
        )),
{
    lemma_header_literals();
}

/// The rewrite of a gRPC-web request sets the content type to exactly
/// `application/grpc`, leaves no content length, and keeps the values under
/// every other name as they were.
pub proof fn law_web_request_rewrite_frame(
    before: Seq<(Seq<u8>, Seq<u8>)>,
    after: Seq<(Seq<u8>, Seq<u8>)>,
)
    requires
        web_request_rewritten(before, after),
    ensures
        header_values(after, ascii_bytes("content-type"@)) == seq![ascii_bytes("application/grpc"@)],
        header_values(after, ascii_bytes("content-length"@)).len() == 0,
        forall|k: Seq<u8>|
            k != ascii_bytes("content-type"@) && k != ascii_bytes("content-length"@)
                ==> #[trigger] header_values(after, k) == header_values(before, k),
{
}

/// The rewrite of a gRPC response sets the content type to exactly
/// `application/grpc-web+proto` and keeps the values under every other name.
pub proof fn law_web_response_rewrite_frame(
    before: Seq<(Seq<u8>, Seq<u8>)>,
    after: Seq<(Seq<u8>, Seq<u8>)>,
)
    requires
        web_response_rewritten(before, after),
    ensures
        header_values(after, ascii_bytes("content-type"@)) == seq![
            ascii_bytes("application/grpc-web+proto"@),
        ],
        forall|k: Seq<u8>|
            k != ascii_bytes("content-type"@) ==> #[trigger] header_values(after, k)
                == header_values(before, k),
{
}

/// A gRPC-web request, once rewritten, reaches the backend as plain gRPC.
pub proof fn law_web_request_is_forwarded_as_grpc(
    before: Seq<(Seq<u8>, Seq<u8>)>,
    after: Seq<(Seq<u8>, Seq<u8>)>,
)
    requires
        web_request_rewritten(before, after),
    ensures
        spec_kind_of_headers(after) == Ok::<GrpcKind, ForwardError>(GrpcKind::Plain(GrpcKindPlain)),
{
}

/// Rewriting a gRPC-web request a second time, whatever that call returns,
/// gives the headers of rewriting it once.
pub proof fn law_web_request_rewrite_is_idempotent(
    first: Seq<(Seq<u8>, Seq<u8>)>,
    once: Seq<(Seq<u8>, Seq<u8>)>,
    twice: Seq<(Seq<u8>, Seq<u8>)>,
    second: Result<(), HeaderMapFull>,
)
    requires
        web_request_rewritten(first, once),
        rewrite_outcome(second, once, twice, web_request_rewritten(once, twice)),
    ensures
        forall|k: Seq<u8>| #[trigger] header_values(twice, k) == header_values(once, k),
{
    assert forall|k: Seq<u8>| #[trigger] header_values(twice, k) == header_values(once, k) by {
        if k == content_type_name() {
        } else if k == content_length_name() {
            assert(header_values(twice, k) =~= header_values(once, k));
        } else {
        }
    }
}

/// A rewritten gRPC response carries a content type that selects gRPC-web.
pub proof fn law_web_response_is_grpc_web(
    before: Seq<(Seq<u8>, Seq<u8>)>,
    after: Seq<(Seq<u8>, Seq<u8>)>,
)
    requires
        web_response_rewritten(before, after),
    ensures
        spec_kind_of_headers(after) == Ok::<GrpcKind, ForwardError>(GrpcKind::Web(GrpcKindWeb)),
{
    lemma_header_literals();
}

} // verus!
