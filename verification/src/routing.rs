//! What the proxy does with an incoming request before it reaches the backend:
//! the `host` header names the backend, `/metrics` is answered locally, and
//! every other path is forwarded to the same path on the backend.
use vstd::prelude::*;
use vstd::string::StringExecFns;
use vstd::string::StringSliceAdditionalSpecFns;
use http::{HeaderMap, HeaderValue};
use crate::grpc_kind::ForwardError;
use crate::headers::{
    grew_by_at_most_one, header_entries, header_map_try_insert, header_name_count,
    header_value_from_str, header_values, HEADER_CAPACITY_BOUND,
    is_header_value_byte, same_except,
};
use crate::text::{ascii_bytes, str_eq};

verus! {

/// Name of the host header.
pub open spec fn host_name() -> Seq<u8> {
    ascii_bytes("host"@)
}

/// Every byte of `s` may stand in a header value.
pub open spec fn is_header_value_text(s: &str) -> bool {
    forall|i: int| 0 <= i < s.spec_bytes().len() ==> is_header_value_byte(#[trigger] s.spec_bytes()[i])
}

/// An authority is refused for the `host` header exactly when one of its
/// bytes is a control byte other than tab (below 32) or DEL (127).
pub proof fn law_host_refused_only_for_control_bytes(s: &str)
    ensures
        is_header_value_text(s) <==> (forall|i: int|
            0 <= i < s.spec_bytes().len() ==> ((#[trigger] s.spec_bytes()[i] >= 32
                && s.spec_bytes()[i] != 127) || s.spec_bytes()[i] == 9)),
{
}

/// Where a request goes.
#[derive(Debug)]
pub enum Route {
    /// The proxy's own metrics page.
    Metrics,
    /// The backend, at this URL.
    Upstream(String),
}

/// Whether a request path is the metrics page.
pub fn is_metrics_path(path: &str) -> (metrics: bool)
    ensures
        metrics == (path@ == "/metrics"@),
{
    str_eq(path, "/metrics")
}

/// The backend URL of a request path: `http://`, the authority, the path.
pub fn forward_url(authority: &str, path: &str) -> (url: String)
    ensures
        url@ == "http://"@ + authority@ + path@,
{
    let mut url = String::from_str("http://");
    url.append(authority);
    url.append(path);
    url
}

/// Points the request at the backend and decides its route: the `host`
/// header becomes the backend authority (an error, with the headers left as
/// they were, when the authority cannot be a header value, or when the map
/// cannot grow to take it); then `/metrics` is answered locally and any other
/// path goes to the backend URL of that path. Every other header is kept.
pub fn route_request(
    headers: &mut HeaderMap<HeaderValue>,
    authority: &str,
    path: &str,
) -> (route: Result<Route, ForwardError>)
    ensures
        match route {
            Err(ForwardError::InvalidHost) => !is_header_value_text(authority) && *final(headers)
                == *old(headers),
            Err(ForwardError::HeaderMapFull) => is_header_value_text(authority) && header_entries(
                *final(headers),
            ) == header_entries(*old(headers)) && header_name_count(header_entries(*old(headers)))
                >= HEADER_CAPACITY_BOUND,
            Err(_) => false,
            Ok(r) => {
                &&& is_header_value_text(authority)
                &&& header_values(header_entries(*final(headers)), host_name()) == seq![
                    authority.spec_bytes(),
                ]
                &&& same_except(
                    header_entries(*old(headers)),
                    header_entries(*final(headers)),
                    host_name(),
                )
                &&& grew_by_at_most_one(header_entries(*old(headers)), header_entries(*final(headers)))
                &&& match r {
                    Route::Metrics => path@ == "/metrics"@,
                    Route::Upstream(url) => path@ != "/metrics"@ && url@ == "http://"@
                        + authority@ + path@,
                }
            },
        },
{
    proof {
        reveal_strlit("host");
    }
    let value = match header_value_from_str(authority) {
        Err(_) => {
            return Err(ForwardError::InvalidHost);
        },
        Ok(v) => v,
    };
    match header_map_try_insert(headers, "host", value) {
        Err(_) => {
            return Err(ForwardError::HeaderMapFull);
        },
        Ok(()) => {},
    }
    if is_metrics_path(path) {
        Ok(Route::Metrics)
    } else {
        Ok(Route::Upstream(forward_url(authority, path)))
    }
}

} // verus!
