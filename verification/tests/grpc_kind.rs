use bytes::Bytes;
use grpcweb_proxy::grpc_kind::{BodyFrame, ForwardError, GrpcKind, GrpcKindWeb};
use http::{HeaderMap, HeaderValue};

#[test]
fn plain_grpc_content_type() {
    assert!(matches!(GrpcKind::from_content_type(&HeaderValue::from_static("application/grpc")), Some(GrpcKind::Plain(_))));
}

#[test]
fn grpc_web_content_types() {
    assert!(matches!(GrpcKind::from_content_type(&HeaderValue::from_static("application/grpc-web")), Some(GrpcKind::Web(_))));
    assert!(matches!(
        GrpcKind::from_content_type(&HeaderValue::from_static("application/grpc-web+proto")),
        Some(GrpcKind::Web(_))
    ));
}

#[test]
fn other_content_types_are_refused() {
    assert!(GrpcKind::from_content_type(&HeaderValue::from_static("application/json")).is_none());
    assert!(GrpcKind::from_content_type(&HeaderValue::from_static("application/grpc+proto")).is_none());
    assert!(GrpcKind::from_content_type(&HeaderValue::from_static("application/grpc-web-text")).is_none());
    assert!(GrpcKind::from_content_type(&HeaderValue::from_static("Application/grpc")).is_none());
    assert!(GrpcKind::from_content_type(&HeaderValue::from_static("")).is_none());
}

#[test]
fn headers_without_content_type() {
    let headers = HeaderMap::new();
    assert!(matches!(GrpcKind::from_headers(&headers), Err(ForwardError::MissingContentType)));
}

#[test]
fn headers_with_unsupported_content_type() {
    let mut headers = HeaderMap::new();
    headers.insert("content-type", HeaderValue::from_static("text/plain"));
    assert!(matches!(GrpcKind::from_headers(&headers), Err(ForwardError::UnsupportedContentType)));
}

#[test]
fn headers_select_the_first_content_type() {
    let mut headers = HeaderMap::new();
    headers.append("content-type", HeaderValue::from_static("application/grpc-web"));
    headers.append("content-type", HeaderValue::from_static("application/grpc"));
    assert!(matches!(GrpcKind::from_headers(&headers), Ok(GrpcKind::Web(_))));
}

#[test]
fn web_request_is_rewritten_to_grpc() {
    let mut headers = HeaderMap::new();
    headers.insert("content-type", HeaderValue::from_static("application/grpc-web+proto"));
    headers.insert("content-length", HeaderValue::from_static("42"));
    headers.insert("x-user", HeaderValue::from_static("alice"));
    GrpcKindWeb.modify_request(&mut headers).unwrap();
    assert_eq!(headers.get("content-type").unwrap(), "application/grpc");
    assert!(headers.get("content-length").is_none());
    assert_eq!(headers.get("x-user").unwrap(), "alice");
    assert_eq!(headers.len(), 2);
    assert!(matches!(GrpcKind::from_headers(&headers), Ok(GrpcKind::Plain(_))));
}

#[test]
fn web_response_content_type() {
    let mut headers = HeaderMap::new();
    headers.insert("content-type", HeaderValue::from_static("application/grpc"));
    headers.insert("grpc-encoding", HeaderValue::from_static("identity"));
    GrpcKindWeb.modify_response(&mut headers).unwrap();
    assert_eq!(headers.get("content-type").unwrap(), "application/grpc-web+proto");
    assert_eq!(headers.get("grpc-encoding").unwrap(), "identity");
    assert!(matches!(GrpcKind::from_headers(&headers), Ok(GrpcKind::Web(_))));
}

#[test]
fn response_without_content_type_gets_one() {
    let mut headers = HeaderMap::new();
    GrpcKindWeb.modify_response(&mut headers).unwrap();
    assert_eq!(headers.get("content-type").unwrap(), "application/grpc-web+proto");
    assert_eq!(headers.len(), 1);
}

#[test]
fn data_frames_pass_through() {
    let data = Bytes::from_static(b"\x00\x00\x00\x00\x01z");
    let out = GrpcKindWeb.modify_frame(BodyFrame::Data(data.clone())).unwrap();
    assert_eq!(out, data);
}

#[test]
fn trailer_frames_become_data() {
    let mut trailers = HeaderMap::new();
    trailers.insert("grpc-status", HeaderValue::from_static("0"));
    let out = GrpcKindWeb.modify_frame(BodyFrame::Trailers(trailers)).unwrap();
    assert_eq!(&out[..], &b"\x80\x00\x00\x00\x0fgrpc-status:0\r\n"[..]);
}

#[test]
fn prepare_plain_request_keeps_headers() {
    let mut headers = HeaderMap::new();
    headers.insert("content-type", HeaderValue::from_static("application/grpc"));
    headers.insert("content-length", HeaderValue::from_static("7"));
    let kind = GrpcKind::from_headers(&headers).unwrap();
    kind.prepare_request(&mut headers).unwrap();
    assert_eq!(headers.get("content-length").unwrap(), "7");
    assert_eq!(headers.get("content-type").unwrap(), "application/grpc");
}

#[test]
fn prepare_web_request_and_response() {
    let mut headers = HeaderMap::new();
    headers.insert("content-type", HeaderValue::from_static("application/grpc-web"));
    headers.insert("content-length", HeaderValue::from_static("7"));
    let kind = GrpcKind::from_headers(&headers).unwrap();
    kind.prepare_request(&mut headers).unwrap();
    assert!(headers.get("content-length").is_none());
    assert_eq!(headers.get("content-type").unwrap(), "application/grpc");
    let mut response = HeaderMap::new();
    response.insert("content-type", HeaderValue::from_static("application/grpc"));
    GrpcKindWeb.modify_response(&mut response).unwrap();
    assert_eq!(response.get("content-type").unwrap(), "application/grpc-web+proto");
}

#[test]
fn prepare_web_request_with_many_names() {
    let mut headers = HeaderMap::new();
    for i in 0..6553 {
        let name = http::header::HeaderName::from_bytes(format!("x-h{}", i).as_bytes()).unwrap();
        headers.insert(name, HeaderValue::from_static("v"));
    }
    headers.insert("content-length", HeaderValue::from_static("1"));
    GrpcKind::Web(GrpcKindWeb).prepare_request(&mut headers).unwrap();
    assert!(headers.get("content-length").is_none());
    assert_eq!(headers.get("content-type").unwrap(), "application/grpc");
    assert_eq!(headers.keys_len(), 6554);
}

#[test]
fn content_type_with_opaque_bytes_is_refused() {
    let v = HeaderValue::from_bytes(b"application/grpc\xfa").unwrap();
    assert!(GrpcKind::from_content_type(&v).is_none());
}

#[test]
fn rewriting_a_web_request_twice_changes_nothing_more() {
    let mut headers = HeaderMap::new();
    headers.insert("content-type", HeaderValue::from_static("application/grpc-web"));
    headers.insert("content-length", HeaderValue::from_static("9"));
    headers.append("x-multi", HeaderValue::from_static("a"));
    headers.append("x-multi", HeaderValue::from_static("b"));
    GrpcKindWeb.modify_request(&mut headers).unwrap();
    let once = headers.clone();
    GrpcKindWeb.modify_request(&mut headers).unwrap();
    assert_eq!(headers, once);
    assert_eq!(headers.get_all("x-multi").iter().collect::<Vec<_>>(), vec!["a", "b"]);
}

#[test]
fn many_values_under_few_names_are_rewritten() {
    let mut headers = HeaderMap::new();
    headers.insert("content-type", HeaderValue::from_static("application/grpc-web"));
    for _ in 0..7000 {
        headers.append("x-many", HeaderValue::from_static("v"));
    }
    GrpcKind::Web(GrpcKindWeb).prepare_request(&mut headers).unwrap();
    assert_eq!(headers.get("content-type").unwrap(), "application/grpc");
    assert_eq!(headers.len(), 7001);
}
