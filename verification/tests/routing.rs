use grpcweb_proxy::grpc_kind::ForwardError;
use grpcweb_proxy::routing::{forward_url, is_metrics_path, route_request, Route};
use http::{HeaderMap, HeaderValue};

#[test]
fn metrics_path_is_exact() {
    assert!(is_metrics_path("/metrics"));
    assert!(!is_metrics_path("/metrics/"));
    assert!(!is_metrics_path("/Metrics"));
    assert!(!is_metrics_path(""));
}

#[test]
fn forward_url_joins_authority_and_path() {
    assert_eq!(forward_url("127.0.0.1:3000", "/helloworld.Greeter/SayHello"),
        "http://127.0.0.1:3000/helloworld.Greeter/SayHello");
    assert_eq!(forward_url("backend", ""), "http://backend");
}

#[test]
fn route_to_upstream_sets_host() {
    let mut headers = HeaderMap::new();
    headers.insert("host", HeaderValue::from_static("proxy:8080"));
    headers.insert("x-keep", HeaderValue::from_static("1"));
    let route = route_request(&mut headers, "127.0.0.1:3000", "/svc/Method").unwrap();
    match route {
        Route::Upstream(url) => assert_eq!(url, "http://127.0.0.1:3000/svc/Method"),
        Route::Metrics => panic!("expected upstream"),
    }
    assert_eq!(headers.get("host").unwrap(), "127.0.0.1:3000");
    assert_eq!(headers.get("x-keep").unwrap(), "1");
    assert_eq!(headers.len(), 2);
}

#[test]
fn route_metrics() {
    let mut headers = HeaderMap::new();
    let route = route_request(&mut headers, "backend:1", "/metrics").unwrap();
    assert!(matches!(route, Route::Metrics));
    assert_eq!(headers.get("host").unwrap(), "backend:1");
}

#[test]
fn route_with_invalid_host_is_refused() {
    let mut headers = HeaderMap::new();
    headers.insert("x-keep", HeaderValue::from_static("1"));
    let route = route_request(&mut headers, "bad\nhost", "/metrics");
    assert!(matches!(route, Err(ForwardError::InvalidHost)));
    assert!(headers.get("host").is_none());
    assert_eq!(headers.len(), 1);
}

#[test]
fn route_with_many_names_still_sets_host() {
    let mut headers = HeaderMap::new();
    for i in 0..6553 {
        let name = http::header::HeaderName::from_bytes(format!("x-h{}", i).as_bytes()).unwrap();
        headers.insert(name, HeaderValue::from_static("v"));
    }
    let route = route_request(&mut headers, "backend:1", "/a").unwrap();
    assert!(matches!(route, Route::Upstream(ref u) if u == "http://backend:1/a"));
    assert_eq!(headers.get("host").unwrap(), "backend:1");
    assert_eq!(headers.keys_len(), 6554);
}
