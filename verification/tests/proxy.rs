use grpcweb_proxy::proxy::{host_port, Args, GrpcWebProxy};

#[test]
fn proxy_addresses_from_default_args() {
    let args = Args {
        proxy_host: "127.0.0.1".to_string(),
        proxy_port: 8080,
        forward_host: "127.0.0.1".to_string(),
        forward_port: 3000,
    };
    let proxy = GrpcWebProxy::from_args(&args);
    assert_eq!(proxy.proxy_address, "127.0.0.1:8080");
    assert_eq!(proxy.forward_base_url, "http://127.0.0.1:3000");
}

#[test]
fn port_numerals() {
    assert_eq!(host_port("h", 0), "h:0");
    assert_eq!(host_port("h", 9), "h:9");
    assert_eq!(host_port("h", 10), "h:10");
    assert_eq!(host_port("h", 65535), "h:65535");
    for port in [1u16, 80, 100, 443, 1000, 50051] {
        assert_eq!(host_port("example", port), format!("example:{}", port));
    }
}

#[test]
fn empty_hosts() {
    let args = Args {
        proxy_host: String::new(),
        proxy_port: 1,
        forward_host: String::new(),
        forward_port: 2,
    };
    let proxy = GrpcWebProxy::from_args(&args);
    assert_eq!(proxy.proxy_address, ":1");
    assert_eq!(proxy.forward_base_url, "http://:2");
}
