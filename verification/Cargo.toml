[package]
name = "grpcweb_proxy"
version = "0.1.0"
edition = "2021"
publish = false

[dependencies]
bytes = "1"
http = "1"
http-body = "1"
http-body-util = "0.1"
hyper = { version = "1", features = ["client", "server", "http1", "http2"] }
hyper-util = { version = "0.1", features = ["tokio", "server", "server-auto", "service", "http1", "http2"] }
tokio = { version = "1", features = ["full"] }
tower = { version = "0.5", features = ["util"] }
async-stream = "0.3"
futures-core = "0.3"
futures-util = "0.3"
prometheus = { version = "0.13", default-features = false }
clap = { version = "4", features = ["derive"] }
scopeguard = "1"
prost = "0.13"
