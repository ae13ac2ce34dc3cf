# grpcweb_proxy

The verified core of a gRPC-web to gRPC proxy.

- `src/framing.rs`: gRPC length-prefixed frames; writing a message frame, and
  cutting a byte stream (in whatever chunks it arrives) back into payloads.
- `src/trailers.rs`: the gRPC-web trailer block and its trailer frame.
- `src/grpc_kind.rs`: choosing plain gRPC or gRPC-web from the content type,
  and rewriting request and response headers and body frames for gRPC-web.
- `src/routing.rs`: the `host` header, the metrics page, the backend URL.
- `src/server.rs`: the decisions of the accept loop.
- `src/proxy.rs`: command-line settings and the addresses derived from them.
- `src/greeter.rs`: the replies of the test greeter service.
- `src/buffers.rs`, `src/headers.rs`: the calls into `bytes` and `http`, with
  the contracts the rest is proved against.
- `app/`: the network side (hyper, tokio, tower, prometheus, clap), which runs
  the loops and hands the library plain values.
