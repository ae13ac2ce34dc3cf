//! A gRPC-web to gRPC proxy core: the wire framing of gRPC messages and of
//! gRPC-web trailer blocks, the choice of protocol flavour from a request's
//! content type, and the header rewriting and routing decisions of the proxy.

pub mod buffers;
pub mod framing;
pub mod text;
pub mod headers;
pub mod trailers;
pub mod grpc_kind;
pub mod routing;
pub mod proxy;
pub mod greeter;
pub mod server;
