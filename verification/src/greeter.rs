//! The replies of the greeter service that the proxy is exercised against.
use vstd::prelude::*;
use vstd::string::StringExecFns;
use crate::text::str_eq;

verus! {

/// A greeter service: it greets by name, streams two replies and then a
/// status carrying trailing metadata, and answers two known requests of a
/// bidirectional stream.
pub struct MyGreeter {}

/// The gRPC status code `Ok`.
pub const GRPC_STATUS_OK: u32 = 0;

/// The reply to a greeting: its message, and the metadata sent with it.
pub struct GreetingReply {
    pub message: String,
    pub metadata: Vec<(String, String)>,
}

/// The status that ends the server stream: its gRPC status code, a message,
/// and one metadata pair that says why.
pub struct StreamStatus {
    pub code: u32,
    pub message: String,
    pub metadata_key: String,
    pub metadata_value: String,
}

impl MyGreeter {
    /// The reply to a greeting request: the message `Hello <name>!`, sent
    /// with exactly one metadata pair, `custom-header: custom-value`. Nothing
    /// of the request's own metadata is sent back.
    pub fn hello_reply(&self, name: &str) -> (reply: GreetingReply)
        ensures
            reply.message@ == "Hello "@ + name@ + "!"@,
            reply.metadata.deep_view() == seq![("custom-header"@, "custom-value"@)],
    {
        let mut message = String::from_str("Hello ");
        message.append(name);
        message.append("!");
        let mut metadata: Vec<(String, String)> = Vec::new();
        metadata.push((String::from_str("custom-header"), String::from_str("custom-value")));
        assert(metadata.deep_view() =~= seq![("custom-header"@, "custom-value"@)]);
        GreetingReply { message, metadata }
    }

    /// The messages of the server stream, in order, before the ending status.
    pub fn stream_replies(&self) -> (messages: Vec<String>)
        ensures
            messages.deep_view() == seq!["first ok"@, "second ok"@],
    {
        let mut messages: Vec<String> = Vec::new();
        messages.push(String::from_str("first ok"));
        messages.push(String::from_str("second ok"));
        assert(messages.deep_view() =~= seq!["first ok"@, "second ok"@]);
        messages
    }

    /// The status sent after the replies of the server stream: code `Ok`,
    /// message `sss`, with `x-reason: server-stream-error` as metadata.
    pub fn stream_end_status(&self) -> (status: StreamStatus)
        ensures
            status.code == GRPC_STATUS_OK,
            status.message@ == "sss"@,
            status.metadata_key@ == "x-reason"@,
            status.metadata_value@ == "server-stream-error"@,
    {
        StreamStatus {
            code: GRPC_STATUS_OK,
            message: String::from_str("sss"),
            metadata_key: String::from_str("x-reason"),
            metadata_value: String::from_str("server-stream-error"),
        }
    }

    /// The reply to one request of the bidirectional stream: `client request 1`
    /// is answered `first ok`, `client request 2` is answered `second ok`,
    /// and any other request gets no reply.
    pub fn bi_stream_reply(&self, name: &str) -> (reply: Option<String>)
        ensures
            name@ == "client request 1"@ ==> (reply matches Some(m) && m@ == "first ok"@),
            name@ == "client request 2"@ ==> (reply matches Some(m) && m@ == "second ok"@),
            name@ != "client request 1"@ && name@ != "client request 2"@ ==> reply is None,
    {
        proof {
            reveal_strlit("client request 1");
            reveal_strlit("client request 2");
            assert("client request 1"@[15] != "client request 2"@[15]);
        }
        if str_eq(name, "client request 1") {
            Some(String::from_str("first ok"))
        } else if str_eq(name, "client request 2") {
            Some(String::from_str("second ok"))
        } else {
            None
        }
    }
}

} // verus!
