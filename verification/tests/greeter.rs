use grpcweb_proxy::greeter::MyGreeter;

#[test]
fn greets_by_name() {
    let reply = MyGreeter {}.hello_reply("Tonic");
    assert_eq!(reply.message, "Hello Tonic!");
    assert_eq!(reply.metadata, vec![("custom-header".to_string(), "custom-value".to_string())]);
    assert_eq!(MyGreeter {}.hello_reply("").message, "Hello !");
}

#[test]
fn server_stream_replies() {
    assert_eq!(MyGreeter {}.stream_replies(), vec!["first ok".to_string(), "second ok".to_string()]);
}

#[test]
fn bidirectional_replies() {
    let g = MyGreeter {};
    assert_eq!(g.bi_stream_reply("client request 1").as_deref(), Some("first ok"));
    assert_eq!(g.bi_stream_reply("client request 2").as_deref(), Some("second ok"));
    assert_eq!(g.bi_stream_reply("client request 3"), None);
}

#[test]
fn server_stream_ending_status() {
    let status = MyGreeter {}.stream_end_status();
    assert_eq!(status.code, 0);
    assert_eq!(status.message, "sss");
    assert_eq!(status.metadata_key, "x-reason");
    assert_eq!(status.metadata_value, "server-stream-error");
}
