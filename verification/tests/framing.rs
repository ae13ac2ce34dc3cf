use grpcweb_proxy::framing::{message_to_frame, parse_grpc_stream, GrpcFrameDecoder};

fn frame(flag: u8, payload: &[u8]) -> Vec<u8> {
    let mut out = vec![flag];
    out.extend_from_slice(&(payload.len() as u32).to_be_bytes());
    out.extend_from_slice(payload);
    out
}

#[test]
fn message_frame_has_flag_length_and_payload() {
    let framed = message_to_frame(&[1, 2, 3]);
    assert_eq!(&framed[..], &[0, 0, 0, 0, 3, 1, 2, 3][..]);
}

#[test]
fn empty_message_frame_is_header_only() {
    let framed = message_to_frame(&[]);
    assert_eq!(&framed[..], &[0, 0, 0, 0, 0][..]);
}

#[test]
fn message_frame_length_is_big_endian() {
    let payload = vec![7u8; 300];
    let framed = message_to_frame(&payload);
    assert_eq!(&framed[..5], &[0, 0, 0, 1, 44][..]);
    assert_eq!(framed.len(), 305);
}

#[test]
fn parse_two_frames_in_one_chunk() {
    let mut data = frame(0, b"abc");
    data.extend(frame(0, b"de"));
    let messages = parse_grpc_stream(&vec![data]);
    assert_eq!(messages, vec![b"abc".to_vec(), b"de".to_vec()]);
}

#[test]
fn parse_frame_split_across_chunks() {
    let data = frame(0, b"hello");
    let chunks = vec![data[..2].to_vec(), data[2..6].to_vec(), data[6..].to_vec()];
    let messages = parse_grpc_stream(&chunks);
    assert_eq!(messages, vec![b"hello".to_vec()]);
}

#[test]
fn parse_ignores_incomplete_tail() {
    let mut data = frame(0, b"x");
    data.extend_from_slice(&[0, 0, 0, 0, 9, 1, 2]);
    let messages = parse_grpc_stream(&vec![data]);
    assert_eq!(messages, vec![b"x".to_vec()]);
}

#[test]
fn parse_keeps_payload_of_trailer_flagged_frame() {
    let data = frame(0x80, b"grpc-status:0\r\n");
    let messages = parse_grpc_stream(&vec![data]);
    assert_eq!(messages, vec![b"grpc-status:0\r\n".to_vec()]);
}

#[test]
fn parse_empty_stream_gives_nothing() {
    let messages = parse_grpc_stream(&vec![]);
    assert!(messages.is_empty());
    let messages = parse_grpc_stream(&vec![vec![0, 0, 0]]);
    assert!(messages.is_empty());
}

#[test]
fn parse_empty_payload_frame() {
    let messages = parse_grpc_stream(&vec![vec![0, 0, 0, 0, 0]]);
    assert_eq!(messages, vec![Vec::<u8>::new()]);
}

#[test]
fn decoder_hands_out_frames_as_they_complete() {
    let data = frame(0, b"abcd");
    let mut decoder = GrpcFrameDecoder::new();
    assert!(decoder.push(&data[..3]).is_empty());
    assert!(decoder.push(&data[3..7]).is_empty());
    let out = decoder.push(&data[7..]);
    assert_eq!(out, vec![b"abcd".to_vec()]);
    assert!(decoder.push(&[]).is_empty());
}

#[test]
fn framed_messages_parse_back() {
    let payloads: Vec<Vec<u8>> = vec![b"one".to_vec(), vec![], vec![9u8; 70000]];
    let mut stream = Vec::new();
    for p in &payloads {
        stream.extend_from_slice(&message_to_frame(p));
    }
    assert_eq!(parse_grpc_stream(&vec![stream]), payloads);
}

#[test]
fn chunking_does_not_change_the_messages() {
    let mut stream = frame(0, b"first");
    stream.extend(frame(0, b""));
    stream.extend(frame(0, b"third message"));
    let whole = parse_grpc_stream(&vec![stream.clone()]);
    for cut in 0..=stream.len() {
        let chunks = vec![stream[..cut].to_vec(), stream[cut..].to_vec()];
        assert_eq!(parse_grpc_stream(&chunks), whole);
    }
    let bytewise: Vec<Vec<u8>> = stream.iter().map(|b| vec![*b]).collect();
    assert_eq!(parse_grpc_stream(&bytewise), whole);
}

#[test]
fn decoder_reports_pending_bytes() {
    let mut decoder = GrpcFrameDecoder::new();
    assert_eq!(decoder.pending_len(), 0);
    assert!(decoder.push(&[0, 0, 0]).is_empty());
    assert_eq!(decoder.pending_len(), 3);
    let out = decoder.push(&[0, 1, 5, 0]);
    assert_eq!(out, vec![vec![5]]);
    assert_eq!(decoder.pending_len(), 1);
}
