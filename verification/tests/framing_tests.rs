use witty_jsonrpc::framing::FrameBuffer;

#[test]
fn frames_come_out_in_arrival_order() {
    let mut buffer = FrameBuffer::new();
    buffer.push_chunk(b"alpha\nbeta\ngamma");
    assert_eq!(buffer.take_frame(), Some(b"alpha".to_vec()));
    assert_eq!(buffer.take_frame(), Some(b"beta".to_vec()));
    assert_eq!(buffer.take_frame(), None);
    buffer.push_chunk(b"\n");
    assert_eq!(buffer.take_frame(), Some(b"gamma".to_vec()));
    assert_eq!(buffer.take_frame(), None);
}

#[test]
fn frame_split_across_chunks() {
    let mut buffer = FrameBuffer::new();
    buffer.push_chunk(b"{\"jsonrpc\":\"2.0\",\"method\"");
    assert_eq!(buffer.take_frame(), None);
    buffer.push_chunk(b":\"echo\",\"id\":1}\n");
    assert_eq!(
        buffer.take_frame(),
        Some(b"{\"jsonrpc\":\"2.0\",\"method\":\"echo\",\"id\":1}".to_vec())
    );
}

#[test]
fn no_delimiter_no_frame() {
    let mut buffer = FrameBuffer::new();
    buffer.push_chunk(b"incomplete request without newline");
    assert_eq!(buffer.take_frame(), None);
    assert_eq!(buffer.take_frame(), None);
}

#[test]
fn empty_frame_from_lone_delimiter() {
    let mut buffer = FrameBuffer::new();
    buffer.push_chunk(b"\n\n");
    assert_eq!(buffer.take_frame(), Some(Vec::new()));
    assert_eq!(buffer.take_frame(), Some(Vec::new()));
    assert_eq!(buffer.take_frame(), None);
}

#[test]
fn empty_buffer_has_no_frame() {
    let mut buffer = FrameBuffer::new();
    assert_eq!(buffer.take_frame(), None);
}

#[test]
fn encode_frame_round_trips_through_the_buffer() {
    let sealed = witty_jsonrpc::framing::encode_frame(b"{\"jsonrpc\":\"2.0\",\"result\":\"x\",\"id\":1}");
    assert_eq!(sealed.last(), Some(&10u8));
    let mut buffer = FrameBuffer::new();
    buffer.push_chunk(&sealed);
    assert_eq!(
        buffer.take_frame(),
        Some(b"{\"jsonrpc\":\"2.0\",\"result\":\"x\",\"id\":1}".to_vec())
    );
    assert_eq!(buffer.take_frame(), None);
}
