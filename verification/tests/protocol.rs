use toru_plugin_host::protocol::{FrameRead, PluginProtocol};
use toru_plugin_host::PluginError;

#[test]
fn frame_is_big_endian_length_then_payload() {
    let codec = PluginProtocol::new();
    let frame = codec.encode_frame(b"{\"a\":1}").unwrap();
    assert_eq!(frame[..4], [0u8, 0, 0, 7]);
    assert_eq!(&frame[4..], b"{\"a\":1}");
}

#[test]
fn length_prefix_uses_all_four_bytes() {
    let codec = PluginProtocol::new();
    let payload = vec![7u8; 0x0102_03];
    let frame = codec.encode_frame(&payload).unwrap();
    assert_eq!(frame[..4], [0u8, 1, 2, 3]);
    assert_eq!(frame.len(), 4 + 0x0102_03);
    assert_eq!(codec.frame_length(&[0, 1, 2, 3]), 0x0102_03);
    assert_eq!(codec.frame_length(&[0x12, 0x34, 0x56, 0x78]), 0x1234_5678);
}

#[test]
fn empty_payload_is_a_frame_of_four_zero_bytes() {
    let codec = PluginProtocol::new();
    let frame = codec.encode_frame(b"").unwrap();
    assert_eq!(frame, vec![0u8, 0, 0, 0]);
    assert_eq!(
        codec.decode_frame(&frame),
        FrameRead::Complete { payload: vec![], consumed: 4 }
    );
}

#[test]
fn decode_gives_back_what_was_encoded() {
    let codec = PluginProtocol::new();
    let payload = b"hello plugin".to_vec();
    let mut bytes = codec.encode_frame(&payload).unwrap();
    bytes.extend_from_slice(b"trailing");
    match codec.decode_frame(&bytes) {
        FrameRead::Complete { payload: got, consumed } => {
            assert_eq!(got, payload);
            assert_eq!(consumed, 4 + payload.len());
            assert_eq!(&bytes[consumed..], b"trailing");
        }
        FrameRead::Closed => panic!("a whole frame was there"),
    }
}

#[test]
fn encode_of_decoded_frame_gives_back_the_bytes() {
    let codec = PluginProtocol::new();
    let bytes: Vec<u8> = vec![0, 0, 0, 3, b'x', b'y', b'z'];
    match codec.decode_frame(&bytes) {
        FrameRead::Complete { payload, consumed } => {
            assert_eq!(consumed, bytes.len());
            assert_eq!(codec.encode_frame(&payload).unwrap(), bytes);
        }
        FrameRead::Closed => panic!("a whole frame was there"),
    }
}

#[test]
fn short_read_is_a_closed_connection() {
    let codec = PluginProtocol::new();
    assert_eq!(codec.decode_frame(&[]), FrameRead::Closed);
    assert_eq!(codec.decode_frame(&[0, 0, 0]), FrameRead::Closed);
    assert_eq!(codec.decode_frame(&[0, 0, 0, 5, b'a', b'b']), FrameRead::Closed);
}

#[test]
fn frames_come_out_in_the_order_sent() {
    let codec = PluginProtocol::new();
    let sent: Vec<&[u8]> = vec![b"first", b"", b"third one", b"4"];
    let mut stream = Vec::new();
    for payload in &sent {
        stream.extend(codec.encode_frame(payload).unwrap());
    }
    let whole = stream.len();
    stream.extend_from_slice(&[0, 0, 0, 9, b'p', b'a']);
    let batch = codec.decode_frames(&stream);
    assert_eq!(batch.consumed, whole);
    assert_eq!(batch.payloads.len(), sent.len());
    for (got, want) in batch.payloads.iter().zip(sent.iter()) {
        assert_eq!(got.as_slice(), *want);
    }
}

#[test]
fn decode_frames_of_nothing_is_nothing() {
    let codec = PluginProtocol::default();
    let batch = codec.decode_frames(&[]);
    assert!(batch.payloads.is_empty());
    assert_eq!(batch.consumed, 0);
}

#[test]
fn error_messages_name_their_kind() {
    assert_eq!(PluginError::Io("broken pipe".to_string()).message(), "IO error: broken pipe");
    assert_eq!(
        PluginError::Serialization("eof".to_string()).message(),
        "Serialization error: eof"
    );
    assert_eq!(PluginError::Protocol("bad".to_string()).message(), "Protocol error: bad");
    assert_eq!(PluginError::NotInitialized.message(), "Plugin not initialized");
    assert_eq!(
        PluginError::InvalidRequest("no key".to_string()).message(),
        "Invalid request: no key"
    );
    assert_eq!(PluginError::Internal("oops".to_string()).message(), "Internal error: oops");
    assert_eq!(PluginError::Socket("gone".to_string()).message(), "Socket error: gone");
    assert_eq!(PluginError::Timeout.message(), "Timeout");
}

#[test]
fn batch_of_frames_round_trips() {
    let codec = PluginProtocol::new();
    let payloads: Vec<Vec<u8>> = vec![b"one".to_vec(), vec![], b"three".to_vec()];
    let stream = codec.encode_frames(&payloads).unwrap();
    assert_eq!(
        stream,
        vec![0, 0, 0, 3, b'o', b'n', b'e', 0, 0, 0, 0, 0, 0, 0, 5, b't', b'h', b'r', b'e', b'e']
    );
    let batch = codec.decode_frames(&stream);
    assert_eq!(batch.payloads, payloads);
    assert_eq!(batch.consumed, stream.len());
    assert_eq!(codec.encode_frames(&vec![]).unwrap(), Vec::<u8>::new());
}
