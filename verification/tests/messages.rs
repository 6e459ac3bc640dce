use websocket_lowlevel::assembler::{assemble, Assembler};
use websocket_lowlevel::codec::{Context, MessageCodec};
use websocket_lowlevel::error::ProtocolError;
use websocket_lowlevel::frame::{decode, Frame, Opcode};
use websocket_lowlevel::message::{text_from_bytes, CloseData, OwnedMessage};
use websocket_lowlevel::ws::Message;

fn frame(fin: bool, opcode: Opcode, payload: &[u8]) -> Frame {
    Frame::new(fin, opcode, None, payload.to_vec())
}

fn text(s: &str) -> OwnedMessage {
    OwnedMessage::Text(s.to_string())
}

#[test]
fn fragments_he_and_llo_make_hello() {
    let mut assembler = Assembler::new();
    assert_eq!(assembler.push(&frame(false, Opcode::Text, b"He")), Ok(None));
    assert!(!assembler.is_idle());
    assert_eq!(assembler.buffered(), 2);
    assert_eq!(assembler.push(&frame(true, Opcode::Continuation, b"llo")), Ok(Some(text("Hello"))));
    assert!(assembler.is_idle());
    assert_eq!(assembler.buffered(), 0);
}

#[test]
fn three_binary_fragments() {
    let mut assembler = Assembler::new();
    assert_eq!(assembler.push(&frame(false, Opcode::Binary, &[1, 2])), Ok(None));
    assert_eq!(assembler.push(&frame(false, Opcode::Continuation, &[])), Ok(None));
    assert_eq!(assembler.push(&frame(false, Opcode::Continuation, &[3])), Ok(None));
    assert_eq!(assembler.buffered(), 3);
    assert_eq!(
        assembler.push(&frame(true, Opcode::Continuation, &[4, 5])),
        Ok(Some(OwnedMessage::Binary(vec![1, 2, 3, 4, 5])))
    );
}

#[test]
fn a_final_data_frame_is_a_message_at_once() {
    let mut assembler = Assembler::new();
    assert_eq!(assembler.push(&frame(true, Opcode::Text, b"Hello")), Ok(Some(text("Hello"))));
    assert!(assembler.is_idle());
    assert_eq!(
        assembler.push(&frame(true, Opcode::Binary, &[0xff, 0x00])),
        Ok(Some(OwnedMessage::Binary(vec![0xff, 0x00])))
    );
    assert_eq!(assembler.push(&frame(true, Opcode::Text, b"")), Ok(Some(text(""))));
}

#[test]
fn continuation_while_idle_is_rejected() {
    let mut assembler = Assembler::new();
    assert_eq!(
        assembler.push(&frame(true, Opcode::Continuation, b"llo")),
        Err(ProtocolError::UnexpectedContinuation)
    );
    assert!(assembler.is_idle());
    assert_eq!(
        assembler.push(&frame(false, Opcode::Continuation, b"")),
        Err(ProtocolError::UnexpectedContinuation)
    );
}

#[test]
fn a_new_data_frame_inside_a_message_is_rejected() {
    for second in [Opcode::Text, Opcode::Binary] {
        for fin in [false, true] {
            let mut assembler = Assembler::new();
            assert_eq!(assembler.push(&frame(false, Opcode::Text, b"He")), Ok(None));
            assert_eq!(
                assembler.push(&frame(fin, second, b"llo")),
                Err(ProtocolError::ExpectedContinuation)
            );
            assert!(assembler.is_idle());
        }
    }
}

#[test]
fn control_frames_between_fragments_leave_the_message_alone() {
    let mut assembler = Assembler::new();
    assert_eq!(assembler.push(&frame(false, Opcode::Text, b"He")), Ok(None));
    assert_eq!(
        assembler.push(&frame(true, Opcode::Ping, b"are you there")),
        Ok(Some(OwnedMessage::Ping(b"are you there".to_vec())))
    );
    assert_eq!(assembler.buffered(), 2);
    assert_eq!(
        assembler.push(&frame(true, Opcode::Pong, b"")),
        Ok(Some(OwnedMessage::Pong(vec![])))
    );
    assert_eq!(assembler.push(&frame(false, Opcode::Continuation, b"l")), Ok(None));
    assert_eq!(
        assembler.push(&frame(true, Opcode::Close, &[])),
        Ok(Some(OwnedMessage::Close(None)))
    );
    assert_eq!(assembler.buffered(), 3);
    assert_eq!(assembler.push(&frame(true, Opcode::Continuation, b"lo")), Ok(Some(text("Hello"))));
}

#[test]
fn a_ping_of_126_bytes_is_rejected() {
    let mut assembler = Assembler::new();
    assert_eq!(
        assembler.push(&frame(true, Opcode::Ping, &[0u8; 126])),
        Err(ProtocolError::ControlTooLarge)
    );
    assert_eq!(
        assembler.push(&frame(true, Opcode::Ping, &[0u8; 125])),
        Ok(Some(OwnedMessage::Ping(vec![0u8; 125])))
    );
    assert_eq!(
        OwnedMessage::Ping(vec![0u8; 126]).serialize(&mut Vec::new(), false),
        Err(ProtocolError::ControlTooLarge)
    );
}

#[test]
fn a_control_frame_that_is_not_final_is_rejected() {
    let mut assembler = Assembler::new();
    assert_eq!(
        assembler.push(&frame(false, Opcode::Ping, b"")),
        Err(ProtocolError::FragmentedControl)
    );
}

#[test]
fn a_failure_drops_the_message_in_progress() {
    let mut assembler = Assembler::new();
    assert_eq!(assembler.push(&frame(false, Opcode::Text, b"He")), Ok(None));
    assert_eq!(
        assembler.push(&frame(true, Opcode::Pong, &[0u8; 200])),
        Err(ProtocolError::ControlTooLarge)
    );
    assert!(assembler.is_idle());
    assert_eq!(assembler.buffered(), 0);
}

#[test]
fn close_with_status_1000_and_no_reason() {
    let mut assembler = Assembler::new();
    assert_eq!(
        assembler.push(&frame(true, Opcode::Close, &[0x03, 0xe8])),
        Ok(Some(OwnedMessage::Close(Some(CloseData::new(1000, String::new())))))
    );
    let (wire, _) = decode(&[0x88, 0x02, 0x03, 0xe8]).unwrap().unwrap();
    assert_eq!(
        assemble(&vec![wire]),
        Ok(OwnedMessage::Close(Some(CloseData { status_code: 1000, reason: String::new() })))
    );
}

#[test]
fn close_payloads() {
    assert_eq!(OwnedMessage::from_parts(Opcode::Close, vec![]), Ok(OwnedMessage::Close(None)));
    assert_eq!(
        OwnedMessage::from_parts(Opcode::Close, vec![0x03]),
        Err(ProtocolError::InvalidClosePayload)
    );
    assert_eq!(
        OwnedMessage::from_parts(Opcode::Close, vec![0x03, 0xe9, b'b', b'y', b'e']),
        Ok(OwnedMessage::Close(Some(CloseData::new(1001, "bye".to_string()))))
    );
    assert_eq!(
        OwnedMessage::from_parts(Opcode::Close, vec![0x0f, 0xa0, 0xff]),
        Err(ProtocolError::InvalidUtf8)
    );
    assert_eq!(
        OwnedMessage::from_parts(Opcode::Close, vec![0xff, 0xff]),
        Ok(OwnedMessage::Close(Some(CloseData::new(65535, String::new()))))
    );
}

#[test]
fn text_has_to_be_utf8() {
    assert_eq!(text_from_bytes(b"Hello".to_vec()), Ok("Hello".to_string()));
    assert_eq!(text_from_bytes(vec![0xe2, 0x82, 0xac]), Ok("\u{20ac}".to_string()));
    assert_eq!(text_from_bytes(vec![]), Ok(String::new()));
    assert_eq!(text_from_bytes(vec![0xff]), Err(ProtocolError::InvalidUtf8));
    assert_eq!(text_from_bytes(vec![0xe2, 0x82]), Err(ProtocolError::InvalidUtf8));
    assert_eq!(text_from_bytes(vec![0xc0, 0x80]), Err(ProtocolError::InvalidUtf8));
    assert_eq!(text_from_bytes(vec![0xed, 0xa0, 0x80]), Err(ProtocolError::InvalidUtf8));
    assert_eq!(
        OwnedMessage::from_parts(Opcode::Text, vec![b'a', 0x80]),
        Err(ProtocolError::InvalidUtf8)
    );
}

#[test]
fn text_is_checked_once_the_message_is_whole() {
    let euro = [0xe2u8, 0x82, 0xac];
    let mut assembler = Assembler::new();
    assert_eq!(assembler.push(&frame(false, Opcode::Text, &euro[..1])), Ok(None));
    assert_eq!(assembler.push(&frame(false, Opcode::Continuation, &euro[1..2])), Ok(None));
    assert_eq!(
        assembler.push(&frame(true, Opcode::Continuation, &euro[2..])),
        Ok(Some(text("\u{20ac}")))
    );
    assert_eq!(assembler.push(&frame(false, Opcode::Text, &euro[..2])), Ok(None));
    assert_eq!(
        assembler.push(&frame(true, Opcode::Continuation, b"x")),
        Err(ProtocolError::InvalidUtf8)
    );
    assert!(assembler.is_idle());
    assert_eq!(
        assembler.push(&frame(true, Opcode::Text, &[0xff])),
        Err(ProtocolError::InvalidUtf8)
    );
}

#[test]
fn from_parts_of_every_opcode() {
    assert_eq!(OwnedMessage::from_parts(Opcode::Text, b"hi".to_vec()), Ok(text("hi")));
    assert_eq!(
        OwnedMessage::from_parts(Opcode::Binary, vec![1, 2]),
        Ok(OwnedMessage::Binary(vec![1, 2]))
    );
    assert_eq!(
        OwnedMessage::from_parts(Opcode::Ping, vec![1]),
        Ok(OwnedMessage::Ping(vec![1]))
    );
    assert_eq!(
        OwnedMessage::from_parts(Opcode::Pong, vec![2]),
        Ok(OwnedMessage::Pong(vec![2]))
    );
    assert_eq!(
        OwnedMessage::from_parts(Opcode::Continuation, vec![]),
        Err(ProtocolError::UnexpectedContinuation)
    );
}

#[test]
fn a_message_is_read_back_from_its_opcode_and_payload() {
    let messages = [
        text("Hello"),
        text("h\u{e9}llo \u{20ac}"),
        text(""),
        OwnedMessage::Binary(vec![0, 1, 2, 255]),
        OwnedMessage::Close(None),
        OwnedMessage::Close(Some(CloseData::new(1000, String::new()))),
        OwnedMessage::Close(Some(CloseData::new(4999, "going away".to_string()))),
        OwnedMessage::Ping(vec![9; 125]),
        OwnedMessage::Pong(vec![]),
    ];
    for message in messages {
        assert_eq!(OwnedMessage::from_parts(message.opcode(), message.payload()), Ok(message.clone()));
        let frame = message.to_frame(Some([1, 2, 3, 4]));
        assert!(frame.fin);
        assert_eq!(frame.mask, Some([1, 2, 3, 4]));
        assert_eq!(frame.opcode, message.opcode());
        assert_eq!(frame.payload, message.payload());
        assert_eq!(assemble(&vec![frame]), Ok(message));
    }
}

#[test]
fn payloads_of_messages() {
    assert_eq!(text("Hello").payload(), b"Hello".to_vec());
    assert_eq!(text("\u{20ac}").payload(), vec![0xe2, 0x82, 0xac]);
    assert_eq!(OwnedMessage::Close(None).payload(), Vec::<u8>::new());
    assert_eq!(
        OwnedMessage::Close(Some(CloseData::new(1000, String::new()))).payload(),
        vec![0x03, 0xe8]
    );
    assert_eq!(
        OwnedMessage::Close(Some(CloseData::new(258, "no".to_string()))).payload(),
        vec![0x01, 0x02, b'n', b'o']
    );
    assert_eq!(OwnedMessage::Close(Some(CloseData::new(258, "no".to_string()))).message_size(false), 6);
    assert_eq!(OwnedMessage::Pong(vec![1, 2, 3]).message_size(true), 9);
}

#[test]
fn kinds_of_messages() {
    assert!(text("x").is_data());
    assert!(OwnedMessage::Binary(vec![]).is_data());
    assert!(!text("x").is_control());
    assert!(OwnedMessage::Ping(vec![]).is_control());
    assert!(OwnedMessage::Pong(vec![]).is_control());
    assert!(OwnedMessage::Close(None).is_control());
    assert!(OwnedMessage::Close(None).is_close());
    assert!(!OwnedMessage::Ping(vec![]).is_close());
    assert_eq!(text("x").opcode(), Opcode::Text);
    assert_eq!(OwnedMessage::Binary(vec![]).opcode(), Opcode::Binary);
    assert_eq!(OwnedMessage::Close(None).opcode(), Opcode::Close);
    assert_eq!(OwnedMessage::Ping(vec![]).opcode(), Opcode::Ping);
    assert_eq!(OwnedMessage::Pong(vec![]).opcode(), Opcode::Pong);
}

#[test]
fn fragments_make_the_message_wherever_the_payload_is_cut() {
    let payload = "h\u{e9}llo \u{20ac} world".as_bytes().to_vec();
    for first in 0..=payload.len() {
        for second in first..=payload.len() {
            let frames = vec![
                Frame::new(false, Opcode::Text, Some([1, 2, 3, 4]), payload[..first].to_vec()),
                frame(false, Opcode::Continuation, &payload[first..second]),
                Frame::new(true, Opcode::Continuation, Some([0; 4]), payload[second..].to_vec()),
            ];
            assert_eq!(assemble(&frames), Ok(text("h\u{e9}llo \u{20ac} world")));
            let frames = vec![
                frame(false, Opcode::Binary, &payload[..first]),
                frame(true, Opcode::Continuation, &payload[first..]),
            ];
            assert_eq!(assemble(&frames), Ok(OwnedMessage::Binary(payload.clone())));
        }
    }
}

#[test]
fn one_message_from_a_series_of_frames() {
    let frames = vec![
        frame(false, Opcode::Text, b"He"),
        frame(false, Opcode::Continuation, b"l"),
        frame(true, Opcode::Continuation, b"lo"),
    ];
    assert_eq!(assemble(&frames), Ok(text("Hello")));
    assert_eq!(<OwnedMessage as Message>::from_dataframes(frames), Ok(text("Hello")));
    assert_eq!(assemble(&vec![]), Err(ProtocolError::NoFrames));
    assert_eq!(<OwnedMessage as Message>::from_dataframes(vec![]), Err(ProtocolError::NoFrames));
    assert_eq!(
        assemble(&vec![frame(false, Opcode::Text, b"He")]),
        Err(ProtocolError::UnfinishedMessage)
    );
    assert_eq!(
        assemble(&vec![frame(true, Opcode::Text, b"He"), frame(true, Opcode::Text, b"llo")]),
        Err(ProtocolError::UnfinishedMessage)
    );
    assert_eq!(
        assemble(&vec![frame(false, Opcode::Text, b"He"), frame(true, Opcode::Text, b"llo")]),
        Err(ProtocolError::ExpectedContinuation)
    );
    assert_eq!(
        assemble(&vec![frame(true, Opcode::Continuation, b"llo")]),
        Err(ProtocolError::UnexpectedContinuation)
    );
    assert_eq!(
        assemble(&vec![frame(true, Opcode::Ping, b"x")]),
        Ok(OwnedMessage::Ping(b"x".to_vec()))
    );
}

#[test]
fn serialize_unmasked() {
    let mut w = vec![0x00];
    assert_eq!(text("Hello").serialize(&mut w, false), Ok(()));
    assert_eq!(w, vec![0x00, 0x81, 0x05, 0x48, 0x65, 0x6c, 0x6c, 0x6f]);
    assert_eq!(text("Hello").message_size(false), 7);
    assert_eq!(text("Hello").message_size(true), 11);
    assert_eq!(OwnedMessage::Binary(vec![0; 126]).message_size(false), 130);
    assert_eq!(OwnedMessage::Binary(vec![0; 65536]).message_size(true), 65550);
    assert_eq!(OwnedMessage::Close(None).message_size(false), 2);
}

#[test]
fn serialize_masked_is_read_back() {
    let message = text("Hello");
    let mut w = Vec::new();
    assert_eq!(message.serialize(&mut w, true), Ok(()));
    assert_eq!(w.len(), message.message_size(true));
    assert_eq!(w[0], 0x81);
    assert_eq!(w[1], 0x85);
    let (frame, taken) = decode(&w).unwrap().unwrap();
    assert_eq!(taken, 11);
    assert_eq!(frame.mask, Some([w[2], w[3], w[4], w[5]]));
    assert_eq!(assemble(&vec![frame]), Ok(message));
}

#[test]
fn serialize_refuses_a_close_reason_that_is_too_long() {
    let long = OwnedMessage::Close(Some(CloseData::new(1000, "x".repeat(124))));
    let mut w = vec![7u8];
    assert_eq!(long.serialize(&mut w, true), Err(ProtocolError::ControlTooLarge));
    assert_eq!(w, vec![7]);
    let fits = OwnedMessage::Close(Some(CloseData::new(1000, "x".repeat(123))));
    assert_eq!(fits.serialize(&mut w, false), Ok(()));
    assert_eq!(w.len(), 1 + 2 + 125);
}

#[test]
fn codec_reads_messages_from_a_stream() {
    let mut stream = Vec::new();
    stream.extend_from_slice(&[0x01, 0x02, b'H', b'e']);
    stream.extend_from_slice(&[0x89, 0x01, b'p']);
    stream.extend_from_slice(&[0x80, 0x03, b'l', b'l', b'o']);
    stream.extend_from_slice(&[0x82, 0x01]);
    let mut codec = MessageCodec::default(Context::Client);
    assert_eq!(codec.context(), Context::Client);
    let (taken, message) = codec.decode(&stream);
    assert_eq!((taken, message), (7, Ok(Some(OwnedMessage::Ping(vec![b'p'])))));
    let rest = &stream[taken..];
    let (taken, message) = codec.decode(rest);
    assert_eq!((taken, message), (5, Ok(Some(text("Hello")))));
    let rest = &rest[taken..];
    assert_eq!(codec.decode(rest), (0, Ok(None)));
    assert_eq!(codec.decode_eof(rest), (0, Err(ProtocolError::IncompleteFrame)));
    assert_eq!(codec.decode_eof(&[]), (0, Ok(None)));
}

#[test]
fn codec_takes_the_frames_that_give_nothing_yet() {
    let mut codec = MessageCodec::default(Context::Server);
    assert_eq!(codec.decode(&[0x01, 0x02, b'H', b'e', 0x00, 0x01]), (4, Ok(None)));
    assert_eq!(codec.decode(&[0x00, 0x01, b'l', 0x80]), (3, Ok(None)));
    assert_eq!(codec.decode(&[0x80, 0x02, b'l', b'o']), (4, Ok(Some(text("Hello")))));
    assert_eq!(codec.decode(&[]), (0, Ok(None)));
}

#[test]
fn codec_reports_failures() {
    let mut codec = MessageCodec::default(Context::Client);
    assert_eq!(codec.decode(&[0x81, 0x00, 0xc1, 0x00]), (2, Ok(Some(text("")))));
    assert_eq!(codec.decode(&[0xc1, 0x00]), (0, Err(ProtocolError::ReservedBitsSet)));
    let mut codec = MessageCodec::default(Context::Client);
    assert_eq!(
        codec.decode(&[0x01, 0x00, 0x80, 0x00, 0x80, 0x00]),
        (4, Ok(Some(text(""))))
    );
    assert_eq!(codec.decode(&[0x80, 0x00]), (2, Err(ProtocolError::UnexpectedContinuation)));
    assert_eq!(
        codec.decode(&[0x01, 0x01, b'a', 0x02, 0x00]),
        (5, Err(ProtocolError::ExpectedContinuation))
    );
    assert_eq!(codec.decode(&[0x81, 0x01, 0xff]), (3, Err(ProtocolError::InvalidUtf8)));
    assert_eq!(codec.decode(&[0x88, 0x01, 0x03]), (3, Err(ProtocolError::InvalidClosePayload)));
}

#[test]
fn codec_of_a_server_sends_unmasked() {
    let codec = MessageCodec::default(Context::Server);
    assert!(!codec.context().masks());
    let mut dst = Vec::new();
    assert_eq!(codec.encode(&text("Hello"), &mut dst), Ok(()));
    assert_eq!(dst, vec![0x81, 0x05, 0x48, 0x65, 0x6c, 0x6c, 0x6f]);
    assert_eq!(codec.encode(&OwnedMessage::Close(None), &mut dst), Ok(()));
    assert_eq!(dst, vec![0x81, 0x05, 0x48, 0x65, 0x6c, 0x6c, 0x6f, 0x88, 0x00]);
}

#[test]
fn codec_of_a_client_sends_masked() {
    let client = MessageCodec::default(Context::Client);
    assert!(client.context().masks());
    let mut dst = Vec::new();
    assert_eq!(client.encode(&OwnedMessage::Binary(vec![1, 2, 3]), &mut dst), Ok(()));
    assert_eq!(dst.len(), 9);
    assert_eq!(dst[0], 0x82);
    assert_eq!(dst[1], 0x83);
    let key = [dst[2], dst[3], dst[4], dst[5]];
    assert_eq!(dst[6], 1 ^ key[0]);
    assert_eq!(dst[7], 2 ^ key[1]);
    assert_eq!(dst[8], 3 ^ key[2]);
    let mut server = MessageCodec::default(Context::Server);
    assert_eq!(server.decode(&dst), (9, Ok(Some(OwnedMessage::Binary(vec![1, 2, 3])))));
}

#[test]
fn codec_encodes_with_a_given_key() {
    let mut dst = vec![0xee];
    assert_eq!(
        MessageCodec::encode_with_mask(&text("Hello"), Some([0x37, 0xfa, 0x21, 0x3d]), &mut dst),
        Ok(())
    );
    assert_eq!(dst, vec![0xee, 0x81, 0x85, 0x37, 0xfa, 0x21, 0x3d, 0x7f, 0x9f, 0x4d, 0x51, 0x58]);
    assert_eq!(
        MessageCodec::encode_with_mask(&OwnedMessage::Pong(vec![0; 126]), None, &mut dst),
        Err(ProtocolError::ControlTooLarge)
    );
    assert_eq!(dst.len(), 12);
}
