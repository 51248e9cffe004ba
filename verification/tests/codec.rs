use bytes::BytesMut;
use extcap::codec::{ControlMsgCodec, FramingError};
use extcap::control_pipe::{ControlCmd, ControlMsg};

fn encoded(msg: ControlMsg) -> BytesMut {
    let mut buf = BytesMut::new();
    let mut codec = ControlMsgCodec;
    assert_eq!(codec.encode(msg, &mut buf), Ok(()));
    buf
}

#[test]
fn encode_writes_the_exact_frame() {
    let buf = encoded(ControlMsg::new(3, ControlCmd::SetValue, b"hi"));
    assert_eq!(&buf[..], &[b'T', 0, 0, 4, 3, 1, b'h', b'i'][..]);
}

#[test]
fn encode_of_empty_payload_declares_length_two() {
    let buf = encoded(ControlMsg::new(0, ControlCmd::Initialized, b""));
    assert_eq!(&buf[..], &[b'T', 0, 0, 2, 0, 0][..]);
}

#[test]
fn encode_appends_to_what_the_buffer_holds() {
    let mut buf = BytesMut::from(&b"xy"[..]);
    let mut codec = ControlMsgCodec;
    assert_eq!(codec.encode(ControlMsg::new(7, ControlCmd::Add, b"z"), &mut buf), Ok(()));
    assert_eq!(&buf[..], &[b'x', b'y', b'T', 0, 0, 3, 7, 2, b'z'][..]);
}

#[test]
fn encode_length_is_big_endian_over_three_bytes() {
    let payload = vec![0xabu8; 0x01_02_03 - 2];
    let buf = encoded(ControlMsg::new(1, ControlCmd::Add, &payload));
    assert_eq!(&buf[..6], &[b'T', 1, 2, 3, 1, 2][..]);
    assert_eq!(buf.len(), 4 + 0x01_02_03);
}

#[test]
fn encode_refuses_a_payload_beyond_three_length_bytes() {
    let payload = vec![0u8; 0xff_ffff - 1];
    let mut buf = BytesMut::from(&b"keep"[..]);
    let mut codec = ControlMsgCodec;
    assert_eq!(
        codec.encode(ControlMsg::new(1, ControlCmd::Add, &payload), &mut buf),
        Err(FramingError::PayloadTooLarge)
    );
    assert_eq!(&buf[..], b"keep");
}

#[test]
fn encode_accepts_the_longest_payload() {
    let payload = vec![9u8; 0xff_ffff - 2];
    let mut buf = encoded(ControlMsg::new(1, ControlCmd::Add, &payload));
    assert_eq!(&buf[..4], &[b'T', 0xff, 0xff, 0xff][..]);
    let mut codec = ControlMsgCodec;
    let msg = codec.decode(&mut buf).unwrap().unwrap();
    assert_eq!(msg.get_data().len(), 0xff_ffff - 2);
    assert!(buf.is_empty());
}

#[test]
fn decode_reads_back_every_command_code() {
    for code in 0u8..=255 {
        let cmd = ControlCmd::from(code);
        assert_eq!(u8::from(&cmd), code);
        let mut buf = encoded(ControlMsg::new(code.wrapping_mul(3), cmd, &[code, 1, 2]));
        let mut codec = ControlMsgCodec;
        let msg = codec.decode(&mut buf).unwrap().unwrap();
        assert_eq!(msg.get_ctrl_num(), code.wrapping_mul(3));
        assert_eq!(*msg.get_command(), cmd);
        assert_eq!(msg.get_data(), &[code, 1, 2][..]);
        assert!(buf.is_empty());
    }
}

#[test]
fn command_codes_have_their_names() {
    assert_eq!(ControlCmd::from(0), ControlCmd::Initialized);
    assert_eq!(ControlCmd::from(1), ControlCmd::SetValue);
    assert_eq!(ControlCmd::from(2), ControlCmd::Add);
    assert_eq!(ControlCmd::from(3), ControlCmd::Remove);
    assert_eq!(ControlCmd::from(4), ControlCmd::Enable);
    assert_eq!(ControlCmd::from(5), ControlCmd::Disable);
    assert_eq!(ControlCmd::from(6), ControlCmd::StatusbarMessage);
    assert_eq!(ControlCmd::from(7), ControlCmd::InformationMessage);
    assert_eq!(ControlCmd::from(8), ControlCmd::WarningMessage);
    assert_eq!(ControlCmd::from(9), ControlCmd::ErrorMessage);
    assert_eq!(ControlCmd::from(10), ControlCmd::Unknown(10));
    assert_eq!(ControlCmd::from(255), ControlCmd::Unknown(255));
    assert_eq!(u8::from(&ControlCmd::Unknown(200)), 200);
    assert_eq!(u8::from(&ControlCmd::ErrorMessage), 9);
}

#[test]
fn unknown_with_a_named_code_reads_back_as_the_named_command() {
    let mut buf = encoded(ControlMsg::new(0, ControlCmd::Unknown(3), b""));
    let mut codec = ControlMsgCodec;
    let msg = codec.decode(&mut buf).unwrap().unwrap();
    assert_eq!(*msg.get_command(), ControlCmd::Remove);
}

#[test]
fn decode_needs_four_bytes() {
    let mut codec = ControlMsgCodec;
    for n in 0..4 {
        let mut buf = BytesMut::from(&[b'T', 0, 0, 2][..n]);
        assert!(matches!(codec.decode(&mut buf), Ok(None)));
        assert_eq!(buf.len(), n);
    }
    let mut buf = BytesMut::from(&[b'X'][..]);
    assert!(matches!(codec.decode(&mut buf), Ok(None)));
}

#[test]
fn decode_waits_for_the_declared_length() {
    let mut codec = ControlMsgCodec;
    let mut buf = BytesMut::from(&[b'T', 0, 0, 5, 1, 2, 3][..]);
    assert!(matches!(codec.decode(&mut buf), Ok(None)));
    assert_eq!(&buf[..], &[b'T', 0, 0, 5, 1, 2, 3][..]);
}

#[test]
fn decode_byte_by_byte_yields_one_message() {
    let frame = encoded(ControlMsg::new(5, ControlCmd::StatusbarMessage, b"hello"));
    let mut codec = ControlMsgCodec;
    let mut buf = BytesMut::new();
    let mut seen = 0;
    for (i, b) in frame.iter().enumerate() {
        buf.extend_from_slice(&[*b]);
        match codec.decode(&mut buf).unwrap() {
            None => assert!(i + 1 < frame.len()),
            Some(msg) => {
                assert_eq!(i + 1, frame.len());
                assert_eq!(msg.get_ctrl_num(), 5);
                assert_eq!(*msg.get_command(), ControlCmd::StatusbarMessage);
                assert_eq!(msg.get_data(), b"hello");
                seen += 1;
            }
        }
    }
    assert_eq!(seen, 1);
    assert!(buf.is_empty());
    assert!(matches!(codec.decode(&mut buf), Ok(None)));
}

#[test]
fn decode_leaves_the_next_frame_in_the_buffer() {
    let mut buf = encoded(ControlMsg::new(1, ControlCmd::Enable, b"a"));
    let second = encoded(ControlMsg::new(2, ControlCmd::Disable, b"bc"));
    buf.extend_from_slice(&second);
    buf.extend_from_slice(b"T");
    let mut codec = ControlMsgCodec;
    let m1 = codec.decode(&mut buf).unwrap().unwrap();
    assert_eq!(
        (m1.get_ctrl_num(), *m1.get_command(), m1.get_data()),
        (1, ControlCmd::Enable, &b"a"[..])
    );
    assert_eq!(buf.len(), second.len() + 1);
    let m2 = codec.decode(&mut buf).unwrap().unwrap();
    assert_eq!(
        (m2.get_ctrl_num(), *m2.get_command(), m2.get_data()),
        (2, ControlCmd::Disable, &b"bc"[..])
    );
    assert!(matches!(codec.decode(&mut buf), Ok(None)));
    assert_eq!(&buf[..], b"T");
}

#[test]
fn decode_refuses_a_bad_sync_byte() {
    let mut codec = ControlMsgCodec;
    let mut buf = BytesMut::from(&[b'U', 0, 0, 2, 0, 0][..]);
    assert_eq!(codec.decode(&mut buf).unwrap_err(), FramingError::BadSync);
    assert_eq!(buf.len(), 6);
    let mut buf = BytesMut::from(&[0u8, 0xff, 0xff, 0xff][..]);
    assert_eq!(codec.decode(&mut buf).unwrap_err(), FramingError::BadSync);
}

#[test]
fn decode_refuses_a_declared_length_below_two() {
    let mut codec = ControlMsgCodec;
    let mut buf = BytesMut::from(&[b'T', 0, 0, 1, 9, 9, 9][..]);
    assert_eq!(codec.decode(&mut buf).unwrap_err(), FramingError::LengthTooSmall);
    let mut buf = BytesMut::from(&[b'T', 0, 0, 0][..]);
    assert_eq!(codec.decode(&mut buf).unwrap_err(), FramingError::LengthTooSmall);
    assert_eq!(buf.len(), 4);
}

#[test]
fn framing_errors_have_their_texts() {
    assert_eq!(FramingError::BadSync.message(), "Sync Pipe Indication != 'T'");
    assert_eq!(FramingError::LengthTooSmall.message(), "Message Length < 2");
    assert_eq!(FramingError::PayloadTooLarge.message(), "Message Length > 16777215");
    assert_eq!(FramingError::BufferFull.message(), "Buffer full");
}

#[test]
fn message_getters_return_what_was_given() {
    let msg = ControlMsg::new(42, ControlCmd::WarningMessage, &[1, 2, 3]);
    assert_eq!(msg.get_ctrl_num(), 42);
    assert_eq!(*msg.get_command(), ControlCmd::WarningMessage);
    assert_eq!(msg.get_data(), &[1, 2, 3][..]);
}
