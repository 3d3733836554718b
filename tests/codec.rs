use bytes::BytesMut;
use line_chat::codec::{bad_utf8, LinesCodec};

#[test]
fn encodes_and_decodes_lines() -> Result<(), std::io::Error> {
    let mut transport = LinesCodec;
    let mut buf = BytesMut::new();
    let lines = "This is one line\nThis is another line\nThis is the final one".to_string();
    transport.encode(lines, &mut buf)?;

    let decoded = transport.decode_eof(&mut buf)?.unwrap();
    assert_eq!("This is one line".to_string(), decoded);
    let decoded = transport.decode_eof(&mut buf)?.unwrap();
    assert_eq!("This is another line".to_string(), decoded);
    let decoded = transport.decode_eof(&mut buf)?.unwrap();
    assert_eq!("This is the final one".to_string(), decoded);
    let decoded = transport.decode_eof(&mut buf)?;
    assert_eq!(None, decoded);
    Ok(())
}

#[test]
fn encode_appends_text_and_newline() {
    let mut codec = LinesCodec;
    let mut buf = BytesMut::from(&b"ab"[..]);
    codec.encode("héllo".to_string(), &mut buf).unwrap();
    assert_eq!(&buf[..], "abhéllo\n".as_bytes());
}

#[test]
fn decode_waits_for_newline() {
    let mut codec = LinesCodec;
    let mut buf = BytesMut::from(&b"partial"[..]);
    assert_eq!(codec.decode(&mut buf).unwrap(), None);
    assert_eq!(&buf[..], b"partial");
}

#[test]
fn decode_takes_one_line_and_leaves_the_rest() {
    let mut codec = LinesCodec;
    let mut buf = BytesMut::from(&b"one\ntwo"[..]);
    assert_eq!(codec.decode(&mut buf).unwrap(), Some("one".to_string()));
    assert_eq!(&buf[..], b"two");
}

#[test]
fn decode_reports_invalid_utf8_and_drops_the_line() {
    let mut codec = LinesCodec;
    let mut buf = BytesMut::from(&[0xff, 0xfe, b'\n', b'o', b'k', b'\n'][..]);
    let err = codec.decode(&mut buf).unwrap_err();
    assert_eq!(err.kind(), std::io::ErrorKind::InvalidData);
    assert_eq!(codec.decode(&mut buf).unwrap(), Some("ok".to_string()));
}

#[test]
fn decode_eof_discards_unterminated_remainder() {
    let mut codec = LinesCodec;
    let mut buf = BytesMut::from(&b"tail"[..]);
    assert_eq!(codec.decode_eof(&mut buf).unwrap(), None);
    assert!(buf.is_empty());
    assert_eq!(codec.decode_eof(&mut buf).unwrap(), None);
}

#[test]
fn decode_eof_on_empty_buffer_is_none() {
    let mut codec = LinesCodec;
    let mut buf = BytesMut::new();
    assert_eq!(codec.decode_eof(&mut buf).unwrap(), None);
}

#[test]
fn decode_eof_discards_invalid_utf8_remainder() {
    let mut codec = LinesCodec;
    let mut buf = BytesMut::from(&[b'a', 0xc3][..]);
    assert_eq!(codec.decode_eof(&mut buf).unwrap(), None);
    assert!(buf.is_empty());
}

#[test]
fn decode_eof_still_returns_terminated_lines_first() {
    let mut codec = LinesCodec;
    let mut buf = BytesMut::from(&b"done
tail"[..]);
    assert_eq!(codec.decode_eof(&mut buf).unwrap(), Some("done".to_string()));
    assert_eq!(codec.decode_eof(&mut buf).unwrap(), None);
}

#[test]
fn bad_utf8_gives_invalid_data() {
    let err = bad_utf8(());
    assert_eq!(err.kind(), std::io::ErrorKind::InvalidData);
    assert_eq!(err.to_string(), "Unable to decode input as UTF8");
}
