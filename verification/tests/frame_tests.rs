use radiant::frame::{decode_message, encode_message, frame_message, get_u32, read_buffered_frame};
use radiant::{ByteCursor, Frame, FrameError, RadiantError, MAX_MESSAGE_LENGTH};

fn framed(text: &str) -> Vec<u8> {
    let mut v = (text.len() as u32).to_be_bytes().to_vec();
    v.extend_from_slice(text.as_bytes());
    v
}

#[test]
fn get_u32_reads_big_endian() {
    let data = [1u8, 2, 3, 4, 5];
    let mut c = ByteCursor::new(&data);
    assert_eq!(get_u32(&mut c), Ok(0x0102_0304));
    assert_eq!(c.position(), 4);
    assert_eq!(get_u32(&mut c), Err(FrameError::Incomplete));
    assert_eq!(c.position(), 4);
}

#[test]
fn check_accepts_whole_frame_and_moves_past_it() {
    let mut data = framed("hello");
    data.extend_from_slice(b"tail");
    let mut c = ByteCursor::new(&data);
    assert_eq!(Frame::check(&mut c), Ok(()));
    assert_eq!(c.position(), 9);
}

#[test]
fn check_short_header_is_incomplete() {
    let data = [0u8, 0, 0];
    let mut c = ByteCursor::new(&data);
    assert_eq!(Frame::check(&mut c), Err(FrameError::Incomplete));
    assert_eq!(c.position(), 0);
}

#[test]
fn check_short_payload_is_incomplete() {
    let data = framed("hello");
    let mut c = ByteCursor::new(&data[..7]);
    assert_eq!(Frame::check(&mut c), Err(FrameError::Incomplete));
    assert_eq!(c.position(), 4);
}

#[test]
fn check_refuses_oversized_header() {
    let data = ((MAX_MESSAGE_LENGTH + 1) as u32).to_be_bytes();
    let mut c = ByteCursor::new(&data);
    assert_eq!(Frame::check(&mut c), Err(FrameError::TooLarge));
    assert_eq!(c.position(), 4);
}

#[test]
fn check_accepts_header_at_limit() {
    let mut data = (MAX_MESSAGE_LENGTH as u32).to_be_bytes().to_vec();
    data.extend(std::iter::repeat(b'a').take(MAX_MESSAGE_LENGTH));
    let mut c = ByteCursor::new(&data);
    assert_eq!(Frame::check(&mut c), Ok(()));
    assert_eq!(c.position(), 4 + MAX_MESSAGE_LENGTH);
}

#[test]
fn parse_decodes_text() {
    let data = framed("héllo");
    let mut c = ByteCursor::new(&data);
    let f = Frame::parse(&mut c).unwrap();
    assert_eq!(c.position(), data.len());
    assert_eq!(f.inner(), "héllo");
    assert_eq!(f.to_string(), "héllo".to_string());
    assert_eq!(f.into(), "héllo".to_string());
}

#[test]
fn parse_refuses_invalid_utf8() {
    let data = [0u8, 0, 0, 2, 0xff, 0xfe];
    let mut c = ByteCursor::new(&data);
    assert_eq!(Frame::parse(&mut c).unwrap_err(), FrameError::Parse);
    assert_eq!(c.position(), 6);
}

#[test]
fn frame_message_prefixes_length() {
    let b = frame_message("hi");
    assert_eq!(&b[..], &[0u8, 0, 0, 2, b'h', b'i'][..]);
}

#[test]
fn encode_message_accepts_limit_and_refuses_more() {
    let ok = "a".repeat(MAX_MESSAGE_LENGTH);
    let b = encode_message(&ok).unwrap();
    assert_eq!(b.len(), 4 + MAX_MESSAGE_LENGTH);
    let too_long = "a".repeat(MAX_MESSAGE_LENGTH + 1);
    assert_eq!(encode_message(&too_long).unwrap_err(), RadiantError::MessageLimit);
}

#[test]
fn decode_message_reads_text() {
    let mut data = framed("world");
    data.extend_from_slice(&[0u8; 16]);
    assert_eq!(decode_message(&data), Ok("world".to_string()));
}

#[test]
fn decode_message_refuses_oversized_header() {
    let data = 5000u32.to_be_bytes();
    assert_eq!(decode_message(&data), Err(RadiantError::MessageLimit));
}

#[test]
fn decode_message_refuses_invalid_utf8() {
    let data = [0u8, 0, 0, 1, 0x80];
    assert_eq!(
        decode_message(&data),
        Err(RadiantError::ParseError("message is not valid UTF-8".to_string()))
    );
}

#[test]
fn frame_errors_convert() {
    assert_eq!(RadiantError::from(FrameError::Incomplete), RadiantError::Other);
    assert_eq!(
        RadiantError::from(FrameError::Parse),
        RadiantError::ParseError("cannot parse frame".to_string())
    );
    assert_eq!(RadiantError::from(FrameError::TooLarge), RadiantError::MessageLimit);
}

#[test]
fn roundtrip_through_buffer_leaves_rest() {
    let mut buf = frame_message("ping");
    buf.extend_from_slice(&[0, 0]);
    let f = read_buffered_frame(&mut buf).unwrap().unwrap();
    assert_eq!(f.into(), "ping");
    assert_eq!(&buf[..], &[0u8, 0][..]);
}

#[test]
fn every_proper_prefix_of_a_frame_is_incomplete() {
    let whole = framed("abc");
    for n in 0..whole.len() {
        let mut buf = bytes::BytesMut::from(&whole[..n]);
        assert!(read_buffered_frame(&mut buf).unwrap().is_none());
        assert_eq!(&buf[..], &whole[..n]);
    }
}

#[test]
fn buffered_oversized_frame_is_refused_and_kept() {
    let data = 10_000u32.to_be_bytes();
    let mut buf = bytes::BytesMut::from(&data[..]);
    assert_eq!(read_buffered_frame(&mut buf).unwrap_err(), RadiantError::MessageLimit);
    assert_eq!(&buf[..], &data[..]);
}

#[test]
fn buffered_invalid_utf8_is_refused_and_kept() {
    let data = [0u8, 0, 0, 1, 0xc0];
    let mut buf = bytes::BytesMut::from(&data[..]);
    assert_eq!(
        read_buffered_frame(&mut buf).unwrap_err(),
        RadiantError::ParseError("cannot parse frame".to_string())
    );
    assert_eq!(&buf[..], &data[..]);
}

#[test]
fn cursor_positions() {
    let data = [1u8, 2, 3];
    let mut c = ByteCursor::new(&data);
    assert_eq!(c.remaining(), 3);
    c.advance(2);
    assert_eq!(c.remaining(), 1);
    c.set_position(10);
    assert_eq!(c.remaining(), 0);
    c.advance(0);
    assert_eq!(c.position(), 10);
    assert_eq!(c.get_ref(), &data[..]);
    c.set_position(1);
    assert_eq!(c.copy_to_vec(2), vec![2, 3]);
}
