//! Frames: a four-byte big-endian payload length followed by the payload,
//! which must be UTF-8 text of at most `MAX_MESSAGE_LENGTH` bytes.

use vstd::prelude::*;

use vstd::utf8::{decode_utf8, encode_utf8, valid_utf8};

use crate::buf::{
    be_u32_bytes, be_u32_value, bytes_mut_advance, bytes_mut_as_slice, bytes_mut_put_slice,
    bytes_mut_put_u32, bytes_mut_view, bytes_mut_with_capacity, lemma_be_u32_roundtrip,
    string_from_utf8,
};
use crate::cursor::ByteCursor;
use crate::{frame_error_to_radiant, RadiantError, HEADER_SIZE, MAX_MESSAGE_LENGTH};

verus! {

/// Why the bytes at a cursor do not (yet) make a frame.
#[derive(Debug, Clone, Copy, PartialEq, Eq, Structural)]
pub enum FrameError {
    /// Fewer bytes are there than the header announces, or than a header needs.
    Incomplete,
    /// The payload is not valid UTF-8.
    Parse,
    /// The header announces more than `MAX_MESSAGE_LENGTH` bytes.
    TooLarge,
}

/// One decoded frame: the text of its payload.
#[derive(Debug)]
pub struct Frame(String);

impl View for Frame {
    type V = Seq<char>;

    closed spec fn view(&self) -> Seq<char> {
        self.0@
    }
}

/// The payload length announced by the header at `pos`.
pub open spec fn frame_header(data: Seq<u8>, pos: int) -> int {
    be_u32_value(data.subrange(pos, pos + 4))
}

/// The payload of the frame whose header is at `pos`.
pub open spec fn frame_payload(data: Seq<u8>, pos: int) -> Seq<u8> {
    data.subrange(pos + 4, pos + 4 + frame_header(data, pos))
}

/// Whether a whole frame, header and payload, lies at `pos`.
pub open spec fn frame_complete(data: Seq<u8>, pos: int) -> bool {
    &&& pos + 4 <= data.len()
    &&& pos + 4 + frame_header(data, pos) <= data.len()
}

/// What checking the bytes at `pos` for a frame finds.
pub open spec fn check_outcome(data: Seq<u8>, pos: int) -> Result<(), FrameError> {
    if data.len() < pos + 4 {
        Err(FrameError::Incomplete)
    } else if frame_header(data, pos) > MAX_MESSAGE_LENGTH {
        Err(FrameError::TooLarge)
    } else if data.len() < pos + 4 + frame_header(data, pos) {
        Err(FrameError::Incomplete)
    } else {
        Ok(())
    }
}

/// Where checking the bytes at `pos` leaves the cursor: where it was when no
/// header is there, past the header when the frame is refused or incomplete,
/// past the frame when it is whole.
pub open spec fn check_end(data: Seq<u8>, pos: int) -> int {
    if data.len() < pos + 4 {
        pos
    } else if check_outcome(data, pos) is Ok {
        pos + 4 + frame_header(data, pos)
    } else {
        pos + 4
    }
}

/// Reads a frame's length header; `Incomplete` when fewer than four bytes remain.
pub fn get_u32(src: &mut ByteCursor) -> (r: Result<u32, FrameError>)
    ensures
        final(src).data() == old(src).data(),
        old(src).remaining_spec() < 4 ==> r == Err::<u32, FrameError>(FrameError::Incomplete)
            && final(src).pos() == old(src).pos(),
        old(src).remaining_spec() >= 4 ==> {
            &&& r matches Ok(n) && n as int == frame_header(old(src).data(), old(src).pos() as int)
            &&& final(src).pos() == old(src).pos() + 4
        },
{
    if src.remaining() < 4 {
        return Err(FrameError::Incomplete);
    }
    Ok(src.get_u32())
}

impl Frame {
    /// Checks that a whole frame lies at the cursor, and moves the cursor past
    /// it. On a refusal the cursor may have moved past the header.
    pub fn check(buf: &mut ByteCursor) -> (r: Result<(), FrameError>)
        ensures
            final(buf).data() == old(buf).data(),
            r == check_outcome(old(buf).data(), old(buf).pos() as int),
            final(buf).pos() == check_end(old(buf).data(), old(buf).pos() as int),
            r is Ok ==> final(buf).pos() == old(buf).pos() + 4 + frame_header(
                old(buf).data(),
                old(buf).pos() as int,
            ),
            r is Err ==> final(buf).pos() <= old(buf).pos() + 4,
    {
        let length = match get_u32(buf) {
            Ok(n) => n as usize,
            Err(e) => return Err(e),
        };
        if length > MAX_MESSAGE_LENGTH {
            return Err(FrameError::TooLarge);
        }
        if buf.remaining() < length {
            Err(FrameError::Incomplete)
        } else {
            buf.advance(length);
            Ok(())
        }
    }

    /// Decodes the frame at the cursor, which must hold a whole frame (as
    /// `check` has found), and moves the cursor past it.
    pub fn parse(buf: &mut ByteCursor) -> (r: Result<Self, FrameError>)
        requires
            frame_complete(old(buf).data(), old(buf).pos() as int),
        ensures
            final(buf).data() == old(buf).data(),
            final(buf).pos() == old(buf).pos() + 4 + frame_header(
                old(buf).data(),
                old(buf).pos() as int,
            ),
            match r {
                Ok(f) => valid_utf8(frame_payload(old(buf).data(), old(buf).pos() as int))
                    && f@ == decode_utf8(
                    frame_payload(old(buf).data(), old(buf).pos() as int),
                ),
                Err(e) => e == FrameError::Parse && !valid_utf8(
                    frame_payload(old(buf).data(), old(buf).pos() as int),
                ),
            },
    {
        let length = buf.get_u32() as usize;
        let dst = buf.copy_to_vec(length);
        match string_from_utf8(dst) {
            Some(s) => Ok(Frame(s)),
            None => Err(FrameError::Parse),
        }
    }

    /// The text of the frame.
    pub fn into(self) -> (s: String)
        ensures
            s@ == self@,
    {
        self.0
    }

    /// The text of the frame, borrowed.
    pub fn inner(&self) -> (s: &str)
        ensures
            s@ == self@,
    {
        self.0.as_str()
    }

    /// The text of the frame, as its display shows it.
    pub fn to_string(&self) -> (s: String)
        ensures
            s@ == self@,
    {
        self.0.clone()
    }
}

/// The bytes of the frame that carries `text`: the length of its UTF-8
/// encoding as a big-endian `u32` (cut to 32 bits, as a cast does), then
/// the encoding.
pub open spec fn frame_bytes(text: Seq<char>) -> Seq<u8> {
    be_u32_bytes(encode_utf8(text).len() as u32) + encode_utf8(text)
}

/// Frames `msg` for sending, whatever its length; a length past `u32::MAX`
/// is cut to 32 bits in the header.
pub fn frame_message(msg: &str) -> (b: bytes::BytesMut)
    requires
        encode_utf8(msg@).len() + HEADER_SIZE <= isize::MAX,
    ensures
        bytes_mut_view(b) == frame_bytes(msg@),
        bytes_mut_view(b).len() == HEADER_SIZE + encode_utf8(msg@).len(),
        bytes_mut_view(b).skip(HEADER_SIZE as int) == encode_utf8(msg@),
        encode_utf8(msg@).len() <= u32::MAX ==> be_u32_value(bytes_mut_view(b)) == encode_utf8(
            msg@,
        ).len(),
{
    proof {
        law_frame_bytes_layout(msg@);
    }
    let len = msg.len();
    let mut write_buf = bytes_mut_with_capacity(HEADER_SIZE + len);
    bytes_mut_put_u32(&mut write_buf, len as u32);
    bytes_mut_put_slice(&mut write_buf, msg.as_bytes());
    write_buf
}

/// Frames `msg` for sending, refusing one longer than `MAX_MESSAGE_LENGTH` bytes.
pub fn encode_message(msg: &str) -> (r: Result<bytes::BytesMut, RadiantError>)
    requires
        encode_utf8(msg@).len() <= usize::MAX,
    ensures
        match r {
            Ok(b) => encode_utf8(msg@).len() <= MAX_MESSAGE_LENGTH && bytes_mut_view(b)
                == frame_bytes(msg@),
            Err(e) => encode_utf8(msg@).len() > MAX_MESSAGE_LENGTH && e is MessageLimit,
        },
{
    let len = msg.len();
    if len > MAX_MESSAGE_LENGTH {
        return Err(RadiantError::MessageLimit);
    }
    Ok(frame_message(msg))
}

/// The text of the error that a received message that is not UTF-8 gives.
pub open spec fn message_parse_text() -> Seq<char> {
    "message is not valid UTF-8"@
}

/// Decodes a message received whole in `data`: its header, then its text.
/// A header over `MAX_MESSAGE_LENGTH` is refused before the payload is read.
pub fn decode_message(data: &[u8]) -> (r: Result<String, RadiantError>)
    requires
        data@.len() >= HEADER_SIZE,
        frame_header(data@, 0) <= MAX_MESSAGE_LENGTH ==> frame_complete(data@, 0),
    ensures
        frame_header(data@, 0) > MAX_MESSAGE_LENGTH ==> r matches Err(RadiantError::MessageLimit),
        frame_header(data@, 0) <= MAX_MESSAGE_LENGTH ==> match r {
            Ok(s) => valid_utf8(frame_payload(data@, 0)) && s@ == decode_utf8(
                frame_payload(data@, 0),
            ),
            Err(e) => e matches RadiantError::ParseError(t) && t@ == message_parse_text()
                && !valid_utf8(frame_payload(data@, 0)),
        },
{
    let mut read_buf = ByteCursor::new(data);
    let len = read_buf.get_u32() as usize;
    if len > MAX_MESSAGE_LENGTH {
        return Err(RadiantError::MessageLimit);
    }
    let message_bytes = read_buf.copy_to_vec(len);
    match string_from_utf8(message_bytes) {
        Some(s) => Ok(s),
        None => Err(RadiantError::ParseError("message is not valid UTF-8".to_owned())),
    }
}

/// What taking a frame off the front of the buffered bytes `b` gives, with
/// `after` the bytes left buffered: nothing while the frame is incomplete, a
/// refusal of an oversized header or of a payload that is not UTF-8 (the
/// bytes stay), or the frame, whose bytes leave the buffer.
pub open spec fn buffered_frame_outcome(
    b: Seq<u8>,
    after: Seq<u8>,
    r: Result<Option<Frame>, RadiantError>,
) -> bool {
    match check_outcome(b, 0) {
        Err(FrameError::Incomplete) => r matches Ok(None) && after == b,
        Err(e) => r matches Err(re) && frame_error_to_radiant(e, re) && after == b,
        Ok(_) => if valid_utf8(frame_payload(b, 0)) {
            &&& r matches Ok(Some(f)) && f@ == decode_utf8(frame_payload(b, 0))
            &&& after == b.skip(4 + frame_header(b, 0))
        } else {
            r matches Err(re) && frame_error_to_radiant(FrameError::Parse, re) && after == b
        },
    }
}

/// Takes the first frame off the front of `buffer`, if a whole one is there.
pub fn read_buffered_frame(buffer: &mut bytes::BytesMut) -> (r: Result<Option<Frame>, RadiantError>)
    ensures
        buffered_frame_outcome(bytes_mut_view(*old(buffer)), bytes_mut_view(*final(buffer)), r),
{
    let data = bytes_mut_as_slice(buffer);
    let mut cursor = ByteCursor::new(data);
    match Frame::check(&mut cursor) {
        Ok(()) => {
            // `check` moved the cursor past the frame; parsing starts over
            // from the beginning.
            let len = cursor.position();
            cursor.set_position(0);
            match Frame::parse(&mut cursor) {
                Ok(frame) => {
                    // The frame's bytes leave the buffer.
                    bytes_mut_advance(buffer, len);
                    Ok(Some(frame))
                },
                Err(e) => Err(RadiantError::from(e)),
            }
        },
        Err(FrameError::Incomplete) => Ok(None),
        Err(e) => Err(RadiantError::from(e)),
    }
}

/// A frame carrying `text` (of at most `MAX_MESSAGE_LENGTH` bytes), followed
/// by any bytes, reads back as `text` and leaves exactly those bytes.
pub proof fn law_frame_roundtrip(text: Seq<char>, rest: Seq<u8>)
    requires
        encode_utf8(text).len() <= MAX_MESSAGE_LENGTH,
    ensures
        ({
            let b = frame_bytes(text) + rest;
            &&& check_outcome(b, 0) == Ok::<(), FrameError>(())
            &&& frame_header(b, 0) == encode_utf8(text).len()
            &&& valid_utf8(frame_payload(b, 0))
            &&& decode_utf8(frame_payload(b, 0)) == text
            &&& b.skip(4 + frame_header(b, 0)) == rest
        }),
{
    let enc = encode_utf8(text);
    let n = enc.len() as u32;
    lemma_be_u32_roundtrip(n);
    let b = frame_bytes(text) + rest;
    assert(b.subrange(0, 4) =~= be_u32_bytes(n));
    assert(frame_header(b, 0) == enc.len());
    assert(frame_payload(b, 0) =~= enc);
    vstd::utf8::encode_utf8_valid_utf8(text);
    vstd::utf8::encode_utf8_decode_utf8(text);
    assert(b.skip(4 + frame_header(b, 0)) =~= rest);
}

/// Any proper prefix of a frame (of at most `MAX_MESSAGE_LENGTH` bytes of
/// text) is incomplete: nothing is taken from a buffer that holds only part
/// of a frame.
pub proof fn law_partial_frame_incomplete(text: Seq<char>, n: int)
    requires
        encode_utf8(text).len() <= MAX_MESSAGE_LENGTH,
        0 <= n < frame_bytes(text).len(),
    ensures
        check_outcome(frame_bytes(text).take(n), 0) == Err::<(), FrameError>(FrameError::Incomplete),
{
    let enc = encode_utf8(text);
    let len = enc.len() as u32;
    lemma_be_u32_roundtrip(len);
    let p = frame_bytes(text).take(n);
    if n >= 4 {
        assert(p.subrange(0, 4) =~= be_u32_bytes(len));
    }
}

/// A frame framed for sending reads back, through the buffer of a
/// connection, as the text that was sent.
pub proof fn law_send_then_read(msg: Seq<char>, rest: Seq<u8>, r: Result<Option<Frame>, RadiantError>, after: Seq<u8>)
    requires
        encode_utf8(msg).len() <= MAX_MESSAGE_LENGTH,
        buffered_frame_outcome(frame_bytes(msg) + rest, after, r),
    ensures
        r matches Ok(Some(f)) && f@ == msg,
        after == rest,
{
    law_frame_roundtrip(msg, rest);
}

/// The frame of any text, however long, is four header bytes and then the
/// whole UTF-8 encoding of the text; the header reads back as the length of
/// that encoding whenever the length fits in a `u32`.
pub proof fn law_frame_bytes_layout(text: Seq<char>)
    ensures
        frame_bytes(text).len() == 4 + encode_utf8(text).len(),
        frame_bytes(text).skip(4) == encode_utf8(text),
        encode_utf8(text).len() <= u32::MAX ==> be_u32_value(frame_bytes(text)) == encode_utf8(
            text,
        ).len(),
{
    let enc = encode_utf8(text);
    let n = enc.len() as u32;
    lemma_be_u32_roundtrip(n);
    assert(frame_bytes(text).skip(4) =~= enc);
    assert(frame_bytes(text).subrange(0, 4) =~= be_u32_bytes(n));
}

/// A successful check moves the cursor by exactly the frame's size, four
/// header bytes plus the announced length, from wherever it stood; the end
/// lies within the data. A refused or incomplete check moves it by at most
/// the header.
pub proof fn law_check_moves_by_frame_size(data: Seq<u8>, pos: int)
    requires
        0 <= pos,
    ensures
        check_outcome(data, pos) is Ok ==> check_end(data, pos) - pos == 4 + frame_header(data, pos)
            && check_end(data, pos) <= data.len(),
        check_outcome(data, pos) is Err ==> pos <= check_end(data, pos) <= pos + 4,
{
}

/// In two frames one after the other, checking at the start finds the first
/// and ends where the second begins; checking there finds the second, with
/// its own length, and ends after it.
pub proof fn law_check_consecutive_frames(t1: Seq<char>, t2: Seq<char>, rest: Seq<u8>)
    requires
        encode_utf8(t1).len() <= MAX_MESSAGE_LENGTH,
        encode_utf8(t2).len() <= MAX_MESSAGE_LENGTH,
    ensures
        ({
            let d = frame_bytes(t1) + frame_bytes(t2) + rest;
            let p1: int = 4 + encode_utf8(t1).len() as int;
            &&& check_outcome(d, 0) is Ok
            &&& check_end(d, 0) == p1
            &&& check_outcome(d, p1) is Ok
            &&& frame_header(d, p1) == encode_utf8(t2).len()
            &&& check_end(d, p1) == p1 + 4 + encode_utf8(t2).len()
            &&& decode_utf8(frame_payload(d, p1)) == t2
        }),
{
    let f1 = frame_bytes(t1);
    let f2 = frame_bytes(t2);
    let d = f1 + f2 + rest;
    let p1: int = 4 + encode_utf8(t1).len() as int;
    law_frame_bytes_layout(t1);
    law_frame_roundtrip(t1, f2 + rest);
    assert(d =~= f1 + (f2 + rest));
    law_frame_roundtrip(t2, rest);
    let d2 = f2 + rest;
    assert(d.subrange(p1, p1 + 4) =~= d2.subrange(0, 4));
    assert(frame_header(d, p1) == frame_header(d2, 0));
    assert(frame_payload(d, p1) =~= frame_payload(d2, 0));
}

} // verus!
