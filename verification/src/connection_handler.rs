//! The state of one connection of the blocking server. Its read buffer is
//! allocated zeroed at its full size, and each read from the socket writes
//! over the front of it.

use vstd::prelude::*;

use crate::buf::{
    bytes_mut_as_slice, bytes_mut_len, bytes_mut_overwrite_prefix, bytes_mut_view, bytes_mut_zeroed,
};
use crate::frame::{buffered_frame_outcome, encode_message, frame_bytes, read_buffered_frame, Frame};
use crate::{RadiantError, HEADER_SIZE, MAX_MESSAGE_LENGTH};

verus! {

/// A blocking connection's read buffer.
pub struct ConnectionHandler {
    read_buffer: bytes::BytesMut,
}

/// Whether every byte is zero.
pub open spec fn all_zero(b: Seq<u8>) -> bool {
    forall|i: int| 0 <= i < b.len() ==> b[i] == 0
}

impl ConnectionHandler {
    /// The bytes of the read buffer.
    pub closed spec fn buffered(&self) -> Seq<u8> {
        bytes_mut_view(self.read_buffer)
    }

    /// A handler whose buffer holds room for one largest frame, all zero.
    pub fn new() -> (h: Self)
        ensures
            h.buffered() == Seq::new((HEADER_SIZE + MAX_MESSAGE_LENGTH) as nat, |i: int| 0u8),
    {
        ConnectionHandler { read_buffer: bytes_mut_zeroed(HEADER_SIZE + MAX_MESSAGE_LENGTH) }
    }

    /// The size of the buffer, which is how much one read may bring.
    pub fn buffer_len(&self) -> (n: usize)
        ensures
            n == self.buffered().len(),
    {
        bytes_mut_len(&self.read_buffer)
    }

    /// Writes bytes read from the socket over the front of the buffer.
    pub fn fill(&mut self, data: &[u8])
        requires
            data@.len() <= old(self).buffered().len(),
        ensures
            final(self).buffered() == data@ + old(self).buffered().skip(data@.len() as int),
    {
        bytes_mut_overwrite_prefix(&mut self.read_buffer, data);
    }

    /// Takes the first frame off the buffer, if a whole one is there.
    pub fn parse_frame(&mut self) -> (r: Result<Option<Frame>, RadiantError>)
        ensures
            buffered_frame_outcome(old(self).buffered(), final(self).buffered(), r),
    {
        read_buffered_frame(&mut self.read_buffer)
    }

    /// What reading a frame gives when a read returns no bytes: nothing when
    /// the buffer is still all zero, a `NetworkError` otherwise.
    pub fn end_of_stream(&self) -> (r: Result<Option<Frame>, RadiantError>)
        ensures
            all_zero(self.buffered()) ==> r matches Ok(None),
            !all_zero(self.buffered()) ==> (r matches Err(RadiantError::NetworkError(t))
                && t@ == crate::connection::reset_text()),
    {
        let data = bytes_mut_as_slice(&self.read_buffer);
        let mut i: usize = 0;
        while i < data.len()
            invariant
                data@ == self.buffered(),
                i <= data@.len(),
                forall|j: int| 0 <= j < i ==> data@[j] == 0,
            decreases data@.len() - i,
        {
            if data[i] != 0 {
                return Err(RadiantError::NetworkError("connection reset by peer".to_owned()));
            }
            i = i + 1;
        }
        Ok(None)
    }

    /// The bytes to write for `msg`, refused when it is longer than
    /// `MAX_MESSAGE_LENGTH`.
    pub fn send_message(&self, msg: &str) -> (r: Result<bytes::BytesMut, RadiantError>)
        requires
            vstd::utf8::encode_utf8(msg@).len() <= usize::MAX,
        ensures
            match r {
                Ok(b) => vstd::utf8::encode_utf8(msg@).len() <= MAX_MESSAGE_LENGTH && bytes_mut_view(b)
                    == frame_bytes(msg@),
                Err(e) => vstd::utf8::encode_utf8(msg@).len() > MAX_MESSAGE_LENGTH
                    && e is MessageLimit,
            },
    {
        encode_message(msg)
    }
}

} // verus!
