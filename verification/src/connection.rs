//! The state of one client connection of the server: the bytes received and
//! not yet taken as frames, and the decisions the server makes on them.

use vstd::prelude::*;

use crate::buf::{
    bytes_from_vec, bytes_mut_is_empty, bytes_mut_len, bytes_mut_put_slice, bytes_mut_view,
    bytes_mut_with_capacity, bytes_to_vec,
};
use vstd::utf8::{decode_utf8, valid_utf8};

use crate::frame::{
    buffered_frame_outcome, check_outcome, frame_header, frame_payload, read_buffered_frame, Frame,
    FrameError,
};
use crate::protocol::{Request, Response};
use crate::{frame_error_to_radiant, Db, RadiantError, DEFAULT_CAPACITY, HEADER_SIZE};

verus! {

/// A connection's read buffer: bytes received from the client that do not
/// yet make up a frame.
pub struct Connection {
    buffer: bytes::BytesMut,
}

/// What the server does after trying to read a frame.
pub enum ReadStep {
    /// Handles the frame.
    Handle(Frame),
    /// The client closed the connection cleanly: stop.
    Disconnected,
    /// The connection broke: stop.
    Reset,
    /// The frame was refused: report it and read on.
    Skip(RadiantError),
}

/// The text of the error for a connection that closed in the middle of a frame.
pub open spec fn reset_text() -> Seq<char> {
    "connection reset by peer"@
}

/// The store after `command`, and the response to it: `Ping` gets `Pong`;
/// `Get` gets the key and its value, or no bytes when it is unbound; `SetValue`
/// binds the key and gets `Okay`. Only `SetValue` changes the store.
pub open spec fn command_outcome(
    before: Map<Seq<char>, Seq<u8>>,
    command: Request,
    after: Map<Seq<char>, Seq<u8>>,
    response: Response,
) -> bool {
    match command {
        Request::Ping => response is Pong && after == before,
        Request::Get(k) => {
            &&& after == before
            &&& response matches Response::Get(rk, v) && rk@ == k@ && v@ == (if before.contains_key(
                k@,
            ) {
                before[k@]
            } else {
                Seq::<u8>::empty()
            })
        },
        Request::SetValue(k, v) => response is Okay && after == before.insert(k@, v@),
    }
}

impl Connection {
    /// The bytes received and not yet taken as frames.
    pub closed spec fn buffered(&self) -> Seq<u8> {
        bytes_mut_view(self.buffer)
    }

    /// A connection with nothing received yet.
    pub fn new() -> (c: Self)
        ensures
            c.buffered() == Seq::<u8>::empty(),
    {
        Connection { buffer: bytes_mut_with_capacity(HEADER_SIZE + DEFAULT_CAPACITY) }
    }

    /// How many bytes are buffered.
    pub fn buffered_len(&self) -> (n: usize)
        ensures
            n == self.buffered().len(),
    {
        bytes_mut_len(&self.buffer)
    }

    /// Appends bytes read from the client.
    pub fn receive(&mut self, data: &[u8])
        requires
            old(self).buffered().len() + data@.len() <= isize::MAX,
        ensures
            final(self).buffered() == old(self).buffered() + data@,
    {
        bytes_mut_put_slice(&mut self.buffer, data);
    }

    /// Takes the first frame off the buffer, if a whole one is there.
    pub fn parse_frame(&mut self) -> (r: Result<Option<Frame>, RadiantError>)
        ensures
            buffered_frame_outcome(old(self).buffered(), final(self).buffered(), r),
    {
        read_buffered_frame(&mut self.buffer)
    }

    /// What reading a frame gives when the client has closed its side:
    /// nothing when no partial frame is left, a `NetworkError` otherwise.
    pub fn end_of_stream(&self) -> (r: Result<Option<Frame>, RadiantError>)
        ensures
            self.buffered().len() == 0 ==> r matches Ok(None),
            self.buffered().len() != 0 ==> (r matches Err(RadiantError::NetworkError(t))
                && t@ == reset_text()),
    {
        if bytes_mut_is_empty(&self.buffer) {
            Ok(None)
        } else {
            Err(RadiantError::NetworkError("connection reset by peer".to_owned()))
        }
    }

    /// Decides what to do with the outcome of reading a frame: handle a
    /// frame, stop when the client is gone or the connection broke, and
    /// otherwise report the error and read on.
    pub fn next_step(read: Result<Option<Frame>, RadiantError>) -> (s: ReadStep)
        ensures
            match read {
                Ok(Some(f)) => s matches ReadStep::Handle(g) && g == f,
                Ok(None) => s is Disconnected,
                Err(RadiantError::NetworkError(_)) => s is Reset,
                Err(e) => s matches ReadStep::Skip(e2) && e2 == e,
            },
    {
        match read {
            Ok(Some(frame)) => ReadStep::Handle(frame),
            Ok(None) => ReadStep::Disconnected,
            Err(RadiantError::NetworkError(_)) => ReadStep::Reset,
            Err(e) => ReadStep::Skip(e),
        }
    }

    /// Carries out a request on the store and gives the response to send.
    pub fn process_command(db: &mut Db, command: Request) -> (r: Response)
        requires
            old(db).wf(),
        ensures
            final(db).wf(),
            command_outcome(old(db)@, command, final(db)@, r),
            !(command is SetValue) ==> final(db)@ == old(db)@,
            command is SetValue ==> r is Okay,
            command is Ping ==> r is Pong,
    {
        match command {
            Request::Ping => Response::Pong,
            Request::Get(key) => {
                let value = match db.get(key.as_str()) {
                    Some(v) => bytes_to_vec(&v),
                    None => Vec::new(),
                };
                Response::Get(key, value)
            },
            Request::SetValue(key, value) => {
                db.set(key, bytes_from_vec(value));
                Response::Okay
            },
        }
    }
}

/// After `SetValue` binds a key, `Get` of that key answers with the value set.
pub proof fn law_get_after_set(
    s0: Map<Seq<char>, Seq<u8>>,
    k: String,
    v: Vec<u8>,
    s1: Map<Seq<char>, Seq<u8>>,
    r1: Response,
    k2: String,
    s2: Map<Seq<char>, Seq<u8>>,
    r2: Response,
)
    requires
        command_outcome(s0, Request::SetValue(k, v), s1, r1),
        command_outcome(s1, Request::Get(k2), s2, r2),
        k2@ == k@,
    ensures
        r2 matches Response::Get(rk, rv) && rk@ == k@ && rv@ == v@,
{
}

/// `SetValue` of one key does not change what `Get` of another key answers.
pub proof fn law_set_keeps_other_keys(
    s0: Map<Seq<char>, Seq<u8>>,
    k: String,
    v: Vec<u8>,
    s1: Map<Seq<char>, Seq<u8>>,
    r1: Response,
    other: String,
    s2: Map<Seq<char>, Seq<u8>>,
    r2: Response,
    s3: Map<Seq<char>, Seq<u8>>,
    r3: Response,
)
    requires
        other@ != k@,
        command_outcome(s0, Request::Get(other), s2, r2),
        command_outcome(s0, Request::SetValue(k, v), s1, r1),
        command_outcome(s1, Request::Get(other), s3, r3),
    ensures
        r2 matches Response::Get(_, a) && r3 matches Response::Get(_, b) && a@ == b@,
{
}

/// A store that was never set answers `Get` with no bytes.
pub proof fn law_get_unbound_is_empty(
    s0: Map<Seq<char>, Seq<u8>>,
    k: String,
    s1: Map<Seq<char>, Seq<u8>>,
    r: Response,
)
    requires
        !s0.contains_key(k@),
        command_outcome(s0, Request::Get(k), s1, r),
    ensures
        r matches Response::Get(_, v) && v@ == Seq::<u8>::empty(),
        s1 == s0,
{
}

/// The text of the whole, valid frame at the front of the buffered bytes
/// `b`, and the bytes after it; `None` when no such frame is there.
pub open spec fn taken_frame(b: Seq<u8>) -> Option<(Seq<char>, Seq<u8>)> {
    if check_outcome(b, 0) is Ok && valid_utf8(frame_payload(b, 0)) {
        Some((decode_utf8(frame_payload(b, 0)), b.skip(4 + frame_header(b, 0))))
    } else {
        None
    }
}

/// The refusal of the frame at the front of `b`: a header over the limit, or
/// a whole payload that is not UTF-8; `None` when there is none.
pub open spec fn refusal(b: Seq<u8>) -> Option<FrameError> {
    match check_outcome(b, 0) {
        Err(FrameError::TooLarge) => Some(FrameError::TooLarge),
        Ok(_) => if valid_utf8(frame_payload(b, 0)) {
            None
        } else {
            Some(FrameError::Parse)
        },
        Err(_) => None,
    }
}

/// How reading frames goes on a connection that holds `b` and then
/// receives `chunks`, one per read, and is closed by the client: reading
/// takes whole frames off the buffer first and reads more only when none is
/// whole. The result is the texts of the frames read, then how reading ends:
/// `Ok(true)` when the client closes with nothing left over (`end_of_stream`
/// gives `Ok(None)`), `Ok(false)` when it closes in the middle of a frame
/// (`end_of_stream` gives a `NetworkError`), `Err(e)` when a frame is refused,
/// which stays at the front of the buffer and is refused on every later read.
pub open spec fn read_run(b: Seq<u8>, chunks: Seq<Seq<u8>>) -> (Seq<Seq<char>>, Result<bool, FrameError>)
    decreases chunks.len(), b.len(),
{
    match taken_frame(b) {
        Some((t, rest)) => {
            let (fs, end) = read_run(rest, chunks);
            (seq![t] + fs, end)
        },
        None => match refusal(b) {
            Some(e) => (seq![], Err(e)),
            None => if chunks.len() == 0 {
                (seq![], Ok(b.len() == 0))
            } else {
                read_run(b + chunks[0], chunks.drop_first())
            },
        },
    }
}

/// More bytes after the front of the buffer do not change what is found
/// there: a whole frame stays the same frame, a refusal the same refusal.
proof fn lemma_front_is_stable(b: Seq<u8>, x: Seq<u8>)
    ensures
        taken_frame(b) matches Some((t, rest)) ==> taken_frame(b + x) == Some((t, rest + x)),
        refusal(b) is Some ==> taken_frame(b + x) is None && refusal(b + x) == refusal(b),
{
    let bx = b + x;
    if b.len() >= 4 {
        assert(bx.subrange(0, 4) =~= b.subrange(0, 4));
        let h = frame_header(b, 0);
        if 4 + h <= b.len() {
            assert(frame_payload(bx, 0) =~= frame_payload(b, 0));
            assert(bx.skip(4 + h) =~= b.skip(4 + h) + x);
        }
    }
}

/// Taking a frame off a connection's buffer, as `parse_frame` does, is one
/// step of `read_run`: it gives the frame `taken_frame` finds and leaves the
/// bytes after it, gives the refusal `refusal` finds and leaves the buffer,
/// or gives nothing and leaves the buffer.
pub proof fn law_parse_frame_is_a_step(b: Seq<u8>, after: Seq<u8>, r: Result<Option<Frame>, RadiantError>)
    requires
        buffered_frame_outcome(b, after, r),
    ensures
        taken_frame(b) matches Some((t, rest)) ==> (r matches Ok(Some(f)) && f@ == t && after == rest),
        taken_frame(b) is None ==> (refusal(b) matches Some(e) ==> (r matches Err(re)
            && frame_error_to_radiant(e, re) && after == b)),
        taken_frame(b) is None && refusal(b) is None ==> (r matches Ok(None) && after == b),
{
}

/// Receiving `a` and then `c` leaves the same buffered bytes as receiving
/// `a + c` at once.
pub proof fn law_receive_in_pieces(s0: Seq<u8>, a: Seq<u8>, c: Seq<u8>)
    ensures
        (s0 + a) + c == s0 + (a + c),
{
    assert((s0 + a) + c =~= s0 + (a + c));
}

/// Reading frames from bytes that arrive in pieces goes as if all of them
/// had been there from the start.
pub proof fn law_read_run_joins(b: Seq<u8>, chunks: Seq<Seq<u8>>)
    ensures
        read_run(b, chunks) == read_run(b + chunks.flatten(), seq![]),
    decreases chunks.len(), b.len(),
{
    let f = chunks.flatten();
    lemma_front_is_stable(b, f);
    match taken_frame(b) {
        Some((t, rest)) => {
            law_read_run_joins(rest, chunks);
        },
        None => match refusal(b) {
            Some(e) => {},
            None => if chunks.len() == 0 {
                assert(b + f =~= b);
            } else {
                law_read_run_joins(b + chunks[0], chunks.drop_first());
                assert((b + chunks[0]) + chunks.drop_first().flatten() =~= b + f);
            },
        },
    }
}

/// The frames read from a connection, and how the reading ends, do not
/// depend on how the client's bytes were split into reads.
pub proof fn law_read_independent_of_chunking(c1: Seq<Seq<u8>>, c2: Seq<Seq<u8>>)
    requires
        c1.flatten() == c2.flatten(),
    ensures
        read_run(Seq::empty(), c1) == read_run(Seq::empty(), c2),
{
    law_read_run_joins(Seq::empty(), c1);
    law_read_run_joins(Seq::empty(), c2);
}

/// A `Get` never changes the store, whether or not its key is bound, and
/// answers with the key and the bytes the store binds it to (none when unbound).
pub proof fn law_get_reads_only(
    s0: Map<Seq<char>, Seq<u8>>,
    k: String,
    s1: Map<Seq<char>, Seq<u8>>,
    r: Response,
)
    requires
        command_outcome(s0, Request::Get(k), s1, r),
    ensures
        s1 == s0,
        r matches Response::Get(rk, v) && rk@ == k@,
        s0.contains_key(k@) ==> (r matches Response::Get(_, v) && v@ == s0[k@]),
        !s0.contains_key(k@) ==> (r matches Response::Get(_, v) && v@.len() == 0),
{
}

/// Two `Get`s of one key in a row answer the same bytes and leave the store
/// as it was.
pub proof fn law_repeated_get_answers_alike(
    s0: Map<Seq<char>, Seq<u8>>,
    k: String,
    s1: Map<Seq<char>, Seq<u8>>,
    r1: Response,
    k2: String,
    s2: Map<Seq<char>, Seq<u8>>,
    r2: Response,
)
    requires
        k2@ == k@,
        command_outcome(s0, Request::Get(k), s1, r1),
        command_outcome(s1, Request::Get(k2), s2, r2),
    ensures
        s2 == s0,
        r1 matches Response::Get(_, a) && r2 matches Response::Get(_, b) && a@ == b@,
{
}

/// A `SetValue` is answered `Okay` on every store, whether its key was bound
/// or not, and afterwards the key is bound to the value while every other
/// key keeps its binding.
pub proof fn law_set_always_okay(
    s0: Map<Seq<char>, Seq<u8>>,
    k: String,
    v: Vec<u8>,
    s1: Map<Seq<char>, Seq<u8>>,
    r: Response,
)
    requires
        command_outcome(s0, Request::SetValue(k, v), s1, r),
    ensures
        r is Okay,
        s1.contains_key(k@) && s1[k@] == v@,
        forall|k2: Seq<char>| k2 != k@ ==> (#[trigger] s1.contains_key(k2) <==> s0.contains_key(k2)),
        forall|k2: Seq<char>| k2 != k@ && s0.contains_key(k2) ==> #[trigger] s1[k2] == s0[k2],
{
}

/// A `Ping` is answered `Pong` and leaves the store as it was.
pub proof fn law_ping_answers_pong(
    s0: Map<Seq<char>, Seq<u8>>,
    s1: Map<Seq<char>, Seq<u8>>,
    r: Response,
)
    requires
        command_outcome(s0, Request::Ping, s1, r),
    ensures
        r is Pong,
        s1 == s0,
{
}

} // verus!
