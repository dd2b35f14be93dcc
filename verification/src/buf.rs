//! Byte-level helpers over the `bytes` crate: big-endian integers and
//! the growable and shared byte buffers that frames are read from and
//! written into.

use vstd::prelude::*;

verus! {

/// The value of four bytes read as a big-endian unsigned integer.
pub open spec fn be_u32_value(b: Seq<u8>) -> int
    recommends
        b.len() >= 4,
{
    b[0] * 0x100_0000 + b[1] * 0x1_0000 + b[2] * 0x100 + b[3]
}

/// The four bytes of `n` in big-endian order, as `u32::to_be_bytes` gives them.
pub open spec fn be_u32_bytes(n: u32) -> Seq<u8> {
    seq![(n >> 24u32) as u8, (n >> 16u32) as u8, (n >> 8u32) as u8, n as u8]
}

/// Reading back the big-endian bytes of a number gives the number.
pub proof fn lemma_be_u32_roundtrip(n: u32)
    ensures
        be_u32_value(be_u32_bytes(n)) == n,
        be_u32_bytes(n).len() == 4,
{
    assert(((n >> 24u32) as u8) as int * 0x100_0000 + ((n >> 16u32) as u8) as int * 0x1_0000
        + ((n >> 8u32) as u8) as int * 0x100 + (n as u8) as int == n)
        by (bit_vector);
}

/// `bytes::Buf::get_u32` on a byte slice: the first four bytes, big-endian.
#[verifier::external_body]
pub(crate) fn read_u32_be(src: &[u8]) -> (r: u32)
    requires
        src@.len() >= 4,
    ensures
        r as int == be_u32_value(src@),
{
    let mut s: &[u8] = src;
    bytes::Buf::get_u32(&mut s)
}

} // verus!

verus! {

/// The growable byte buffer of the `bytes` crate.
#[verifier::external_type_specification]
#[verifier::external_body]
pub struct ExBytesMut(bytes::BytesMut);

/// The bytes that a `BytesMut` holds, first to last.
pub uninterp spec fn bytes_mut_view(b: bytes::BytesMut) -> Seq<u8>;

/// `BytesMut::with_capacity`: a buffer that holds no bytes yet. It allocates
/// through `Vec::with_capacity`, which panics past `isize::MAX` bytes.
#[verifier::external_body]
pub(crate) fn bytes_mut_with_capacity(capacity: usize) -> (b: bytes::BytesMut)
    requires
        capacity <= isize::MAX,
    ensures
        bytes_mut_view(b) == Seq::<u8>::empty(),
{
    bytes::BytesMut::with_capacity(capacity)
}

/// `BytesMut::zeroed`: a buffer of `len` zero bytes. It allocates through
/// `vec!`, which panics past `isize::MAX` bytes.
#[verifier::external_body]
pub(crate) fn bytes_mut_zeroed(len: usize) -> (b: bytes::BytesMut)
    requires
        len <= isize::MAX,
    ensures
        bytes_mut_view(b) == Seq::new(len as nat, |i: int| 0u8),
{
    bytes::BytesMut::zeroed(len)
}

/// `copy_from_slice` into the first bytes of a `BytesMut`, reached through
/// its `DerefMut` to a slice: they are replaced by `src`, the rest stays.
/// The copy panics when `src` is longer than the buffer.
#[verifier::external_body]
pub(crate) fn bytes_mut_overwrite_prefix(b: &mut bytes::BytesMut, src: &[u8])
    requires
        src@.len() <= bytes_mut_view(*old(b)).len(),
    ensures
        bytes_mut_view(*final(b)) == src@ + bytes_mut_view(*old(b)).skip(src@.len() as int),
{
    b[..src.len()].copy_from_slice(src)
}

/// `BytesMut::len`: how many bytes it holds.
#[verifier::external_body]
pub(crate) fn bytes_mut_len(b: &bytes::BytesMut) -> (n: usize)
    ensures
        n == bytes_mut_view(*b).len(),
{
    b.len()
}

/// `BufMut::put_u32` on a `BytesMut`: appends the four big-endian bytes of `n`.
/// It reserves room first, which panics when the length would pass
/// `isize::MAX`; whether the reservation also fails for a smaller length
/// rests on the allocator and on the room that earlier `advance` calls
/// freed at the front, which this contract does not state.
#[verifier::external_body]
pub(crate) fn bytes_mut_put_u32(b: &mut bytes::BytesMut, n: u32)
    requires
        bytes_mut_view(*old(b)).len() + 4 <= isize::MAX,
    ensures
        bytes_mut_view(*final(b)) == bytes_mut_view(*old(b)) + be_u32_bytes(n),
{
    bytes::BufMut::put_u32(b, n)
}

/// `BufMut::put_slice` on a `BytesMut`: appends the bytes of `src`.
/// It reserves room first, which panics when the length would pass
/// `isize::MAX`; whether the reservation also fails for a smaller length
/// rests on the allocator and on the room that earlier `advance` calls
/// freed at the front, which this contract does not state.
#[verifier::external_body]
pub(crate) fn bytes_mut_put_slice(b: &mut bytes::BytesMut, src: &[u8])
    requires
        bytes_mut_view(*old(b)).len() + src@.len() <= isize::MAX,
    ensures
        bytes_mut_view(*final(b)) == bytes_mut_view(*old(b)) + src@,
{
    bytes::BufMut::put_slice(b, src)
}

/// `Buf::advance` on a `BytesMut`: drops the first `cnt` bytes; it asserts
/// that `cnt` is at most the length.
#[verifier::external_body]
pub(crate) fn bytes_mut_advance(b: &mut bytes::BytesMut, cnt: usize)
    requires
        cnt <= bytes_mut_view(*old(b)).len(),
    ensures
        bytes_mut_view(*final(b)) == bytes_mut_view(*old(b)).skip(cnt as int),
{
    bytes::Buf::advance(b, cnt)
}

/// The `Deref` of `BytesMut` to a slice: the bytes it holds.
#[verifier::external_body]
pub(crate) fn bytes_mut_as_slice(b: &bytes::BytesMut) -> (s: &[u8])
    ensures
        s@ == bytes_mut_view(*b),
{
    &b[..]
}

/// `BytesMut::is_empty`: whether it holds no bytes.
#[verifier::external_body]
pub(crate) fn bytes_mut_is_empty(b: &bytes::BytesMut) -> (r: bool)
    ensures
        r == (bytes_mut_view(*b).len() == 0),
{
    b.is_empty()
}

/// The shared, immutable byte buffer of the `bytes` crate.
#[verifier::external_type_specification]
#[verifier::external_body]
pub struct ExBytes(bytes::Bytes);

/// The bytes that a `Bytes` holds, first to last.
pub uninterp spec fn bytes_view(b: bytes::Bytes) -> Seq<u8>;

/// `Bytes::from(Vec<u8>)`: takes over the vector's bytes.
#[verifier::external_body]
pub(crate) fn bytes_from_vec(v: Vec<u8>) -> (b: bytes::Bytes)
    ensures
        bytes_view(b) == v@,
{
    bytes::Bytes::from(v)
}

/// `Bytes::clone`: another handle on the same bytes.
#[verifier::external_body]
pub(crate) fn bytes_clone(b: &bytes::Bytes) -> (c: bytes::Bytes)
    ensures
        bytes_view(c) == bytes_view(*b),
{
    b.clone()
}

/// `to_vec` through the `Deref` of `Bytes` to a slice: a copy of its bytes.
#[verifier::external_body]
pub(crate) fn bytes_to_vec(b: &bytes::Bytes) -> (v: Vec<u8>)
    ensures
        v@ == bytes_view(*b),
{
    b.to_vec()
}

/// `bytes::Buf::copy_to_slice` from a byte slice into a fresh buffer of
/// `len` bytes: the first `len` bytes of `src`. It panics when `src` is shorter.
#[verifier::external_body]
pub(crate) fn copy_prefix(src: &[u8], len: usize) -> (v: Vec<u8>)
    requires
        len <= src@.len(),
    ensures
        v@ == src@.subrange(0, len as int),
{
    let mut s: &[u8] = src;
    let mut dst = vec![0u8; len];
    bytes::Buf::copy_to_slice(&mut s, &mut dst);
    dst
}

/// `String::from_utf8`: the text that `v` encodes when it is valid UTF-8.
#[verifier::external_body]
pub(crate) fn string_from_utf8(v: Vec<u8>) -> (r: Option<String>)
    ensures
        match r {
            Some(s) => vstd::utf8::valid_utf8(v@) && s@ == vstd::utf8::decode_utf8(v@),
            None => !vstd::utf8::valid_utf8(v@),
        },
{
    String::from_utf8(v).ok()
}

} // verus!
