//! The `bytes::BytesMut` buffer as this library sees it: its contents, and the
//! methods of it that the library calls, each with what it does to the contents.

use vstd::prelude::*;
use vstd::utf8::encode_utf8;

use bytes::{Bytes, BytesMut};

verus! {

/// The growable byte buffer of the `bytes` crate.
#[verifier::external_type_specification]
#[verifier::external_body]
pub struct ExBytesMut(BytesMut);

/// The immutable, cheaply cloned byte buffer of the `bytes` crate.
#[verifier::external_type_specification]
#[verifier::external_body]
pub struct ExBytes(Bytes);

/// The bytes that a `Bytes` holds, in order.
pub uninterp spec fn bytes_contents(b: Bytes) -> Seq<u8>;

/// The bytes that a `BytesMut` holds, in order (its `len()` bytes, not its spare
/// capacity).
pub uninterp spec fn bytes_mut_contents(b: BytesMut) -> Seq<u8>;

/// Calls `BytesMut::new`, which returns an empty buffer and does not allocate.
#[verifier::external_body]
pub(crate) fn bytes_mut_new() -> (b: BytesMut)
    ensures
        bytes_mut_contents(b) == Seq::<u8>::empty(),
{
    BytesMut::new()
}

/// Calls `BytesMut::with_capacity`, which returns an empty buffer. It allocates
/// through `Vec::with_capacity`, which panics above `isize::MAX` bytes; the
/// `requires` leaves those sizes out. How much it allocates is not stated.
#[verifier::external_body]
pub(crate) fn bytes_mut_with_capacity(capacity: usize) -> (b: BytesMut)
    requires
        capacity <= isize::MAX,
    ensures
        bytes_mut_contents(b) == Seq::<u8>::empty(),
{
    BytesMut::with_capacity(capacity)
}

/// Calls `BytesMut::from(&[u8])`, which copies the slice into a new buffer.
#[verifier::external_body]
pub(crate) fn bytes_mut_from_slice(s: &[u8]) -> (b: BytesMut)
    ensures
        bytes_mut_contents(b) == s@,
{
    BytesMut::from(s)
}

/// Calls `BytesMut::len`: the number of bytes held. The bytes lie in one
/// allocation, which Rust limits to `isize::MAX` bytes.
#[verifier::external_body]
pub(crate) fn bytes_mut_len(b: &BytesMut) -> (n: usize)
    ensures
        n == bytes_mut_contents(*b).len(),
        n <= isize::MAX,
{
    b.len()
}

/// Calls `BytesMut::is_empty`: whether no byte is held.
#[verifier::external_body]
pub(crate) fn bytes_mut_is_empty(b: &BytesMut) -> (e: bool)
    ensures
        e == (bytes_mut_contents(*b).len() == 0),
{
    b.is_empty()
}

/// Calls `BytesMut::capacity`. The source keeps `len <= cap` at all times; that
/// is all that is claimed here. The value itself depends on how the allocator and
/// earlier splits sized the buffer, which no clause states.
#[verifier::external_body]
pub(crate) fn bytes_mut_capacity(b: &BytesMut) -> (c: usize)
    ensures
        c >= bytes_mut_contents(*b).len(),
{
    b.capacity()
}

/// Calls `<BytesMut as AsRef<[u8]>>::as_ref`: the held bytes as a slice.
#[verifier::external_body]
pub(crate) fn bytes_mut_as_slice(b: &BytesMut) -> (s: &[u8])
    ensures
        s@ == bytes_mut_contents(*b),
{
    b.as_ref()
}

/// Calls `BytesMut::split_off`. Afterwards `b` holds the bytes before `at` and the
/// result holds the rest. It panics only when `at` exceeds the capacity, which is
/// at least the length; the `requires` keeps `at` within the length.
#[verifier::external_body]
pub(crate) fn bytes_mut_split_off(b: &mut BytesMut, at: usize) -> (tail: BytesMut)
    requires
        at <= bytes_mut_contents(*old(b)).len(),
    ensures
        bytes_mut_contents(*final(b)) == bytes_mut_contents(*old(b)).subrange(0, at as int),
        bytes_mut_contents(tail) == bytes_mut_contents(*old(b)).subrange(
            at as int,
            bytes_mut_contents(*old(b)).len() as int,
        ),
{
    b.split_off(at)
}

/// Calls `BytesMut::split`: the result takes all held bytes and `b` is left empty.
#[verifier::external_body]
pub(crate) fn bytes_mut_split(b: &mut BytesMut) -> (all: BytesMut)
    ensures
        bytes_mut_contents(*final(b)) == Seq::<u8>::empty(),
        bytes_mut_contents(all) == bytes_mut_contents(*old(b)),
{
    b.split()
}

/// Calls `BytesMut::split_to`. Afterwards the result holds the bytes before `at`
/// and `b` holds the rest. It panics when `at` exceeds the length, which the
/// `requires` leaves out.
#[verifier::external_body]
pub(crate) fn bytes_mut_split_to(b: &mut BytesMut, at: usize) -> (head: BytesMut)
    requires
        at <= bytes_mut_contents(*old(b)).len(),
    ensures
        bytes_mut_contents(head) == bytes_mut_contents(*old(b)).subrange(0, at as int),
        bytes_mut_contents(*final(b)) == bytes_mut_contents(*old(b)).subrange(
            at as int,
            bytes_mut_contents(*old(b)).len() as int,
        ),
{
    b.split_to(at)
}

/// Calls `BytesMut::truncate`: keeps the first `len` bytes, and does nothing when
/// `len` is not below the length.
#[verifier::external_body]
pub(crate) fn bytes_mut_truncate(b: &mut BytesMut, len: usize)
    ensures
        bytes_mut_contents(*final(b)) == (if len <= bytes_mut_contents(*old(b)).len() {
            bytes_mut_contents(*old(b)).subrange(0, len as int)
        } else {
            bytes_mut_contents(*old(b))
        }),
{
    b.truncate(len)
}

/// Calls `BytesMut::clear`: no byte is left.
#[verifier::external_body]
pub(crate) fn bytes_mut_clear(b: &mut BytesMut)
    ensures
        bytes_mut_contents(*final(b)) == Seq::<u8>::empty(),
{
    b.clear()
}

/// Calls `BytesMut::reserve`, which keeps the held bytes and may move them to a
/// larger allocation. It panics when the new size overflows; the `requires` keeps
/// the length plus `additional` within `isize::MAX`. When the buffer is a view
/// into a larger shared allocation, the source also adds the view's offset in it,
/// which no clause here can state; the capacity reached is not stated either.
#[verifier::external_body]
pub(crate) fn bytes_mut_reserve(b: &mut BytesMut, additional: usize)
    requires
        bytes_mut_contents(*old(b)).len() + additional <= isize::MAX,
    ensures
        bytes_mut_contents(*final(b)) == bytes_mut_contents(*old(b)),
{
    b.reserve(additional)
}

/// Calls `BytesMut::try_reclaim`, which never allocates and keeps the held bytes.
/// It succeeds at once when the spare capacity covers `additional`, so always for
/// `0`; otherwise whether it succeeds depends on the capacity and on other handles
/// to the same allocation, which no clause here can state.
#[verifier::external_body]
pub(crate) fn bytes_mut_try_reclaim(b: &mut BytesMut, additional: usize) -> (ok: bool)
    ensures
        bytes_mut_contents(*final(b)) == bytes_mut_contents(*old(b)),
        additional == 0 ==> ok,
{
    b.try_reclaim(additional)
}

/// Calls `BytesMut::extend_from_slice`: appends the slice's bytes, reserving room
/// first (see `bytes_mut_reserve` for what the `requires` leaves out).
#[verifier::external_body]
pub(crate) fn bytes_mut_extend_from_slice(b: &mut BytesMut, s: &[u8])
    requires
        bytes_mut_contents(*old(b)).len() + s@.len() <= isize::MAX,
    ensures
        bytes_mut_contents(*final(b)) == bytes_mut_contents(*old(b)) + s@,
{
    b.extend_from_slice(s)
}

/// Calls `BytesMut::unsplit`: appends the bytes of `other`, in O(1) when the two
/// were split from one allocation, else by `extend_from_slice`.
#[verifier::external_body]
pub(crate) fn bytes_mut_unsplit(b: &mut BytesMut, other: BytesMut)
    requires
        bytes_mut_contents(*old(b)).len() + bytes_mut_contents(other).len() <= isize::MAX,
    ensures
        bytes_mut_contents(*final(b)) == bytes_mut_contents(*old(b)) + bytes_mut_contents(other),
{
    b.unsplit(other)
}

/// Calls `<BytesMut as core::fmt::Write>::write_str`, which appends the UTF-8
/// bytes of `s` when the length stays within `isize::MAX` (its `remaining_mut`)
/// and otherwise fails without change (see `bytes_mut_reserve` for what is left
/// unsaid about the appending).
#[verifier::external_body]
pub(crate) fn bytes_mut_write_str(b: &mut BytesMut, s: &str) -> (r: std::fmt::Result)
    ensures
        r is Ok <==> bytes_mut_contents(*old(b)).len() + encode_utf8(s@).len() <= isize::MAX,
        r is Ok ==> bytes_mut_contents(*final(b)) == bytes_mut_contents(*old(b)) + encode_utf8(
            s@,
        ),
        r is Err ==> bytes_mut_contents(*final(b)) == bytes_mut_contents(*old(b)),
{
    std::fmt::Write::write_str(b, s)
}

/// Calls `<BytesMut as Clone>::clone`, which copies the held bytes into a new
/// buffer.
#[verifier::external_body]
pub(crate) fn bytes_mut_clone(b: &BytesMut) -> (c: BytesMut)
    ensures
        bytes_mut_contents(c) == bytes_mut_contents(*b),
{
    b.clone()
}

/// Calls `BytesMut::freeze`, which turns the buffer into an immutable `Bytes`
/// holding the same bytes, without copying.
#[verifier::external_body]
pub(crate) fn bytes_mut_freeze(b: BytesMut) -> (f: Bytes)
    ensures
        bytes_contents(f) == bytes_mut_contents(b),
{
    b.freeze()
}

/// Calls `<Vec<u8> as From<BytesMut>>::from`: the held bytes as a vector.
#[verifier::external_body]
pub(crate) fn bytes_mut_into_vec(b: BytesMut) -> (v: Vec<u8>)
    ensures
        v@ == bytes_mut_contents(b),
{
    Vec::from(b)
}

} // verus!
