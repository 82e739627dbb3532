//! `ByteStringMut`: a growable UTF-8 string kept in a `BytesMut`, that can be split
//! into parts, joined again, and frozen into shareable `Bytes` without copying.

use vstd::prelude::*;
use vstd::utf8::*;

use bytes::{Bytes, BytesMut};

use crate::buf::{
    bytes_contents, bytes_mut_as_slice, bytes_mut_capacity, bytes_mut_clear, bytes_mut_clone, bytes_mut_contents,
    bytes_mut_extend_from_slice, bytes_mut_freeze, bytes_mut_from_slice, bytes_mut_into_vec, bytes_mut_is_empty,
    bytes_mut_len, bytes_mut_new, bytes_mut_reserve, bytes_mut_split, bytes_mut_split_off,
    bytes_mut_split_to, bytes_mut_truncate, bytes_mut_try_reclaim, bytes_mut_unsplit, bytes_mut_write_str,
    bytes_mut_with_capacity,
};
use crate::encoding::{char_boundary, encode_char, lemma_char_boundary_within};
use crate::laws::lemma_decode_utf8_concat;
use crate::text::{str_from_utf8, string_from_utf8, utf8_check_error};
use std::str::Utf8Error;
use std::string::String;

verus! {

broadcast use vstd::seq::group_seq_axioms;

/// What a `ByteStringMut` may hold: valid UTF-8 of at most `isize::MAX` bytes
/// (the limit of any one allocation).
pub open spec fn valid_contents(bytes: Seq<u8>) -> bool {
    valid_utf8(bytes) && bytes.len() <= isize::MAX
}

/// The text of a string slice.
pub open spec fn str_text(s: &str) -> Seq<char> {
    s@
}

/// The bytes of a byte slice.
pub open spec fn slice_bytes(b: &[u8]) -> Seq<u8> {
    b@
}

/// A mutable string: a `BytesMut` whose bytes are always valid UTF-8.
///
/// Its view is the sequence of its bytes. It is ordered, and hashed, by its bytes.
#[derive(Hash, Ord)]
pub struct ByteStringMut {
    inner: BytesMut,
}

impl View for ByteStringMut {
    type V = Seq<u8>;

    closed spec fn view(&self) -> Seq<u8> {
        bytes_mut_contents(self.inner)
    }
}

impl ByteStringMut {
    /// Every `ByteStringMut` holds valid UTF-8 (and, like any buffer, at most
    /// `isize::MAX` bytes).
    #[verifier::type_invariant]
    spec fn holds_utf8(self) -> bool {
        valid_contents(bytes_mut_contents(self.inner))
    }

    /// The text held: the `char`s that the bytes encode.
    pub open spec fn text(&self) -> Seq<char> {
        decode_utf8(self@)
    }

    /// Creates an empty `ByteStringMut` that can hold at least `capacity` bytes
    /// without reallocating.
    pub fn with_capacity(capacity: usize) -> (s: Self)
        requires
            capacity <= isize::MAX,
        ensures
            s@ == Seq::<u8>::empty(),
            valid_contents(s@),
    {
        ByteStringMut { inner: bytes_mut_with_capacity(capacity) }
    }

    /// Creates an empty `ByteStringMut`; this does not allocate.
    pub fn new() -> (s: Self)
        ensures
            s@ == Seq::<u8>::empty(),
            valid_contents(s@),
    {
        ByteStringMut { inner: bytes_mut_new() }
    }

    /// Creates a `ByteStringMut` from a `BytesMut` without checking its bytes.
    /// The bytes must be valid UTF-8.
    pub fn from_utf8_unchecked(src: BytesMut) -> (s: Self)
        requires
            valid_utf8(bytes_mut_contents(src)),
        ensures
            s@ == bytes_mut_contents(src),
            valid_contents(s@),
    {
        // learns the allocation limit on the length
        let _len: usize = bytes_mut_len(&src);
        ByteStringMut { inner: src }
    }

    /// Creates a `ByteStringMut` from a `BytesMut` when its bytes are valid UTF-8,
    /// taking the buffer over without copying; otherwise fails with the standard
    /// library's UTF-8 error for those bytes.
    pub fn from_utf8(src: BytesMut) -> (r: Result<Self, Utf8Error>)
        ensures
            r is Ok <==> valid_utf8(bytes_mut_contents(src)),
            r matches Ok(s) ==> s@ == bytes_mut_contents(src),
            r matches Err(e) ==> e == utf8_check_error(bytes_mut_contents(src)),
    {
        let checked: Result<(), Utf8Error> = match str_from_utf8(bytes_mut_as_slice(&src)) {
            Ok(_) => Ok(()),
            Err(e) => Err(e),
        };
        match checked {
            Ok(()) => Ok(ByteStringMut::from_utf8_unchecked(src)),
            Err(e) => Err(e),
        }
    }

    /// The number of bytes held.
    pub fn len(&self) -> (n: usize)
        ensures
            n == self@.len(),
            valid_contents(self@),
    {
        proof {
            use_type_invariant(self);
        }
        bytes_mut_len(&self.inner)
    }

    /// Whether no byte is held.
    pub fn is_empty(&self) -> (e: bool)
        ensures
            e == (self@.len() == 0),
            valid_contents(self@),
    {
        proof {
            use_type_invariant(self);
        }
        bytes_mut_is_empty(&self.inner)
    }

    /// The number of bytes that can be held without reallocating.
    ///
    /// Only `capacity >= len` is stated: the value is what the allocator and
    /// earlier splits gave, which this library does not model.
    pub fn capacity(&self) -> (c: usize)
        ensures
            c >= self@.len(),
            valid_contents(self@),
    {
        proof {
            use_type_invariant(self);
        }
        bytes_mut_capacity(&self.inner)
    }

    /// Whether `at` is a `char` boundary: `0`, the length, or the index of the
    /// first byte of a `char`. The split operations demand one.
    pub fn is_char_boundary(&self, at: usize) -> (b: bool)
        ensures
            b == is_char_boundary(self@, at as int),
            valid_contents(self@),
    {
        proof {
            use_type_invariant(self);
        }
        char_boundary(bytes_mut_as_slice(&self.inner), at)
    }

    /// The buffer that holds the bytes.
    pub(crate) fn buffer(&self) -> (b: &BytesMut)
        ensures
            bytes_mut_contents(*b) == self@,
    {
        &self.inner
    }

    /// The bytes held, as a slice.
    pub fn as_bytes(&self) -> (b: &[u8])
        ensures
            b@ == self@,
            valid_contents(self@),
    {
        proof {
            use_type_invariant(self);
        }
        bytes_mut_as_slice(&self.inner)
    }

    /// The text held, as a string slice. The bytes are checked to be UTF-8 on the
    /// way, which the type invariant proves always succeeds.
    pub fn as_str(&self) -> (s: &str)
        ensures
            s@ == self.text(),
            encode_utf8(s@) == self@,
            valid_contents(self@),
    {
        proof {
            use_type_invariant(self);
            decode_utf8_encode_utf8(self@);
        }
        match str_from_utf8(bytes_mut_as_slice(&self.inner)) {
            Ok(s) => s,
            // unreachable: the bytes are valid UTF-8
            Err(_) => "",
        }
    }

    /// The text held, copied into a new `String` (what formatting the string
    /// writes).
    pub fn to_string(&self) -> (s: String)
        ensures
            s@ == self.text(),
    {
        self.as_str().to_owned()
    }

    /// Converts into an immutable, shareable `Bytes` holding the same bytes, which
    /// are UTF-8, without copying.
    pub fn freeze(self) -> (r: Bytes)
        ensures
            bytes_contents(r) == self@,
            valid_contents(bytes_contents(r)),
    {
        proof {
            use_type_invariant(&self);
        }
        let ByteStringMut { inner } = self;
        bytes_mut_freeze(inner)
    }

    /// Splits at `at`: afterwards `self` holds the bytes before `at` and the result
    /// holds the bytes from `at` on. `at` must be a `char` boundary.
    pub fn split_off(&mut self, at: usize) -> (tail: Self)
        requires
            is_char_boundary(old(self)@, at as int),
        ensures
            final(self)@ == old(self)@.subrange(0, at as int),
            tail@ == old(self)@.subrange(at as int, old(self)@.len() as int),
            final(self).text() + tail.text() == old(self).text(),
            valid_contents(final(self)@),
            valid_contents(tail@),
    {
        proof {
            use_type_invariant(&*self);
            lemma_char_boundary_within(self@, at as int);
            valid_utf8_split(self@, at as int);
            decode_utf8_split(self@, at as int);
        }
        let mut inner = bytes_mut_new();
        core::mem::swap(&mut inner, &mut self.inner);
        let tail = bytes_mut_split_off(&mut inner, at);
        self.inner = inner;
        ByteStringMut { inner: tail }
    }

    /// Takes all bytes: afterwards `self` is empty (keeping its spare capacity) and
    /// the result holds what `self` held.
    pub fn split(&mut self) -> (all: Self)
        ensures
            final(self)@ == Seq::<u8>::empty(),
            all@ == old(self)@,
            valid_contents(all@),
    {
        proof {
            use_type_invariant(&*self);
        }
        let mut inner = bytes_mut_new();
        core::mem::swap(&mut inner, &mut self.inner);
        let all = bytes_mut_split(&mut inner);
        self.inner = inner;
        ByteStringMut { inner: all }
    }

    /// Splits at `at`: afterwards the result holds the bytes before `at` and `self`
    /// holds the bytes from `at` on. `at` must be a `char` boundary.
    pub fn split_to(&mut self, at: usize) -> (head: Self)
        requires
            is_char_boundary(old(self)@, at as int),
        ensures
            head@ == old(self)@.subrange(0, at as int),
            final(self)@ == old(self)@.subrange(at as int, old(self)@.len() as int),
            head.text() + final(self).text() == old(self).text(),
            valid_contents(final(self)@),
            valid_contents(head@),
    {
        proof {
            use_type_invariant(&*self);
            lemma_char_boundary_within(self@, at as int);
            valid_utf8_split(self@, at as int);
            decode_utf8_split(self@, at as int);
        }
        let mut inner = bytes_mut_new();
        core::mem::swap(&mut inner, &mut self.inner);
        let head = bytes_mut_split_to(&mut inner, at);
        self.inner = inner;
        ByteStringMut { inner: head }
    }

    /// Keeps the first `len` bytes; does nothing when `len` exceeds the length.
    /// A `len` within the length must be a `char` boundary.
    pub fn truncate(&mut self, len: usize)
        requires
            len > old(self)@.len() || is_char_boundary(old(self)@, len as int),
        ensures
            final(self)@ == (if len <= old(self)@.len() {
                old(self)@.subrange(0, len as int)
            } else {
                old(self)@
            }),
            valid_contents(final(self)@),
    {
        proof {
            use_type_invariant(&*self);
            if len <= self@.len() {
                valid_utf8_split(self@, len as int);
            }
        }
        if len <= self.len() {
            let mut inner = bytes_mut_new();
            core::mem::swap(&mut inner, &mut self.inner);
            bytes_mut_truncate(&mut inner, len);
            self.inner = inner;
        }
    }

    /// Removes all bytes, keeping the capacity.
    pub fn clear(&mut self)
        ensures
            final(self)@ == Seq::<u8>::empty(),
            valid_contents(final(self)@),
    {
        let mut inner = bytes_mut_new();
        core::mem::swap(&mut inner, &mut self.inner);
        bytes_mut_clear(&mut inner);
        self.inner = inner;
    }

    /// Reserves room for at least `additional` more bytes; the bytes held are kept.
    ///
    /// Only the kept bytes are stated; the capacity reached is the allocator's
    /// business, which this library does not model.
    pub fn reserve(&mut self, additional: usize)
        requires
            old(self)@.len() + additional <= isize::MAX,
        ensures
            final(self)@ == old(self)@,
            valid_contents(final(self)@),
    {
        proof {
            use_type_invariant(&*self);
        }
        let mut inner = bytes_mut_new();
        core::mem::swap(&mut inner, &mut self.inner);
        bytes_mut_reserve(&mut inner, additional);
        self.inner = inner;
    }

    /// Tries to make room for `additional` more bytes without allocating, by
    /// reclaiming the buffer's own allocation; returns whether it succeeded. The
    /// bytes held are kept either way.
    ///
    /// Asking for no room always succeeds. Otherwise whether it succeeds depends
    /// on the capacity and on other handles to the same allocation, which this
    /// library does not model, so the result is not stated.
    pub fn try_reclaim(&mut self, additional: usize) -> (ok: bool)
        ensures
            final(self)@ == old(self)@,
            additional == 0 ==> ok,
            valid_contents(final(self)@),
    {
        proof {
            use_type_invariant(&*self);
        }
        let mut inner = bytes_mut_new();
        core::mem::swap(&mut inner, &mut self.inner);
        let ok = bytes_mut_try_reclaim(&mut inner, additional);
        self.inner = inner;
        ok
    }

    /// Appends the UTF-8 bytes of `s`.
    pub fn push_str(&mut self, s: &str)
        requires
            old(self)@.len() + encode_utf8(s@).len() <= isize::MAX,
        ensures
            final(self)@ == old(self)@ + encode_utf8(s@),
            final(self).text() == old(self).text() + s@,
            valid_contents(final(self)@),
    {
        proof {
            use_type_invariant(&*self);
            encode_utf8_valid_utf8(s@);
            lemma_decode_utf8_concat(self@, encode_utf8(s@));
            encode_utf8_decode_utf8(s@);
        }
        let mut inner = bytes_mut_new();
        core::mem::swap(&mut inner, &mut self.inner);
        bytes_mut_extend_from_slice(&mut inner, s.as_bytes());
        self.inner = inner;
    }

    /// Appends the UTF-8 encoding of `ch` (1 to 4 bytes).
    pub fn push(&mut self, ch: char)
        requires
            old(self)@.len() + encode_utf8(seq![ch]).len() <= isize::MAX,
        ensures
            final(self)@ == old(self)@ + encode_utf8(seq![ch]),
            final(self).text() == old(self).text().push(ch),
            valid_contents(final(self)@),
    {
        proof {
            use_type_invariant(&*self);
            encode_utf8_valid_utf8(seq![ch]);
            lemma_decode_utf8_concat(self@, encode_utf8(seq![ch]));
            encode_utf8_decode_utf8(seq![ch]);
            assert(self.text() + seq![ch] =~= self.text().push(ch));
        }
        let encoded = encode_char(ch);
        let mut inner = bytes_mut_new();
        core::mem::swap(&mut inner, &mut self.inner);
        bytes_mut_extend_from_slice(&mut inner, encoded.as_slice());
        self.inner = inner;
    }

    /// Appends the bytes of `other`; in O(1) when `other` was split off from
    /// `self` and neither was reallocated since.
    pub fn unsplit(&mut self, other: Self)
        requires
            old(self)@.len() + other@.len() <= isize::MAX,
        ensures
            final(self)@ == old(self)@ + other@,
            final(self).text() == old(self).text() + other.text(),
            valid_contents(final(self)@),
    {
        proof {
            use_type_invariant(&*self);
            use_type_invariant(&other);
            lemma_decode_utf8_concat(self@, other@);
        }
        let ByteStringMut { inner: other_inner } = other;
        let mut inner = bytes_mut_new();
        core::mem::swap(&mut inner, &mut self.inner);
        bytes_mut_unsplit(&mut inner, other_inner);
        self.inner = inner;
    }
}


impl Clone for ByteStringMut {
    /// Copies the bytes into a new buffer.
    fn clone(&self) -> (c: Self)
        ensures
            c@ == self@,
    {
        proof {
            use_type_invariant(self);
        }
        ByteStringMut { inner: bytes_mut_clone(&self.inner) }
    }
}

impl Default for ByteStringMut {
    /// An empty `ByteStringMut`.
    fn default() -> (s: Self)
        ensures
            s@ == Seq::<u8>::empty(),
    {
        ByteStringMut::new()
    }
}

impl core::ops::Deref for ByteStringMut {
    type Target = str;

    fn deref(&self) -> (s: &str)
        ensures
            s@ == self.text(),
    {
        self.as_str()
    }
}

impl AsRef<str> for ByteStringMut {
    fn as_ref(&self) -> (s: &str)
        ensures
            str_text(s) == self.text(),
    {
        self.as_str()
    }
}

impl AsRef<[u8]> for ByteStringMut {
    fn as_ref(&self) -> (b: &[u8])
        ensures
            slice_bytes(b) == self@,
    {
        self.as_bytes()
    }
}

impl core::borrow::Borrow<str> for ByteStringMut {
    fn borrow(&self) -> (s: &str)
        ensures
            str_text(s) == self.text(),
    {
        self.as_str()
    }
}


impl From<&str> for ByteStringMut {
    /// Copies the UTF-8 bytes of `src`.
    fn from(src: &str) -> (s: Self)
        ensures
            s@ == encode_utf8(src@),
            s.text() == src@,
    {
        proof {
            encode_utf8_valid_utf8(src@);
            encode_utf8_decode_utf8(src@);
        }
        let inner = bytes_mut_from_slice(src.as_bytes());
        let _len: usize = bytes_mut_len(&inner);
        ByteStringMut { inner }
    }
}

/// A `ByteStringMut` is not a function of the text it was made from (its capacity
/// is not), so `from` follows no spec function; its own `ensures` says what it gives.
impl vstd::std_specs::convert::FromSpecImpl<&str> for ByteStringMut {
    open spec fn obeys_from_spec() -> bool {
        false
    }

    open spec fn from_spec(src: &str) -> Self {
        arbitrary()
    }
}

impl TryFrom<&[u8]> for ByteStringMut {
    type Error = Utf8Error;

    /// Copies `src` when it is valid UTF-8, and fails with the standard library's
    /// UTF-8 error when it is not.
    fn try_from(src: &[u8]) -> (r: Result<Self, Utf8Error>)
        ensures
            r is Ok <==> valid_utf8(src@),
            r matches Ok(s) ==> s@ == src@,
            r matches Err(e) ==> e == utf8_check_error(src@),
    {
        match str_from_utf8(src) {
            Ok(text) => {
                proof {
                    decode_utf8_encode_utf8(src@);
                    encode_utf8_valid_utf8(text@);
                }
                let inner = bytes_mut_from_slice(text.as_bytes());
                let _len: usize = bytes_mut_len(&inner);
                Ok(ByteStringMut { inner })
            },
            Err(e) => Err(e),
        }
    }
}

/// A `ByteStringMut` is not a function of the bytes it was made from (its capacity
/// is not), so `try_from` follows no spec function; its own `ensures` says what it
/// gives.
impl vstd::std_specs::convert::TryFromSpecImpl<&[u8]> for ByteStringMut {
    open spec fn obeys_try_from_spec() -> bool {
        false
    }

    open spec fn try_from_spec(src: &[u8]) -> Result<Self, Utf8Error> {
        arbitrary()
    }
}

impl From<ByteStringMut> for String {
    /// The text, as a `String` that takes over the bytes.
    fn from(src: ByteStringMut) -> (s: String)
        ensures
            s@ == src.text(),
    {
        proof {
            use_type_invariant(&src);
        }
        let ByteStringMut { inner } = src;
        match string_from_utf8(bytes_mut_into_vec(inner)) {
            Ok(s) => s,
            // unreachable: the bytes are valid UTF-8
            Err(_) => String::new(),
        }
    }
}

/// A `String` equals another only when they are the same value, which the text
/// does not fix, so `from` follows no spec function; its own `ensures` says what it
/// gives.
impl vstd::std_specs::convert::FromSpecImpl<ByteStringMut> for String {
    open spec fn obeys_from_spec() -> bool {
        false
    }

    open spec fn from_spec(src: ByteStringMut) -> Self {
        arbitrary()
    }
}

impl core::fmt::Write for ByteStringMut {
    /// Appends `s` when the result stays within `isize::MAX` bytes, and fails
    /// without change otherwise.
    fn write_str(&mut self, s: &str) -> (r: core::fmt::Result)
        ensures
            r is Ok <==> old(self)@.len() + encode_utf8(s@).len() <= isize::MAX,
            r is Ok ==> final(self)@ == old(self)@ + encode_utf8(s@),
            r is Ok ==> final(self).text() == old(self).text() + s@,
            r is Err ==> final(self)@ == old(self)@,
            valid_contents(final(self)@),
    {
        proof {
            use_type_invariant(&*self);
            encode_utf8_valid_utf8(s@);
            lemma_decode_utf8_concat(self@, encode_utf8(s@));
            encode_utf8_decode_utf8(s@);
        }
        let mut inner = bytes_mut_new();
        core::mem::swap(&mut inner, &mut self.inner);
        let r = bytes_mut_write_str(&mut inner, s);
        self.inner = inner;
        r
    }
}

} // verus!
