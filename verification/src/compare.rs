//! Equality and ordering of a `ByteStringMut` with itself, with string slices,
//! `String`s, `BytesMut` and `Bytes`: by their bytes, ordered lexicographically,
//! as the `bytes` crate compares its buffers.

use vstd::prelude::*;
use vstd::std_specs::cmp::{PartialEqSpec, PartialEqSpecImpl, PartialOrdSpec, PartialOrdSpecImpl};
use vstd::utf8::encode_utf8;

use bytes::{Bytes, BytesMut};
use core::cmp::Ordering;
use std::string::String;

use crate::buf::{bytes_contents, bytes_mut_contents};
use crate::string_mut::ByteStringMut;

verus! {

/// The lexicographic order of two byte sequences: the first differing byte
/// decides, and a proper prefix comes first.
pub open spec fn lex_order(a: Seq<u8>, b: Seq<u8>) -> Ordering
    decreases a.len(),
{
    if a.len() == 0 {
        if b.len() == 0 {
            Ordering::Equal
        } else {
            Ordering::Less
        }
    } else if b.len() == 0 {
        Ordering::Greater
    } else if a[0] < b[0] {
        Ordering::Less
    } else if a[0] > b[0] {
        Ordering::Greater
    } else {
        lex_order(a.drop_first(), b.drop_first())
    }
}

/// Two strings are ordered `Equal` exactly when they are equal: the order agrees
/// with `==`.
pub proof fn lemma_order_equal_iff_eq(a: Seq<u8>, b: Seq<u8>)
    ensures
        (lex_order(a, b) == Ordering::Equal) <==> (a == b),
    decreases a.len(),
{
    if a.len() > 0 && b.len() > 0 && a[0] == b[0] {
        lemma_order_equal_iff_eq(a.drop_first(), b.drop_first());
        if a.drop_first() == b.drop_first() {
            assert(a =~= seq![a[0]] + a.drop_first());
            assert(b =~= seq![b[0]] + b.drop_first());
        }
    } else if a.len() > 0 && b.len() > 0 {
        assert(a[0] != b[0]);
    } else if a.len() == 0 && b.len() == 0 {
        assert(a =~= b);
    }
}

/// Swapping the two strings swaps `Less` and `Greater`.
pub proof fn lemma_order_antisymmetric(a: Seq<u8>, b: Seq<u8>)
    ensures
        (lex_order(a, b) == Ordering::Less) <==> (lex_order(b, a) == Ordering::Greater),
    decreases a.len(),
{
    if a.len() > 0 && b.len() > 0 && a[0] == b[0] {
        lemma_order_antisymmetric(a.drop_first(), b.drop_first());
    }
}

/// Comparing the other way round gives the reversed order: a mirrored comparison
/// (`str` against `ByteStringMut` and back, and so on) gives `Less` for `Greater`,
/// `Greater` for `Less` and `Equal` for `Equal`.
pub proof fn lemma_order_reversed(a: Seq<u8>, b: Seq<u8>)
    ensures
        lex_order(b, a) == (match lex_order(a, b) {
            Ordering::Less => Ordering::Greater,
            Ordering::Equal => Ordering::Equal,
            Ordering::Greater => Ordering::Less,
        }),
{
    lemma_order_antisymmetric(a, b);
    lemma_order_antisymmetric(b, a);
    lemma_order_equal_iff_eq(a, b);
    lemma_order_equal_iff_eq(b, a);
}

/// The order is transitive: a string before a second one that is before a third
/// one is before the third.
pub proof fn lemma_order_transitive(a: Seq<u8>, b: Seq<u8>, c: Seq<u8>)
    requires
        lex_order(a, b) == Ordering::Less,
        lex_order(b, c) == Ordering::Less,
    ensures
        lex_order(a, c) == Ordering::Less,
    decreases a.len(),
{
    if a.len() > 0 && b.len() > 0 && c.len() > 0 && a[0] == b[0] && b[0] == c[0] {
        lemma_order_transitive(a.drop_first(), b.drop_first(), c.drop_first());
    }
}

/// Calls `<BytesMut as PartialEq>::eq`, which compares the held bytes.
#[verifier::external_body]
fn bytes_mut_eq(a: &BytesMut, b: &BytesMut) -> (r: bool)
    ensures
        r == (bytes_mut_contents(*a) == bytes_mut_contents(*b)),
{
    a.eq(b)
}

/// Calls `<BytesMut as PartialEq<str>>::eq`, which compares the held bytes with the
/// UTF-8 bytes of the string.
#[verifier::external_body]
fn bytes_mut_eq_str(a: &BytesMut, s: &str) -> (r: bool)
    ensures
        r == (bytes_mut_contents(*a) == encode_utf8(s@)),
{
    a.eq(s)
}

/// Calls `<str as PartialEq<BytesMut>>::eq`, which compares the UTF-8 bytes of the
/// string with the held bytes.
#[verifier::external_body]
fn str_eq_bytes_mut(s: &str, a: &BytesMut) -> (r: bool)
    ensures
        r == (encode_utf8(s@) == bytes_mut_contents(*a)),
{
    s.eq(a)
}

/// Calls `<BytesMut as PartialEq<String>>::eq`, which compares the held bytes with
/// the UTF-8 bytes of the string.
#[verifier::external_body]
fn bytes_mut_eq_string(a: &BytesMut, s: &String) -> (r: bool)
    ensures
        r == (bytes_mut_contents(*a) == encode_utf8(s@)),
{
    a.eq(s)
}

/// Calls `<String as PartialEq<BytesMut>>::eq`, which compares the UTF-8 bytes of
/// the string with the held bytes.
#[verifier::external_body]
fn string_eq_bytes_mut(s: &String, a: &BytesMut) -> (r: bool)
    ensures
        r == (encode_utf8(s@) == bytes_mut_contents(*a)),
{
    s.eq(a)
}

/// Calls `<BytesMut as PartialEq<Bytes>>::eq`, which compares the held bytes.
#[verifier::external_body]
fn bytes_mut_eq_bytes(a: &BytesMut, b: &Bytes) -> (r: bool)
    ensures
        r == (bytes_mut_contents(*a) == bytes_contents(*b)),
{
    a.eq(b)
}

/// Calls `<Bytes as PartialEq<BytesMut>>::eq`, which compares the held bytes.
#[verifier::external_body]
fn bytes_eq_bytes_mut(b: &Bytes, a: &BytesMut) -> (r: bool)
    ensures
        r == (bytes_contents(*b) == bytes_mut_contents(*a)),
{
    b.eq(a)
}

/// Calls `<BytesMut as PartialOrd>::partial_cmp`, which orders the held bytes
/// lexicographically (the order of byte slices).
#[verifier::external_body]
fn bytes_mut_partial_cmp(a: &BytesMut, b: &BytesMut) -> (r: Option<Ordering>)
    ensures
        r == Some(lex_order(bytes_mut_contents(*a), bytes_mut_contents(*b))),
{
    a.partial_cmp(b)
}

/// Calls `<BytesMut as PartialOrd<str>>::partial_cmp`, which orders the held bytes
/// and the UTF-8 bytes of the string lexicographically.
#[verifier::external_body]
fn bytes_mut_partial_cmp_str(a: &BytesMut, s: &str) -> (r: Option<Ordering>)
    ensures
        r == Some(lex_order(bytes_mut_contents(*a), encode_utf8(s@))),
{
    a.partial_cmp(s)
}

/// Calls `<str as PartialOrd<BytesMut>>::partial_cmp`, which orders the UTF-8 bytes
/// of the string and the held bytes lexicographically.
#[verifier::external_body]
fn str_partial_cmp_bytes_mut(s: &str, a: &BytesMut) -> (r: Option<Ordering>)
    ensures
        r == Some(lex_order(encode_utf8(s@), bytes_mut_contents(*a))),
{
    s.partial_cmp(a)
}

/// Calls `<BytesMut as PartialOrd<String>>::partial_cmp`, which orders the held
/// bytes and the UTF-8 bytes of the string lexicographically.
#[verifier::external_body]
fn bytes_mut_partial_cmp_string(a: &BytesMut, s: &String) -> (r: Option<Ordering>)
    ensures
        r == Some(lex_order(bytes_mut_contents(*a), encode_utf8(s@))),
{
    a.partial_cmp(s)
}

/// Calls `<String as PartialOrd<BytesMut>>::partial_cmp`, which orders the UTF-8
/// bytes of the string and the held bytes lexicographically.
#[verifier::external_body]
fn string_partial_cmp_bytes_mut(s: &String, a: &BytesMut) -> (r: Option<Ordering>)
    ensures
        r == Some(lex_order(encode_utf8(s@), bytes_mut_contents(*a))),
{
    s.partial_cmp(a)
}

impl PartialEq for ByteStringMut {
    fn eq(&self, other: &Self) -> (r: bool)
        ensures
            r == (self@ == other@),
    {
        bytes_mut_eq(self.buffer(), other.buffer())
    }
}

impl PartialEqSpecImpl for ByteStringMut {
    open spec fn obeys_eq_spec() -> bool {
        true
    }

    open spec fn eq_spec(&self, other: &Self) -> bool {
        self@ == other@
    }
}

impl Eq for ByteStringMut {
}

impl PartialOrd for ByteStringMut {
    fn partial_cmp(&self, other: &Self) -> (r: Option<Ordering>)
        ensures
            r == Some(lex_order(self@, other@)),
    {
        bytes_mut_partial_cmp(self.buffer(), other.buffer())
    }
}

impl PartialOrdSpecImpl for ByteStringMut {
    open spec fn obeys_partial_cmp_spec() -> bool {
        true
    }

    open spec fn partial_cmp_spec(&self, other: &Self) -> Option<Ordering> {
        Some(lex_order(self@, other@))
    }
}

impl PartialEq<str> for ByteStringMut {
    fn eq(&self, other: &str) -> (r: bool)
        ensures
            r == (self@ == encode_utf8(other@)),
    {
        bytes_mut_eq_str(self.buffer(), other)
    }
}

impl PartialEqSpecImpl<str> for ByteStringMut {
    open spec fn obeys_eq_spec() -> bool {
        true
    }

    open spec fn eq_spec(&self, other: &str) -> bool {
        self@ == encode_utf8(other@)
    }
}

impl PartialOrd<str> for ByteStringMut {
    fn partial_cmp(&self, other: &str) -> (r: Option<Ordering>)
        ensures
            r == Some(lex_order(self@, encode_utf8(other@))),
    {
        bytes_mut_partial_cmp_str(self.buffer(), other)
    }
}

impl PartialOrdSpecImpl<str> for ByteStringMut {
    open spec fn obeys_partial_cmp_spec() -> bool {
        true
    }

    open spec fn partial_cmp_spec(&self, other: &str) -> Option<Ordering> {
        Some(lex_order(self@, encode_utf8(other@)))
    }
}

impl PartialEq<ByteStringMut> for str {
    fn eq(&self, other: &ByteStringMut) -> (r: bool)
        ensures
            r == (encode_utf8(self@) == other@),
    {
        str_eq_bytes_mut(self, other.buffer())
    }
}

impl PartialEqSpecImpl<ByteStringMut> for str {
    open spec fn obeys_eq_spec() -> bool {
        true
    }

    open spec fn eq_spec(&self, other: &ByteStringMut) -> bool {
        encode_utf8(self@) == other@
    }
}

impl PartialOrd<ByteStringMut> for str {
    fn partial_cmp(&self, other: &ByteStringMut) -> (r: Option<Ordering>)
        ensures
            r == Some(lex_order(encode_utf8(self@), other@)),
    {
        str_partial_cmp_bytes_mut(self, other.buffer())
    }
}

impl PartialOrdSpecImpl<ByteStringMut> for str {
    open spec fn obeys_partial_cmp_spec() -> bool {
        true
    }

    open spec fn partial_cmp_spec(&self, other: &ByteStringMut) -> Option<Ordering> {
        Some(lex_order(encode_utf8(self@), other@))
    }
}

impl PartialEq<String> for ByteStringMut {
    fn eq(&self, other: &String) -> (r: bool)
        ensures
            r == (self@ == encode_utf8(other@)),
    {
        bytes_mut_eq_string(self.buffer(), other)
    }
}

impl PartialEqSpecImpl<String> for ByteStringMut {
    open spec fn obeys_eq_spec() -> bool {
        true
    }

    open spec fn eq_spec(&self, other: &String) -> bool {
        self@ == encode_utf8(other@)
    }
}

impl PartialOrd<String> for ByteStringMut {
    fn partial_cmp(&self, other: &String) -> (r: Option<Ordering>)
        ensures
            r == Some(lex_order(self@, encode_utf8(other@))),
    {
        bytes_mut_partial_cmp_string(self.buffer(), other)
    }
}

impl PartialOrdSpecImpl<String> for ByteStringMut {
    open spec fn obeys_partial_cmp_spec() -> bool {
        true
    }

    open spec fn partial_cmp_spec(&self, other: &String) -> Option<Ordering> {
        Some(lex_order(self@, encode_utf8(other@)))
    }
}

impl PartialEq<ByteStringMut> for String {
    fn eq(&self, other: &ByteStringMut) -> (r: bool)
        ensures
            r == (encode_utf8(self@) == other@),
    {
        string_eq_bytes_mut(self, other.buffer())
    }
}

impl PartialEqSpecImpl<ByteStringMut> for String {
    open spec fn obeys_eq_spec() -> bool {
        true
    }

    open spec fn eq_spec(&self, other: &ByteStringMut) -> bool {
        encode_utf8(self@) == other@
    }
}

impl PartialOrd<ByteStringMut> for String {
    fn partial_cmp(&self, other: &ByteStringMut) -> (r: Option<Ordering>)
        ensures
            r == Some(lex_order(encode_utf8(self@), other@)),
    {
        string_partial_cmp_bytes_mut(self, other.buffer())
    }
}

impl PartialOrdSpecImpl<ByteStringMut> for String {
    open spec fn obeys_partial_cmp_spec() -> bool {
        true
    }

    open spec fn partial_cmp_spec(&self, other: &ByteStringMut) -> Option<Ordering> {
        Some(lex_order(encode_utf8(self@), other@))
    }
}

impl PartialEq<BytesMut> for ByteStringMut {
    fn eq(&self, other: &BytesMut) -> (r: bool)
        ensures
            r == (self@ == bytes_mut_contents(*other)),
    {
        bytes_mut_eq(self.buffer(), other)
    }
}

impl PartialEqSpecImpl<BytesMut> for ByteStringMut {
    open spec fn obeys_eq_spec() -> bool {
        true
    }

    open spec fn eq_spec(&self, other: &BytesMut) -> bool {
        self@ == bytes_mut_contents(*other)
    }
}

impl PartialOrd<BytesMut> for ByteStringMut {
    fn partial_cmp(&self, other: &BytesMut) -> (r: Option<Ordering>)
        ensures
            r == Some(lex_order(self@, bytes_mut_contents(*other))),
    {
        bytes_mut_partial_cmp(self.buffer(), other)
    }
}

impl PartialOrdSpecImpl<BytesMut> for ByteStringMut {
    open spec fn obeys_partial_cmp_spec() -> bool {
        true
    }

    open spec fn partial_cmp_spec(&self, other: &BytesMut) -> Option<Ordering> {
        Some(lex_order(self@, bytes_mut_contents(*other)))
    }
}

impl PartialEq<ByteStringMut> for BytesMut {
    fn eq(&self, other: &ByteStringMut) -> (r: bool)
        ensures
            r == (bytes_mut_contents(*self) == other@),
    {
        bytes_mut_eq(self, other.buffer())
    }
}

impl PartialEqSpecImpl<ByteStringMut> for BytesMut {
    open spec fn obeys_eq_spec() -> bool {
        true
    }

    open spec fn eq_spec(&self, other: &ByteStringMut) -> bool {
        bytes_mut_contents(*self) == other@
    }
}

impl PartialOrd<ByteStringMut> for BytesMut {
    fn partial_cmp(&self, other: &ByteStringMut) -> (r: Option<Ordering>)
        ensures
            r == Some(lex_order(bytes_mut_contents(*self), other@)),
    {
        bytes_mut_partial_cmp(self, other.buffer())
    }
}

impl PartialOrdSpecImpl<ByteStringMut> for BytesMut {
    open spec fn obeys_partial_cmp_spec() -> bool {
        true
    }

    open spec fn partial_cmp_spec(&self, other: &ByteStringMut) -> Option<Ordering> {
        Some(lex_order(bytes_mut_contents(*self), other@))
    }
}

impl PartialEq<Bytes> for ByteStringMut {
    fn eq(&self, other: &Bytes) -> (r: bool)
        ensures
            r == (self@ == bytes_contents(*other)),
    {
        bytes_mut_eq_bytes(self.buffer(), other)
    }
}

impl PartialEqSpecImpl<Bytes> for ByteStringMut {
    open spec fn obeys_eq_spec() -> bool {
        true
    }

    open spec fn eq_spec(&self, other: &Bytes) -> bool {
        self@ == bytes_contents(*other)
    }
}

impl PartialEq<ByteStringMut> for Bytes {
    fn eq(&self, other: &ByteStringMut) -> (r: bool)
        ensures
            r == (bytes_contents(*self) == other@),
    {
        bytes_eq_bytes_mut(self, other.buffer())
    }
}

impl PartialEqSpecImpl<ByteStringMut> for Bytes {
    open spec fn obeys_eq_spec() -> bool {
        true
    }

    open spec fn eq_spec(&self, other: &ByteStringMut) -> bool {
        bytes_contents(*self) == other@
    }
}

impl<'a, T: ?Sized> PartialEq<&'a T> for ByteStringMut where ByteStringMut: PartialEq<T> {
    fn eq(&self, other: &&'a T) -> (r: bool) {
        *self == **other
    }
}

impl<'a, T: ?Sized> PartialEqSpecImpl<&'a T> for ByteStringMut where ByteStringMut: PartialEq<T> {
    open spec fn obeys_eq_spec() -> bool {
        <ByteStringMut as PartialEqSpec<T>>::obeys_eq_spec()
    }

    open spec fn eq_spec(&self, other: &&'a T) -> bool {
        <ByteStringMut as PartialEqSpec<T>>::eq_spec(self, *other)
    }
}

impl<'a, T: ?Sized> PartialOrd<&'a T> for ByteStringMut where ByteStringMut: PartialOrd<T> {
    /// Comparing with `&T` is comparing with `T`.
    fn partial_cmp(&self, other: &&'a T) -> (r: Option<Ordering>)
        ensures
            order_obeyed::<ByteStringMut, T>() ==> r == order_of::<ByteStringMut, T>(self, *other),
    {
        (*self).partial_cmp(*other)
    }
}

/// Comparing with `&T` follows the spec of comparing with `T`, and does so
/// exactly when that comparison does.
impl<'a, T: ?Sized> PartialOrdSpecImpl<&'a T> for ByteStringMut where ByteStringMut: PartialOrd<T> {
    open spec fn obeys_partial_cmp_spec() -> bool {
        order_obeyed::<ByteStringMut, T>()
    }

    open spec fn partial_cmp_spec(&self, other: &&'a T) -> Option<Ordering> {
        order_of::<ByteStringMut, T>(self, *other)
    }
}

/// Whether `U`'s comparison with `T` follows its spec function.
pub open spec fn order_obeyed<U: PartialOrdSpec<T> + ?Sized, T: ?Sized>() -> bool {
    U::obeys_partial_cmp_spec()
}

/// The result that `U`'s comparison with `T` specifies for `a` and `b`.
pub open spec fn order_of<U: PartialOrdSpec<T> + ?Sized, T: ?Sized>(a: &U, b: &T) -> Option<Ordering> {
    U::partial_cmp_spec(a, b)
}

/// Whether `U`'s equality with `T` follows its spec function.
pub open spec fn equality_obeyed<U: PartialEqSpec<T> + ?Sized, T: ?Sized>() -> bool {
    U::obeys_eq_spec()
}

/// The result that `U`'s equality with `T` specifies for `a` and `b`.
pub open spec fn equality_of<U: PartialEqSpec<T> + ?Sized, T: ?Sized>(a: &U, b: &T) -> bool {
    U::eq_spec(a, b)
}

/// Byte sequences that agree before index `i` and, at `i`, either differ with the
/// first one's byte smaller, or have the first one ended while the second goes
/// on, are ordered `Less`.
pub proof fn lemma_lex_first_difference(a: Seq<u8>, b: Seq<u8>, i: int)
    requires
        0 <= i <= a.len(),
        i <= b.len(),
        a.take(i) == b.take(i),
        (i < a.len() && i < b.len() && a[i] < b[i]) || (i == a.len() && i < b.len()),
    ensures
        lex_order(a, b) == Ordering::Less,
    decreases i,
{
    if i > 0 {
        assert(a[0] == a.take(i)[0]);
        assert(b[0] == b.take(i)[0]);
        assert(a.drop_first().take(i - 1) =~= a.take(i).drop_first());
        assert(b.drop_first().take(i - 1) =~= b.take(i).drop_first());
        lemma_lex_first_difference(a.drop_first(), b.drop_first(), i - 1);
    }
}

/// `==` on `ByteStringMut`s is equality of their bytes, and agrees with the order:
/// two strings are equal exactly when they hold the same bytes, exactly when
/// their comparison is `Equal`.
pub proof fn lemma_equality_is_same_bytes(a: ByteStringMut, b: ByteStringMut)
    ensures
        equality_obeyed::<ByteStringMut, ByteStringMut>(),
        equality_of::<ByteStringMut, ByteStringMut>(&a, &b) <==> a@ == b@,
        equality_of::<ByteStringMut, ByteStringMut>(&a, &b) <==> order_of::<
            ByteStringMut,
            ByteStringMut,
        >(&a, &b) == Some(Ordering::Equal),
{
    lemma_order_equal_iff_eq(a@, b@);
}

/// The order of `ByteStringMut`s is the lexicographic order of their bytes: it is
/// always defined; `Equal` exactly for the same bytes; swapping the operands swaps
/// `Less` and `Greater`; and a string comes first when, at the first byte where
/// the two differ, its byte is smaller, or when it is a proper prefix of the other.
pub proof fn lemma_order_is_lexicographic(a: ByteStringMut, b: ByteStringMut, i: int)
    ensures
        order_obeyed::<ByteStringMut, ByteStringMut>(),
        order_of::<ByteStringMut, ByteStringMut>(&a, &b) is Some,
        order_of::<ByteStringMut, ByteStringMut>(&a, &b) == Some(Ordering::Equal) <==> a@ == b@,
        order_of::<ByteStringMut, ByteStringMut>(&a, &b) == Some(Ordering::Less)
            <==> order_of::<ByteStringMut, ByteStringMut>(&b, &a) == Some(Ordering::Greater),
        0 <= i <= a@.len() && i <= b@.len() && a@.take(i) == b@.take(i) && ((i < a@.len() && i
            < b@.len() && a@[i] < b@[i]) || (i == a@.len() && i < b@.len()))
            ==> order_of::<ByteStringMut, ByteStringMut>(&a, &b) == Some(Ordering::Less),
{
    lemma_order_equal_iff_eq(a@, b@);
    lemma_order_antisymmetric(a@, b@);
    if 0 <= i <= a@.len() && i <= b@.len() && a@.take(i) == b@.take(i) && ((i < a@.len() && i
        < b@.len() && a@[i] < b@[i]) || (i == a@.len() && i < b@.len())) {
        lemma_lex_first_difference(a@, b@, i);
    }
}

/// Comparing with a reference `&t` is comparing with `t`: the same result, and it
/// follows its spec exactly when the comparison with `t` does.
pub proof fn lemma_compare_through_reference<T: ?Sized>(s: ByteStringMut, t: &T)
    where ByteStringMut: PartialOrd<T>
    ensures
        order_obeyed::<ByteStringMut, &T>() == order_obeyed::<ByteStringMut, T>(),
        order_of::<ByteStringMut, &T>(&s, &t) == order_of::<ByteStringMut, T>(&s, t),
{
}

/// Comparing with a string slice, directly or through a reference, orders the
/// bytes lexicographically against the slice's UTF-8 bytes, and a mirrored
/// comparison gives the reversed result.
pub proof fn lemma_compare_with_str(s: ByteStringMut, t: &str)
    ensures
        order_obeyed::<ByteStringMut, str>(),
        order_obeyed::<ByteStringMut, &str>(),
        order_of::<ByteStringMut, &str>(&s, &t) == order_of::<ByteStringMut, str>(&s, t),
        order_of::<ByteStringMut, str>(&s, t) == Some(Ordering::Greater)
            <==> order_of::<str, ByteStringMut>(t, &s) == Some(Ordering::Less),
        order_of::<ByteStringMut, str>(&s, t) == Some(Ordering::Equal)
            <==> equality_of::<ByteStringMut, str>(&s, t),
{
    lemma_order_antisymmetric(encode_utf8(t@), s@);
    lemma_order_equal_iff_eq(s@, encode_utf8(t@));
}

} // verus!
