//! Laws of `ByteStringMut` that relate several of its operations. Each is stated
//! over the byte views and texts that the operations' own contracts use.

use vstd::prelude::*;
use vstd::utf8::*;

verus! {

broadcast use vstd::seq::group_seq_axioms;

/// Encoding two `char` sequences one after the other gives the encoding of the two
/// joined: appending `a` and then `b` appends the same bytes as appending `a + b`.
pub proof fn lemma_encode_utf8_concat(a: Seq<char>, b: Seq<char>)
    ensures
        encode_utf8(a + b) == encode_utf8(a) + encode_utf8(b),
    decreases a.len(),
{
    if a.len() == 0 {
        assert(a + b =~= b);
        assert(encode_utf8(a) + encode_utf8(b) =~= encode_utf8(b));
    } else {
        let ab = a + b;
        assert(ab[0] == a[0]);
        assert(ab.drop_first() =~= a.drop_first() + b);
        lemma_encode_utf8_concat(a.drop_first(), b);
        assert(encode_utf8(ab) == encode_scalar(a[0] as u32) + encode_utf8(ab.drop_first()));
        assert(encode_scalar(a[0] as u32) + (encode_utf8(a.drop_first()) + encode_utf8(b)) =~= (
        encode_scalar(a[0] as u32) + encode_utf8(a.drop_first())) + encode_utf8(b));
    }
}

/// The text of two UTF-8 byte sequences joined is the two texts joined: appending
/// bytes of a string appends its `char`s.
pub proof fn lemma_decode_utf8_concat(x: Seq<u8>, y: Seq<u8>)
    requires
        valid_utf8(x),
        valid_utf8(y),
    ensures
        valid_utf8(x + y),
        decode_utf8(x + y) == decode_utf8(x) + decode_utf8(y),
{
    valid_utf8_concat(x, y);
    decode_utf8_encode_utf8(x);
    decode_utf8_encode_utf8(y);
    lemma_encode_utf8_concat(decode_utf8(x), decode_utf8(y));
    encode_utf8_decode_utf8(decode_utf8(x) + decode_utf8(y));
}

/// Splitting UTF-8 bytes at a `char` boundary (`split_off` or `split_to`) and
/// joining the two parts again in order (`unsplit`) gives back the bytes; both
/// parts are UTF-8 and their texts join to the whole text.
pub proof fn lemma_split_then_unsplit(s: Seq<u8>, at: int)
    requires
        valid_utf8(s),
        is_char_boundary(s, at),
    ensures
        s.subrange(0, at) + s.subrange(at, s.len() as int) == s,
        valid_utf8(s.subrange(0, at)),
        valid_utf8(s.subrange(at, s.len() as int)),
        decode_utf8(s.subrange(0, at)) + decode_utf8(s.subrange(at, s.len() as int))
            == decode_utf8(s),
{
    crate::encoding::lemma_char_boundary_within(s, at);
    valid_utf8_split(s, at);
    decode_utf8_split(s, at);
    assert(s.subrange(0, at) + s.subrange(at, s.len() as int) =~= s);
}

/// `split` is `split_to` at the length: the length is always a `char` boundary, the
/// part before it is everything and the part after it is empty.
pub proof fn lemma_split_is_split_to_len(s: Seq<u8>)
    requires
        valid_utf8(s),
    ensures
        is_char_boundary(s, s.len() as int),
        s.subrange(0, s.len() as int) == s,
        s.subrange(s.len() as int, s.len() as int) == Seq::<u8>::empty(),
{
    is_char_boundary_start_end_of_seq(s);
    assert(s.subrange(0, s.len() as int) =~= s);
    assert(s.subrange(s.len() as int, s.len() as int) =~= Seq::<u8>::empty());
}

/// `clear` is `truncate(0)`: `0` is always a `char` boundary and keeping no byte
/// leaves the string empty.
pub proof fn lemma_clear_is_truncate_zero(s: Seq<u8>)
    requires
        valid_utf8(s),
    ensures
        is_char_boundary(s, 0),
        s.subrange(0, 0) == Seq::<u8>::empty(),
{
    is_char_boundary_start_end_of_seq(s);
    assert(s.subrange(0, 0) =~= Seq::<u8>::empty());
}

/// `push(ch)` appends the same bytes as `push_str` of the one-`char` string `ch`:
/// the one to four bytes of the UTF-8 encoding of its scalar value.
pub proof fn lemma_push_is_push_str(ch: char)
    ensures
        encode_utf8(seq![ch]) == encode_scalar(ch as u32),
        1 <= encode_utf8(seq![ch]).len() <= 4,
{
    crate::encoding::lemma_encode_single_char(ch);
}

/// A string made from text (`From<&str>`, or `push_str` on an empty string) holds
/// the text's UTF-8 bytes, which are valid UTF-8, and its text (as `as_str` and
/// `String::from` give it back) is that text again.
pub proof fn lemma_text_round_trip(text: Seq<char>)
    ensures
        valid_utf8(encode_utf8(text)),
        decode_utf8(encode_utf8(text)) == text,
{
    encode_utf8_valid_utf8(text);
    encode_utf8_decode_utf8(text);
}

/// Bytes accepted by `try_from` (valid UTF-8) are given back by `as_bytes`, and the
/// text that `as_str` gives encodes to exactly those bytes.
pub proof fn lemma_bytes_round_trip(bytes: Seq<u8>)
    requires
        valid_utf8(bytes),
    ensures
        encode_utf8(decode_utf8(bytes)) == bytes,
{
    decode_utf8_encode_utf8(bytes);
}

} // verus!
