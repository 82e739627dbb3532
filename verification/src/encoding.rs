//! UTF-8 facts that the string operations rest on: the encoding of one `char`,
//! and where a byte sequence may be cut without splitting a `char`.

use vstd::prelude::*;
use vstd::utf8::*;

use std::vec::Vec;

verus! {

broadcast use vstd::seq::group_seq_axioms;

/// The UTF-8 encoding of one `char` is the encoding of its scalar value.
pub proof fn lemma_encode_single_char(ch: char)
    ensures
        encode_utf8(seq![ch]) == encode_scalar(ch as u32),
{
    let s = seq![ch];
    assert(s.drop_first() =~= Seq::<char>::empty());
    assert(encode_utf8(s.drop_first()) =~= Seq::<u8>::empty());
    assert(encode_scalar(ch as u32) + Seq::<u8>::empty() =~= encode_scalar(ch as u32));
}

/// The number of bytes in the UTF-8 encoding of `ch` (1 to 4), from the range
/// that its scalar value falls in.
pub fn utf8_len(ch: char) -> (n: usize)
    ensures
        n == encode_utf8(seq![ch]).len(),
        1 <= n <= 4,
{
    proof {
        lemma_encode_single_char(ch);
        char_is_scalar(ch);
    }
    let c: u32 = ch as u32;
    if c <= 0x7F {
        1
    } else if c <= 0x7FF {
        2
    } else if c <= 0xFFFF {
        3
    } else {
        4
    }
}

/// Encodes one `char` as UTF-8 into a new vector of 1 to 4 bytes.
pub fn encode_char(ch: char) -> (bytes: Vec<u8>)
    ensures
        bytes@ == encode_utf8(seq![ch]),
        1 <= bytes@.len() <= 4,
{
    proof {
        lemma_encode_single_char(ch);
        char_is_scalar(ch);
    }
    let c: u32 = ch as u32;
    let mut bytes: Vec<u8> = Vec::new();
    if c <= 0x7F {
        bytes.push((c & 0x7F) as u8);
        assert(bytes@ =~= encode_scalar(c));
    } else if c <= 0x7FF {
        bytes.push(0xC0 | ((c >> 6) & 0x1F) as u8);
        bytes.push(0x80 | (c & 0x3F) as u8);
        assert(bytes@ =~= encode_scalar(c));
    } else if c <= 0xFFFF {
        bytes.push(0xE0 | ((c >> 12) & 0x0F) as u8);
        bytes.push(0x80 | ((c >> 6) & 0x3F) as u8);
        bytes.push(0x80 | (c & 0x3F) as u8);
        assert(bytes@ =~= encode_scalar(c));
    } else {
        bytes.push(0xF0 | ((c >> 18) & 0x7) as u8);
        bytes.push(0x80 | ((c >> 12) & 0x3F) as u8);
        bytes.push(0x80 | ((c >> 6) & 0x3F) as u8);
        bytes.push(0x80 | (c & 0x3F) as u8);
        assert(bytes@ =~= encode_scalar(c));
    }
    bytes
}

/// Whether `at` is a `char` boundary of the UTF-8 bytes `bytes`: the start, the
/// end, or an index whose byte is not a continuation byte (`10xxxxxx`).
pub fn char_boundary(bytes: &[u8], at: usize) -> (b: bool)
    requires
        valid_utf8(bytes@),
    ensures
        b == is_char_boundary(bytes@, at as int),
{
    proof {
        is_char_boundary_start_end_of_seq(bytes@);
    }
    let len: usize = bytes.len();
    if at == 0 {
        true
    } else if at > len {
        false
    } else if at == len {
        true
    } else {
        let byte: u8 = bytes[at];
        proof {
            is_char_boundary_iff_not_is_continuation_byte(bytes@, at as int);
        }
        !(0x80 <= byte && byte <= 0xBF)
    }
}

/// The UTF-8 encoding of `chars` takes at most 4 bytes per `char`.
pub proof fn lemma_encode_utf8_len_bound(chars: Seq<char>)
    ensures
        encode_utf8(chars).len() <= 4 * chars.len(),
    decreases chars.len(),
{
    if chars.len() > 0 {
        lemma_encode_single_char(chars[0]);
        lemma_encode_utf8_len_bound(chars.drop_first());
    }
}

/// A `char` boundary of UTF-8 bytes lies within them.
pub proof fn lemma_char_boundary_within(s: Seq<u8>, at: int)
    requires
        valid_utf8(s),
        is_char_boundary(s, at),
    ensures
        0 <= at <= s.len(),
    decreases s.len(),
{
    if at != 0 && s.len() > 0 {
        lemma_char_boundary_within(pop_first_scalar(s), at - length_of_first_scalar(s));
    }
}

} // verus!
