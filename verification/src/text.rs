//! The UTF-8 checks of the standard library that turn bytes into text.

use vstd::prelude::*;
use vstd::utf8::*;

use std::string::{FromUtf8Error, String};
use std::vec::Vec;
use std::str::Utf8Error;

verus! {

/// The error of the standard library's UTF-8 check on a byte slice.
#[verifier::external_type_specification]
#[verifier::external_body]
pub struct ExUtf8Error(Utf8Error);

/// The error that a `core::fmt::Write` sink reports when it cannot take more text.
#[verifier::external_type_specification]
#[verifier::external_body]
pub struct ExFmtError(std::fmt::Error);

/// The error of the standard library's UTF-8 check on a byte vector.
#[verifier::external_type_specification]
#[verifier::external_body]
pub struct ExFromUtf8Error(FromUtf8Error);

/// The error that the standard library's UTF-8 check (`core::str::from_utf8`)
/// reports for bytes that are not UTF-8: where the valid prefix ends and how long
/// the bad sequence is. It is a function of the bytes alone.
pub uninterp spec fn utf8_check_error(b: Seq<u8>) -> Utf8Error;

/// Calls `core::str::from_utf8`, which returns the slice as text exactly when it
/// is UTF-8, and otherwise its error for these bytes.
#[verifier::external_body]
pub(crate) fn str_from_utf8(b: &[u8]) -> (r: Result<&str, Utf8Error>)
    ensures
        r is Ok <==> valid_utf8(b@),
        r matches Ok(s) ==> s@ == decode_utf8(b@),
        r matches Err(e) ==> e == utf8_check_error(b@),
{
    std::str::from_utf8(b)
}

/// Calls `<[char]>::len`. A slice occupies at most `isize::MAX` bytes (the
/// standard library's limit on any slice, as `slice::from_raw_parts` documents),
/// and a `char` takes 4 bytes.
#[verifier::external_body]
pub(crate) fn char_slice_len(s: &[char]) -> (n: usize)
    ensures
        n == s@.len(),
        4 * n <= isize::MAX,
{
    s.len()
}

/// Calls `String::from_utf8`, which takes the vector as text exactly when it is
/// UTF-8.
#[verifier::external_body]
pub(crate) fn string_from_utf8(v: Vec<u8>) -> (r: Result<String, FromUtf8Error>)
    ensures
        r is Ok <==> valid_utf8(v@),
        r matches Ok(s) ==> s@ == decode_utf8(v@),
{
    String::from_utf8(v)
}

} // verus!
