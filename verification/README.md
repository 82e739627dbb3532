# bytestringmut

A mutable, growable UTF-8 string kept in a `bytes::BytesMut` buffer. It can be
split into parts without copying, joined again, and frozen into shareable
`bytes::Bytes`. The library is written in Verus: every operation is proved to keep
the bytes valid UTF-8 and to do to them what its contract says.

Layout:

- `src/string_mut.rs`: `ByteStringMut`, its type invariant and its methods and
  conversions.
- `src/compare.rs`: equality and lexicographic ordering with itself, `str`,
  `String`, `BytesMut` and `Bytes`, and the laws of the ordering.
- `src/extend.rs`: appending many `char`s or string slices at once.
- `src/encoding.rs`: the UTF-8 encoding of one `char` and the `char` boundary test.
- `src/laws.rs`: laws that relate several operations (splitting and rejoining,
  appending twice, round trips between text and bytes).
- `src/buf.rs`, `src/text.rs`: the calls into `bytes` and into the standard
  library's UTF-8 checks, each with the contract that the rest relies on.
- `app/lib.rs`: iterator-driven building (in place of `Extend` and
  `FromIterator`) and the conversion of frozen bytes into a
  `bytestring::ByteString`.
