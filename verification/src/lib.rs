//! A mutable, growable UTF-8 string stored in a `bytes::BytesMut` buffer, which
//! can be split into parts, joined again, and frozen into shareable `bytes::Bytes`
//! without copying. Every operation keeps the bytes valid UTF-8.

pub mod buf;
pub mod compare;
pub mod encoding;
pub mod extend;
pub mod laws;
pub mod string_mut;
pub mod text;

pub use bytes::Bytes;
pub use bytestring::ByteString;
pub use string_mut::ByteStringMut;
