use bytes::{Bytes, BytesMut};
use bytestringmut::ByteStringMut;
use std::cmp::Ordering;
use std::collections::HashSet;
use std::fmt::Write;

#[test]
fn with_capacity_holds_nothing_yet() {
    let mut bs = ByteStringMut::with_capacity(64);
    assert_eq!(bs.len(), 0);
    bs.push_str("hello world");
    assert!(bs == "hello world");
}

#[test]
fn new_then_reserve_and_push() {
    let mut bs = ByteStringMut::new();
    assert_eq!(0, bs.len());
    bs.reserve(2);
    bs.push_str("xy");
    assert!(bs == "xy");
}

#[test]
fn len_counts_bytes() {
    let bs = ByteStringMut::from("hello");
    assert_eq!(bs.len(), 5);
    let multi = ByteStringMut::from("héllo");
    assert_eq!(multi.len(), 6);
}

#[test]
fn is_empty_on_fresh_capacity() {
    let bs = ByteStringMut::with_capacity(64);
    assert!(bs.is_empty());
    let full = ByteStringMut::from("a");
    assert!(!full.is_empty());
}

#[test]
fn capacity_of_with_capacity() {
    let bs = ByteStringMut::with_capacity(64);
    assert_eq!(bs.capacity(), 64);
}

#[test]
fn freeze_keeps_bytes_and_clones_share() {
    let mut bs = ByteStringMut::with_capacity(64);
    bs.push_str("hello world");
    let bs1: Bytes = bs.freeze();
    let bs2 = bs1.clone();
    assert!(bs1 == "hello world");
    assert!(bs2 == "hello world");
    assert_eq!(&bs1[..], b"hello world");
}

#[test]
fn split_off_keeps_head_returns_tail() {
    let mut a = ByteStringMut::from("hello WORLD");
    let b = a.split_off(6);
    assert!(a == "hello ");
    assert!(b == "WORLD");
}

#[test]
fn split_takes_everything() {
    let mut buf = ByteStringMut::with_capacity(1024);
    buf.push_str("hello world");
    let other = buf.split();
    assert!(buf.is_empty());
    assert_eq!(1013, buf.capacity());
    assert!(other == "hello world");
}

#[test]
fn split_to_returns_head_keeps_tail() {
    let mut a = ByteStringMut::from("hello WORLD");
    let b = a.split_to(6);
    assert!(a == "WORLD");
    assert!(b == "hello ");
}

#[test]
fn truncate_keeps_prefix() {
    let mut buf = ByteStringMut::from("hello world");
    buf.truncate(5);
    assert!(buf == "hello");
}

#[test]
fn truncate_beyond_length_does_nothing() {
    let mut buf = ByteStringMut::from("hello");
    buf.truncate(50);
    assert!(buf == "hello");
    buf.truncate(5);
    assert!(buf == "hello");
}

#[test]
fn clear_empties() {
    let mut buf = ByteStringMut::from("hello world");
    buf.clear();
    assert!(buf.is_empty());
    assert!(buf == "");
}

#[test]
fn reserve_grows_capacity() {
    let mut buf = ByteStringMut::from("hello");
    buf.reserve(64);
    assert!(buf.capacity() >= 69);
    assert!(buf == "hello");
}

#[test]
fn reserve_reclaims_released_buffer() {
    let mut buf = ByteStringMut::with_capacity(128);
    buf.push_str(&" ".repeat(64));
    let ptr = buf.as_ptr();
    let other = buf.split();
    assert!(buf.is_empty());
    assert_eq!(buf.capacity(), 64);
    drop(other);
    buf.reserve(128);
    assert_eq!(buf.capacity(), 128);
    assert_eq!(buf.as_ptr(), ptr);
}

#[test]
fn try_reclaim_scenario() {
    let mut buf = ByteStringMut::with_capacity(64);
    assert_eq!(true, buf.try_reclaim(64));
    assert_eq!(64, buf.capacity());

    buf.push_str("abcd");
    let mut split = buf.split();
    assert_eq!(60, buf.capacity());
    assert_eq!(4, split.capacity());
    assert_eq!(false, split.try_reclaim(64));
    assert_eq!(false, buf.try_reclaim(64));
    assert_eq!(false, split.try_reclaim(4));
    assert_eq!(true, buf.try_reclaim(60));

    drop(buf);
    assert_eq!(false, split.try_reclaim(64));

    split.clear();
    assert_eq!(4, split.capacity());
    assert_eq!(true, split.try_reclaim(64));
    assert_eq!(64, split.capacity());
}

#[test]
fn try_reclaim_keeps_contents() {
    let mut buf = ByteStringMut::from("keep");
    let _ = buf.try_reclaim(1000);
    assert!(buf == "keep");
}

#[test]
fn push_str_appends() {
    let mut buf = ByteStringMut::with_capacity(0);
    buf.push_str("aaabbb");
    buf.push_str("cccddd");
    assert!(buf == "aaabbbcccddd");
}

#[test]
fn push_appends_chars() {
    let mut buf = ByteStringMut::with_capacity(0);
    buf.push('a');
    buf.push('b');
    assert!(buf == "ab");
}

#[test]
fn push_encodes_each_width() {
    let mut buf = ByteStringMut::new();
    buf.push('a');
    assert_eq!(buf.len(), 1);
    buf.push('é');
    assert_eq!(buf.len(), 3);
    buf.push('日');
    assert_eq!(buf.len(), 6);
    buf.push('😀');
    assert_eq!(buf.len(), 10);
    assert!(buf == "aé日😀");
    assert_eq!(buf.as_bytes(), "aé日😀".as_bytes());
}

#[test]
fn unsplit_rejoins() {
    let mut buf = ByteStringMut::with_capacity(64);
    buf.push_str("aaabbbcccddd");
    let split = buf.split_off(6);
    assert!(buf == "aaabbb");
    assert!(split == "cccddd");
    buf.unsplit(split);
    assert!(buf == "aaabbbcccddd");
}

#[test]
fn unsplit_of_unrelated_strings_appends() {
    let mut a = ByteStringMut::from("left ");
    let b = ByteStringMut::from("right");
    a.unsplit(b);
    assert!(a == "left right");
}

#[test]
fn from_str_copies_text() {
    let bs = ByteStringMut::from("grüße");
    assert!(bs == "grüße");
    assert_eq!(bs.as_str(), "grüße");
}

#[test]
fn try_from_accepts_utf8() {
    let bs = ByteStringMut::try_from("日本".as_bytes()).unwrap();
    assert!(bs == "日本");
    assert_eq!(bs.as_bytes(), "日本".as_bytes());
}

#[test]
fn try_from_rejects_invalid_utf8() {
    let bad: &[u8] = &[0x66, 0x6f, 0xff, 0x6f];
    let err = ByteStringMut::try_from(bad).err().unwrap();
    assert_eq!(err.valid_up_to(), 2);
    let cut: &[u8] = &[0xe6, 0x97];
    assert!(ByteStringMut::try_from(cut).is_err());
}

#[test]
fn into_string_gives_text() {
    let bs = ByteStringMut::from("héllo");
    let s = String::from(bs);
    assert_eq!(s, "héllo");
}

#[test]
fn to_string_gives_text() {
    let bs = ByteStringMut::from("abc");
    assert_eq!(bs.to_string(), "abc");
    assert_eq!(format!("{}", bs.as_str()), "abc");
}

#[test]
fn from_utf8_unchecked_wraps_buffer() {
    let bs = ByteStringMut::from_utf8_unchecked(BytesMut::from("ok"));
    assert!(bs == "ok");
}

#[test]
fn deref_and_as_ref_expose_text() {
    let bs = ByteStringMut::from("hello");
    let s: &str = &bs;
    assert_eq!(s, "hello");
    let r: &str = bs.as_ref();
    assert_eq!(r, "hello");
    let b: &[u8] = bs.as_ref();
    assert_eq!(b, b"hello");
    assert!(bs.starts_with("he"));
}

#[test]
fn borrow_gives_text() {
    let bs = ByteStringMut::from("key");
    let s: &str = std::borrow::Borrow::borrow(&bs);
    assert_eq!(s, "key");
}

#[test]
fn is_char_boundary_checks() {
    let bs = ByteStringMut::from("aé");
    assert!(bs.is_char_boundary(0));
    assert!(bs.is_char_boundary(1));
    assert!(!bs.is_char_boundary(2));
    assert!(bs.is_char_boundary(3));
    assert!(!bs.is_char_boundary(4));
}

#[test]
fn clone_and_default() {
    let bs = ByteStringMut::from("twin");
    let c = bs.clone();
    assert!(c == bs);
    let d = ByteStringMut::default();
    assert!(d.is_empty());
}

#[test]
fn equality_with_other_types() {
    let bs = ByteStringMut::from("abc");
    assert!(bs == "abc");
    assert!(bs == *"abc");
    assert!(*"abc" == bs);
    assert!(bs == String::from("abc"));
    assert!(String::from("abc") == bs);
    assert!(bs == BytesMut::from("abc"));
    assert!(BytesMut::from("abc") == bs);
    assert!(bs == Bytes::from("abc"));
    assert!(Bytes::from("abc") == bs);
    assert!(bs != "abd");
    assert!(bs != ByteStringMut::from("ab"));
}

#[test]
fn ordering_is_lexicographic_by_bytes() {
    let a = ByteStringMut::from("abc");
    let b = ByteStringMut::from("abd");
    let pre = ByteStringMut::from("ab");
    assert!(a < b);
    assert!(pre < a);
    assert_eq!(a.partial_cmp(&a.clone()), Some(Ordering::Equal));
    assert_eq!(a.cmp(&b), Ordering::Less);
    assert!(a < "abd");
    assert!(*"abd" > a);
    assert!(a < String::from("b"));
    assert!(String::from("b") > a);
    assert!(a > BytesMut::from("ab"));
    assert!(BytesMut::from("ab") < a);
    assert!(a <= &b);
}

#[test]
fn hashing_follows_bytes() {
    let mut set = HashSet::new();
    set.insert(ByteStringMut::from("one"));
    set.insert(ByteStringMut::from("one"));
    set.insert(ByteStringMut::from("two"));
    assert_eq!(set.len(), 2);
}

#[test]
fn write_str_appends() {
    let mut bs = ByteStringMut::new();
    bs.write_str("a=").unwrap();
    bs.write_str("1").unwrap();
    assert!(bs == "a=1");
}

#[test]
fn push_chars_appends_all() {
    let mut bs = ByteStringMut::from("x");
    bs.push_chars(&['y', 'é', '😀']);
    assert!(bs == "xyé😀");
    bs.push_chars(&[]);
    assert!(bs == "xyé😀");
}

#[test]
fn push_strs_appends_all_in_order() {
    let mut bs = ByteStringMut::new();
    bs.push_strs(&["ab", "", "cd", "日"]);
    assert!(bs == "abcd日");
}

#[test]
fn law_split_off_then_unsplit_restores() {
    let mut s = ByteStringMut::from("héllo wörld");
    for at in [0usize, 1, 3, 6, 13] {
        assert!(s.is_char_boundary(at));
        let tail = s.split_off(at);
        s.unsplit(tail);
        assert!(s == "héllo wörld");
    }
}

#[test]
fn law_split_to_then_unsplit_restores() {
    let mut s = ByteStringMut::from("日本語");
    let mut head = s.split_to(3);
    assert!(head == "日");
    assert!(s == "本語");
    head.unsplit(s);
    assert!(head == "日本語");
}

#[test]
fn law_split_is_split_to_length() {
    let mut a = ByteStringMut::from("same");
    let mut b = a.clone();
    let len = b.len();
    let from_split = a.split();
    let from_split_to = b.split_to(len);
    assert!(from_split == from_split_to);
    assert!(a == b);
    assert!(a.is_empty());
}

#[test]
fn law_clear_is_truncate_zero() {
    let mut a = ByteStringMut::from("gone");
    let mut b = a.clone();
    a.clear();
    b.truncate(0);
    assert!(a == b);
    assert!(a == "");
}

#[test]
fn law_truncate_matches_split_off_head() {
    let mut a = ByteStringMut::from("hello world");
    let mut b = a.clone();
    a.truncate(5);
    let _tail = b.split_off(5);
    assert!(a == b);
}

#[test]
fn law_push_str_twice_is_push_str_of_join() {
    let mut a = ByteStringMut::new();
    a.push_str("añ");
    a.push_str("日x");
    let mut b = ByteStringMut::new();
    b.push_str("añ日x");
    assert!(a == b);
}

#[test]
fn law_push_is_push_str_of_char() {
    for ch in ['a', 'ß', '€', '𝄞'] {
        let mut a = ByteStringMut::from("p");
        let mut b = ByteStringMut::from("p");
        a.push(ch);
        let mut tmp = [0u8; 4];
        b.push_str(ch.encode_utf8(&mut tmp));
        assert!(a == b);
        assert_eq!(a.len(), 1 + ch.len_utf8());
    }
}

#[test]
fn law_text_round_trip() {
    for text in ["", "plain", "mixé 日本 😀"] {
        let bs = ByteStringMut::from(text);
        assert_eq!(String::from(bs), text);
    }
}

#[test]
fn law_bytes_round_trip() {
    let bytes = "ça va".as_bytes();
    let bs = ByteStringMut::try_from(bytes).unwrap();
    assert_eq!(bs.as_bytes(), bytes);
    assert_eq!(bs.as_str().as_bytes(), bytes);
}

#[test]
fn law_reserve_and_try_reclaim_keep_contents() {
    let mut bs = ByteStringMut::from("stay");
    bs.reserve(1000);
    assert!(bs == "stay");
    let _ = bs.try_reclaim(10);
    assert!(bs == "stay");
}

#[test]
fn law_order_agrees_with_equality() {
    let a = ByteStringMut::from("q");
    let b = ByteStringMut::from("q");
    let c = ByteStringMut::from("r");
    assert_eq!(a.cmp(&b), Ordering::Equal);
    assert!(a == b);
    assert_eq!(a.cmp(&c), Ordering::Less);
    assert_eq!(c.cmp(&a), Ordering::Greater);
    let d = ByteStringMut::from("s");
    assert!(a < c && c < d && a < d);
}

#[test]
fn law_every_operation_keeps_utf8() {
    let mut bs = ByteStringMut::from("αβγ");
    bs.push('δ');
    let tail = bs.split_off(4);
    assert!(std::str::from_utf8(bs.as_bytes()).is_ok());
    assert!(std::str::from_utf8(tail.as_bytes()).is_ok());
    let frozen = tail.freeze();
    assert!(std::str::from_utf8(&frozen).is_ok());
    assert!(frozen == "γδ");
}

#[test]
fn try_from_error_marks_where_valid_prefix_ends() {
    let bad: &[u8] = &[0x61, 0xFF, 0x62];
    let err = ByteStringMut::try_from(bad).err().unwrap();
    assert_eq!(err.valid_up_to(), 1);
    assert_eq!(err, std::str::from_utf8(bad).unwrap_err());
    let good: &[u8] = &[0x68, 0xC3, 0xA9];
    let b = ByteStringMut::try_from(good).unwrap();
    assert!(b == "hé");
    assert_eq!(b.len(), 3);
}

#[test]
fn from_utf8_checks_buffer() {
    let ok = ByteStringMut::from_utf8(BytesMut::from("grüß")).unwrap();
    assert!(ok == "grüß");
    let bad = BytesMut::from(&[0x61u8, 0x62, 0xC3][..]);
    let err = ByteStringMut::from_utf8(bad).err().unwrap();
    assert_eq!(err.valid_up_to(), 2);
    assert_eq!(err.error_len(), None);
}

#[test]
fn push_chars_onto_empty_gives_exactly_the_chars() {
    let chars = ['h', 'é', '日', '😀'];
    let mut bs = ByteStringMut::new();
    bs.push_chars(&chars);
    let expected: String = chars.iter().collect();
    assert_eq!(bs.as_bytes(), expected.as_bytes());
}

#[test]
fn law_mirrored_comparison_reverses() {
    let a = ByteStringMut::from("abc");
    assert_eq!(a.partial_cmp("abd"), Some(Ordering::Less));
    assert_eq!("abd".partial_cmp(&a), Some(Ordering::Greater));
    assert_eq!(a.partial_cmp(&String::from("abc")), Some(Ordering::Equal));
    assert_eq!(String::from("abc").partial_cmp(&a), Some(Ordering::Equal));
    assert_eq!(a.partial_cmp(&BytesMut::from("ab")), Some(Ordering::Greater));
    assert_eq!(BytesMut::from("ab").partial_cmp(&a), Some(Ordering::Less));
}
