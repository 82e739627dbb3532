//! Extending a `ByteStringMut` by many `char`s or string slices at once. All the
//! items are appended, in order, when they fit within `isize::MAX` bytes; when
//! they do not, none is.

use vstd::prelude::*;
use vstd::utf8::*;

use crate::encoding::{lemma_encode_utf8_len_bound, utf8_len};
use crate::text::char_slice_len;
use crate::laws::lemma_encode_utf8_concat;
use crate::string_mut::{valid_contents, ByteStringMut};

verus! {

broadcast use vstd::seq::group_seq_axioms;

/// The text of string slices one after the other.
pub open spec fn joined_text(strs: Seq<&str>) -> Seq<char>
    decreases strs.len(),
{
    if strs.len() == 0 {
        Seq::empty()
    } else {
        joined_text(strs.drop_last()) + strs.last()@
    }
}

/// The encoding of the first `i + 1` `char`s is that of the first `i` followed by
/// that of the next one; the encoding of a prefix is no longer than the whole.
proof fn lemma_encode_prefix_step(cs: Seq<char>, i: int)
    requires
        0 <= i < cs.len(),
    ensures
        encode_utf8(cs.take(i + 1)) == encode_utf8(cs.take(i)) + encode_utf8(seq![cs[i]]),
        encode_utf8(cs.take(i + 1)).len() <= encode_utf8(cs).len(),
{
    assert(cs.take(i + 1) =~= cs.take(i) + seq![cs[i]]);
    lemma_encode_utf8_concat(cs.take(i), seq![cs[i]]);
    assert(cs =~= cs.take(i + 1) + cs.skip(i + 1));
    lemma_encode_utf8_concat(cs.take(i + 1), cs.skip(i + 1));
}

/// The UTF-8 bytes of the joined text of the first `i + 1` slices are those of the
/// first `i` followed by those of the next one; those of a prefix are no longer
/// than those of all.
proof fn lemma_joined_prefix_step(strs: Seq<&str>, i: int)
    requires
        0 <= i < strs.len(),
    ensures
        joined_text(strs.take(i + 1)) == joined_text(strs.take(i)) + strs[i]@,
        encode_utf8(joined_text(strs.take(i + 1))) == encode_utf8(joined_text(strs.take(i)))
            + encode_utf8(strs[i]@),
        encode_utf8(joined_text(strs.take(i + 1))).len() <= encode_utf8(joined_text(strs)).len(),
    decreases strs.len() - i,
{
    assert(strs.take(i + 1).drop_last() =~= strs.take(i));
    lemma_encode_utf8_concat(joined_text(strs.take(i)), strs[i]@);
    if i + 1 == strs.len() {
        assert(strs.take(i + 1) =~= strs);
    } else {
        lemma_joined_prefix_step(strs, i + 1);
        lemma_encode_utf8_concat(joined_text(strs.take(i + 1)), strs[i + 1]@);
    }
}

impl ByteStringMut {
    /// Appends all of `chars`, in order, when their encoding fits within
    /// `isize::MAX` bytes together with what is held; otherwise changes nothing.
    /// Room for all of them is reserved first.
    pub fn push_chars(&mut self, chars: &[char])
        ensures
            old(self)@.len() + encode_utf8(chars@).len() <= isize::MAX
                ==> final(self).text() == old(self).text() + chars@,
            old(self)@.len() + encode_utf8(chars@).len() <= isize::MAX
                ==> final(self)@ == old(self)@ + encode_utf8(chars@),
            old(self)@.len() + encode_utf8(chars@).len() > isize::MAX
                ==> final(self)@ == old(self)@,
            encode_utf8(chars@).len() <= isize::MAX,
            old(self)@.len() == 0 ==> final(self)@ == encode_utf8(chars@),
            old(self)@.len() == 0 ==> final(self).text() == chars@,
            valid_contents(final(self)@),
    {
        // learns the slice size limit, under which all of `chars` fit into an
        // empty string
        let _count: usize = char_slice_len(chars);
        proof {
            lemma_encode_utf8_len_bound(chars@);
        }
        let start: usize = self.len();
        let room: usize = isize::MAX as usize - start;
        let mut total: usize = 0;
        let mut i: usize = 0;
        while i < chars.len()
            invariant
                0 <= i <= chars@.len(),
                total == encode_utf8(chars@.take(i as int)).len(),
                total <= room,
                room == isize::MAX - old(self)@.len(),
                encode_utf8(chars@).len() <= isize::MAX,
                self@ == old(self)@,
                valid_contents(self@),
            decreases chars@.len() - i,
        {
            let w: usize = utf8_len(chars[i]);
            proof {
                lemma_encode_prefix_step(chars@, i as int);
            }
            if w > room - total {
                return;
            }
            total = total + w;
            i = i + 1;
        }
        assert(chars@.take(chars@.len() as int) =~= chars@);
        self.reserve(total);
        let ghost before = self.text();
        let mut j: usize = 0;
        assert(chars@.take(0) =~= Seq::<char>::empty());
        assert(before + Seq::<char>::empty() =~= before);
        assert(old(self)@ + Seq::<u8>::empty() =~= old(self)@);
        while j < chars.len()
            invariant
                0 <= j <= chars@.len(),
                self.text() == before + chars@.take(j as int),
                self@ == old(self)@ + encode_utf8(chars@.take(j as int)),
                before == old(self).text(),
                old(self)@.len() + encode_utf8(chars@).len() <= isize::MAX,
                valid_contents(self@),
            decreases chars@.len() - j,
        {
            proof {
                lemma_encode_prefix_step(chars@, j as int);
            }
            self.push(chars[j]);
            proof {
                assert(chars@.take(j + 1) =~= chars@.take(j as int).push(chars@[j as int]));
                assert(before + chars@.take(j + 1) =~= (before + chars@.take(j as int)).push(
                    chars@[j as int],
                ));
            }
            j = j + 1;
        }
        assert(chars@.take(chars@.len() as int) =~= chars@);
    }

    /// Appends all of `strs`, in order, when their bytes fit within `isize::MAX`
    /// bytes together with what is held; otherwise changes nothing. Room for all
    /// of them is reserved first.
    pub fn push_strs(&mut self, strs: &[&str])
        ensures
            old(self)@.len() + encode_utf8(joined_text(strs@)).len() <= isize::MAX
                ==> final(self).text() == old(self).text() + joined_text(strs@),
            old(self)@.len() + encode_utf8(joined_text(strs@)).len() <= isize::MAX
                ==> final(self)@ == old(self)@ + encode_utf8(joined_text(strs@)),
            old(self)@.len() + encode_utf8(joined_text(strs@)).len() > isize::MAX
                ==> final(self)@ == old(self)@,
            valid_contents(final(self)@),
    {
        let start: usize = self.len();
        let room: usize = isize::MAX as usize - start;
        let mut total: usize = 0;
        let mut i: usize = 0;
        assert(strs@.take(0) =~= Seq::<&str>::empty());
        while i < strs.len()
            invariant
                0 <= i <= strs@.len(),
                total == encode_utf8(joined_text(strs@.take(i as int))).len(),
                total <= room,
                room == isize::MAX - old(self)@.len(),
                self@ == old(self)@,
                valid_contents(self@),
            decreases strs@.len() - i,
        {
            let w: usize = strs[i].as_bytes().len();
            proof {
                lemma_joined_prefix_step(strs@, i as int);
            }
            if w > room - total {
                return;
            }
            total = total + w;
            i = i + 1;
        }
        assert(strs@.take(strs@.len() as int) =~= strs@);
        self.reserve(total);
        let ghost before = self.text();
        let mut j: usize = 0;
        assert(before + Seq::<char>::empty() =~= before);
        assert(old(self)@ + Seq::<u8>::empty() =~= old(self)@);
        while j < strs.len()
            invariant
                0 <= j <= strs@.len(),
                self.text() == before + joined_text(strs@.take(j as int)),
                self@ == old(self)@ + encode_utf8(joined_text(strs@.take(j as int))),
                before == old(self).text(),
                old(self)@.len() + encode_utf8(joined_text(strs@)).len() <= isize::MAX,
                valid_contents(self@),
            decreases strs@.len() - j,
        {
            proof {
                lemma_joined_prefix_step(strs@, j as int);
            }
            self.push_str(strs[j]);
            proof {
                assert(before + joined_text(strs@.take(j + 1)) =~= (before + joined_text(
                    strs@.take(j as int),
                )) + strs@[j as int]@);
            }
            j = j + 1;
        }
        assert(strs@.take(strs@.len() as int) =~= strs@);
    }
}

} // verus!
