//! Lengths as input methods count them, in UTF-16 code units.
use crate::text::characters;
use vstd::prelude::*;
use vstd::utf8::{encode_scalar, encode_utf8};

verus! {

/// How many UTF-16 code units a character takes.
pub open spec fn utf16_units(c: char) -> nat {
    if c as u32 >= 0x1_0000 {
        2
    } else {
        1
    }
}

/// How many UTF-16 code units text takes.
pub open spec fn utf16_len(text: Seq<char>) -> nat
    decreases text.len(),
{
    if text.len() == 0 {
        0
    } else {
        utf16_units(text[0]) + utf16_len(text.drop_first())
    }
}

/// Text takes no more UTF-16 code units than it takes UTF-8 bytes.
pub proof fn law_utf16_is_no_longer_than_utf8(text: Seq<char>)
    ensures
        utf16_len(text) <= encode_utf8(text).len(),
    decreases text.len(),
{
    if text.len() > 0 {
        law_utf16_is_no_longer_than_utf8(text.drop_first());
        assert(encode_scalar(text[0] as u32).len() >= utf16_units(text[0]));
    }
}

proof fn lemma_suffix(text: Seq<char>, from: int)
    requires
        0 <= from <= text.len(),
    ensures
        utf16_len(text.skip(from)) <= utf16_len(text),
    decreases from,
{
    if from == 0 {
        assert(text.skip(0) =~= text);
    } else {
        lemma_suffix(text, from - 1);
        assert(text.skip(from - 1).drop_first() =~= text.skip(from));
    }
}

/// Count the UTF-16 code units of text.
pub fn count_utf16(content: &str) -> (units: usize)
    ensures
        units == utf16_len(content@),
{
    let chars = characters(content);
    let bytes: usize = content.as_bytes().len();
    proof {
        law_utf16_is_no_longer_than_utf8(content@);
        assert(chars@.skip(chars@.len() as int) =~= Seq::<char>::empty());
    }
    let mut units: usize = 0;
    let mut i: usize = chars.len();
    while i > 0
        invariant
            i <= chars@.len(),
            utf16_len(chars@) <= bytes,
            units == utf16_len(chars@.skip(i as int)),
        decreases i,
    {
        i -= 1;
        proof {
            assert(chars@.skip(i as int).drop_first() =~= chars@.skip(i + 1));
            lemma_suffix(chars@, i as int);
        }
        let wide = chars[i] as u32 >= 0x1_0000;
        if wide {
            units += 2;
        } else {
            units += 1;
        }
    }
    assert(chars@.skip(0) =~= chars@);
    units
}

/// A text takes two code units for each character beyond the first plane, and one for
/// each other: parts of a text add up.
pub proof fn law_utf16_adds_up(a: Seq<char>, b: Seq<char>)
    ensures
        utf16_len(a + b) == utf16_len(a) + utf16_len(b),
        a.len() <= utf16_len(a) <= 2 * a.len(),
        (forall|i: int| 0 <= i < a.len() ==> (#[trigger] a[i]) as u32 <= 0xffff) ==> utf16_len(a)
            == a.len(),
        (forall|i: int| 0 <= i < a.len() ==> (#[trigger] a[i]) as u32 > 0xffff) ==> utf16_len(a)
            == 2 * a.len(),
    decreases a.len(),
{
    if a.len() > 0 {
        let rest = a.drop_first();
        law_utf16_adds_up(rest, b);
        assert((a + b).drop_first() =~= rest + b);
        assert forall|i: int| 0 <= i < rest.len() implies #[trigger] rest[i] == a[i + 1] by {}
        if forall|i: int| 0 <= i < a.len() ==> (#[trigger] a[i]) as u32 <= 0xffff {
            assert forall|i: int| 0 <= i < rest.len() implies (#[trigger] rest[i]) as u32
                <= 0xffff by {
                assert(rest[i] == a[i + 1]);
            }
            assert(a[0] as u32 <= 0xffff);
        }
        if forall|i: int| 0 <= i < a.len() ==> (#[trigger] a[i]) as u32 > 0xffff {
            assert forall|i: int| 0 <= i < rest.len() implies (#[trigger] rest[i]) as u32
                > 0xffff by {
                assert(rest[i] == a[i + 1]);
            }
            assert(a[0] as u32 > 0xffff);
        }
    } else {
        assert(a + b =~= b);
    }
}

} // verus!
