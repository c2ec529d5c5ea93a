//! UTF-16 text with a terminator, as Windows takes command lines.

use crate::count::chars_of;
use vstd::prelude::*;

verus! {

/// The UTF-16 code units of one character.
pub open spec fn utf16_char(c: char) -> Seq<u16> {
    let value = c as int;
    if value < 0x1_0000 {
        seq![value as u16]
    } else {
        seq![
            (0xd800 + (value - 0x1_0000) / 0x400) as u16,
            (0xdc00 + (value - 0x1_0000) % 0x400) as u16,
        ]
    }
}

/// The UTF-16 code units of a text.
pub open spec fn utf16(s: Seq<char>) -> Seq<u16>
    decreases s.len(),
{
    if s.len() == 0 {
        Seq::empty()
    } else {
        utf16(s.drop_last()) + utf16_char(s.last())
    }
}

/// What a reader of a terminated string sees: the units before the first zero.
pub open spec fn until_nul(units: Seq<u16>) -> Seq<u16>
    decreases units.len(),
{
    if units.len() == 0 || units.first() == 0 {
        Seq::empty()
    } else {
        seq![units.first()] + until_nul(units.drop_first())
    }
}

fn push_char(units: &mut Vec<u16>, c: char)
    ensures
        final(units)@ == old(units)@ + utf16_char(c),
{
    let value: u32 = c as u32;
    if value < 0x1_0000 {
        units.push(value as u16);
    } else {
        units.push((0xd800 + (value - 0x1_0000) / 0x400) as u16);
        units.push((0xdc00 + (value - 0x1_0000) % 0x400) as u16);
    }
    assert(units@ =~= old(units)@ + utf16_char(c));
}

/// Encodes a text in UTF-16 and appends the terminating zero.
pub fn wide_nul(text: &str) -> (units: Vec<u16>)
    ensures
        units@ == utf16(text@).push(0),
{
    let chars = chars_of(text);
    let mut units: Vec<u16> = Vec::new();
    let mut i: usize = 0;
    while i < chars.len()
        invariant
            i <= chars@.len(),
            units@ == utf16(chars@.take(i as int)),
        decreases chars@.len() - i,
    {
        assert(chars@.take(i + 1).drop_last() =~= chars@.take(i as int));
        push_char(&mut units, chars[i]);
        i += 1;
    }
    assert(chars@.take(i as int) =~= text@);
    units.push(0);
    units
}

proof fn lemma_no_nul_in_char(c: char)
    requires
        c != '\0',
    ensures
        forall|i: int| 0 <= i < utf16_char(c).len() ==> utf16_char(c)[i] != 0,
{
}

proof fn lemma_no_nul(s: Seq<char>)
    requires
        !s.contains('\0'),
    ensures
        forall|i: int| 0 <= i < utf16(s).len() ==> utf16(s)[i] != 0,
    decreases s.len(),
{
    if s.len() > 0 {
        assert(s.last() != '\0') by {
            assert(s[s.len() - 1] == s.last());
        }
        assert forall|i: int| 0 <= i < s.drop_last().len() implies s.drop_last()[i] != '\0' by {
            assert(s[i] == s.drop_last()[i]);
        }
        lemma_no_nul(s.drop_last());
        lemma_no_nul_in_char(s.last());
        let before = utf16(s.drop_last());
        assert forall|i: int| 0 <= i < utf16(s).len() implies utf16(s)[i] != 0 by {
            if i < before.len() {
                assert(utf16(s)[i] == before[i]);
            } else {
                assert(utf16(s)[i] == utf16_char(s.last())[i - before.len()]);
            }
        }
    }
}

proof fn lemma_until_nul(units: Seq<u16>, rest: Seq<u16>)
    requires
        forall|i: int| 0 <= i < units.len() ==> units[i] != 0,
    ensures
        until_nul(units + seq![0u16] + rest) == units,
    decreases units.len(),
{
    let all = units + seq![0u16] + rest;
    if units.len() > 0 {
        lemma_until_nul(units.drop_first(), rest);
        assert(all.drop_first() =~= units.drop_first() + seq![0u16] + rest);
        assert(seq![units.first()] + units.drop_first() =~= units);
    } else {
        assert(units =~= Seq::<u16>::empty());
    }
}

/// A reader that stops at the terminator sees the whole text, unless the text itself
/// holds a NUL.
pub proof fn terminator_ends_the_text(s: Seq<char>)
    requires
        !s.contains('\0'),
    ensures
        until_nul(utf16(s).push(0)) == utf16(s),
{
    lemma_no_nul(s);
    lemma_until_nul(utf16(s), Seq::empty());
    assert(utf16(s) + seq![0u16] + Seq::<u16>::empty() =~= utf16(s).push(0));
}

} // verus!
