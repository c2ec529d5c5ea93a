//! The character count that bash wrote, read from the bytes of its result file.

use crate::decimal::decimal_text;
use crate::decimal::read_usize;
use vstd::prelude::*;
use vstd::utf8::decode_utf8;
use vstd::utf8::encode_utf8;
use vstd::utf8::valid_utf8;

verus! {

/// Whether a character has Unicode's White_Space property.
pub open spec fn is_white_space(c: char) -> bool {
    ||| '\u{9}' <= c <= '\u{d}'
    ||| c == '\u{20}'
    ||| c == '\u{85}'
    ||| c == '\u{a0}'
    ||| c == '\u{1680}'
    ||| '\u{2000}' <= c <= '\u{200a}'
    ||| c == '\u{2028}'
    ||| c == '\u{2029}'
    ||| c == '\u{202f}'
    ||| c == '\u{205f}'
    ||| c == '\u{3000}'
}

/// A text from its first character that is no white space on.
pub open spec fn trim_start(s: Seq<char>) -> Seq<char>
    decreases s.len(),
{
    if s.len() > 0 && is_white_space(s.first()) {
        trim_start(s.drop_first())
    } else {
        s
    }
}

/// A text up to its last character that is no white space.
pub open spec fn trim_end(s: Seq<char>) -> Seq<char>
    decreases s.len(),
{
    if s.len() > 0 && is_white_space(s.last()) {
        trim_end(s.drop_last())
    } else {
        s
    }
}

/// A text without the white space at either end.
pub open spec fn trimmed(s: Seq<char>) -> Seq<char> {
    trim_end(trim_start(s))
}

/// The count that a result file reports: its trimmed text read as a number, or zero
/// where the file holds anything else.
pub open spec fn reported_count(bytes: Seq<u8>) -> usize {
    if valid_utf8(bytes) {
        match crate::decimal::usize_of(trimmed(decode_utf8(bytes))) {
            Some(n) => n,
            None => 0,
        }
    } else {
        0
    }
}

/// `String::from_utf8_lossy`: bytes that are UTF-8 give the text that they encode, and
/// any others give a text in which U+FFFD stands for what could not be decoded.
#[verifier::external_body]
fn utf8_lossy(bytes: &[u8]) -> (text: String)
    ensures
        valid_utf8(bytes@) ==> text@ == decode_utf8(bytes@),
        !valid_utf8(bytes@) ==> text@.contains('\u{fffd}'),
{
    String::from_utf8_lossy(bytes).into_owned()
}

fn white_space(c: char) -> (yes: bool)
    ensures
        yes == is_white_space(c),
{
    ('\u{9}' <= c && c <= '\u{d}') || c == '\u{20}' || c == '\u{85}' || c == '\u{a0}' || c
        == '\u{1680}' || ('\u{2000}' <= c && c <= '\u{200a}') || c == '\u{2028}' || c == '\u{2029}'
        || c == '\u{202f}' || c == '\u{205f}' || c == '\u{3000}'
}

/// The characters of a text, one by one.
pub fn chars_of(text: &str) -> (chars: Vec<char>)
    ensures
        chars@ == text@,
{
    let mut chars: Vec<char> = Vec::new();
    for c in it: text.chars()
        invariant
            it.seq() == text@,
            chars@ == text@.take(it.index()),
    {
        chars.push(c);
        assert(text@.take(it.index() + 1) =~= text@.take(it.index()).push(c));
    }
    assert(text@.take(text@.len() as int) =~= text@);
    chars
}

/// Where the trimmed part of a text begins and ends.
fn trim_bounds(chars: &Vec<char>) -> (bounds: (usize, usize))
    ensures
        bounds.0 <= bounds.1 <= chars@.len(),
        chars@.subrange(bounds.0 as int, bounds.1 as int) == trimmed(chars@),
{
    let n = chars.len();
    let mut from: usize = 0;
    assert(chars@.skip(0) =~= chars@);
    while from < n && white_space(chars[from])
        invariant
            from <= n == chars@.len(),
            trim_start(chars@.skip(from as int)) == trim_start(chars@),
        decreases n - from,
    {
        assert(chars@.skip(from as int).drop_first() =~= chars@.skip(from + 1));
        from += 1;
    }
    let ghost rest = trim_start(chars@);
    assert(rest == chars@.skip(from as int));
    let mut to: usize = n;
    assert(chars@.subrange(from as int, to as int) =~= rest);
    while to > from && white_space(chars[to - 1])
        invariant
            from <= to <= n == chars@.len(),
            trim_end(chars@.subrange(from as int, to as int)) == trim_end(rest),
        decreases to,
    {
        assert(chars@.subrange(from as int, to as int).drop_last() =~= chars@.subrange(
            from as int,
            to - 1,
        ));
        to -= 1;
    }
    (from, to)
}

proof fn lemma_trim_keeps(s: Seq<char>, c: char)
    requires
        s.contains(c),
        !is_white_space(c),
    ensures
        trimmed(s).contains(c),
{
    lemma_trim_start_keeps(s, c);
    lemma_trim_end_keeps(trim_start(s), c);
}

proof fn lemma_trim_start_keeps(s: Seq<char>, c: char)
    requires
        s.contains(c),
        !is_white_space(c),
    ensures
        trim_start(s).contains(c),
    decreases s.len(),
{
    if s.len() > 0 && is_white_space(s.first()) {
        let i = s.index_of(c);
        assert(s.drop_first()[i - 1] == c);
        lemma_trim_start_keeps(s.drop_first(), c);
    }
}

proof fn lemma_trim_end_keeps(s: Seq<char>, c: char)
    requires
        s.contains(c),
        !is_white_space(c),
    ensures
        trim_end(s).contains(c),
    decreases s.len(),
{
    if s.len() > 0 && is_white_space(s.last()) {
        let i = s.index_of(c);
        assert(s.drop_last()[i] == c);
        lemma_trim_end_keeps(s.drop_last(), c);
    }
}

proof fn lemma_foreign_char_is_no_number(s: Seq<char>, c: char)
    requires
        s.contains(c),
        !crate::decimal::is_digit(c),
        c != '+',
    ensures
        crate::decimal::usize_of(s) is None,
{
    let i = s.index_of(c);
    let digits = crate::decimal::without_plus(s);
    if s[0] == '+' {
        assert(digits[i - 1] == c);
    } else {
        assert(digits[i] == c);
    }
}

/// Reads the count from the bytes of the result file.
pub fn received_count(bytes: &[u8]) -> (count: usize)
    ensures
        count == reported_count(bytes@),
{
    let text = utf8_lossy(bytes);
    let chars = chars_of(text.as_str());
    let (from, to) = trim_bounds(&chars);
    proof {
        if !valid_utf8(bytes@) {
            lemma_trim_keeps(text@, '\u{fffd}');
            lemma_foreign_char_is_no_number(trimmed(text@), '\u{fffd}');
        }
    }
    match read_usize(&chars, from, to) {
        Some(count) => count,
        None => 0,
    }
}

/// The line that `echo` writes for a count is read back as that count.
pub proof fn echoed_count_reads_back(n: usize)
    ensures
        reported_count(encode_utf8(decimal_text(n as nat).push('\n'))) == n,
{
    let text = decimal_text(n as nat);
    let line = text.push('\n');
    vstd::utf8::encode_utf8_valid_utf8(line);
    vstd::utf8::encode_utf8_decode_utf8(line);
    crate::decimal::lemma_decimal_digits(n as nat);
    crate::decimal::decimal_reads_back(n);
    assert(line.first() == text[0]);
    assert(line.drop_last() =~= text);
    assert(trim_end(text) == text);
    assert(trimmed(line) == text);
}

} // verus!
