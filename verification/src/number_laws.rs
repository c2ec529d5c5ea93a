//! What holds of numbers and texts: how they are written, read, trimmed, counted and encoded.

use crate::count::is_white_space;
use crate::count::reported_count;
use crate::count::trim_end;
use crate::count::trim_start;
use crate::count::trimmed;
use crate::decimal::decimal_text;
use crate::decimal::digits_value;
use crate::decimal::is_digits;
use crate::decimal::usize_of;
use crate::decimal::without_plus;
use crate::status::hresult_of_nt;
use crate::status::outcome_of;
use crate::wide::utf16;
use crate::wide::utf16_char;
use vstd::prelude::*;
use vstd::utf8::decode_utf8;
use vstd::utf8::encode_utf8;

verus! {

/// A number below ten is written as one digit, and ten times a number and a digit as that
/// number and, behind it, the digit.
pub proof fn decimal_grows_by_a_digit(n: nat, d: nat)
    requires
        d < 10,
    ensures
        decimal_text(d).len() == 1,
        decimal_text(d)[0] as nat == '0' as nat + d,
        n > 0 ==> decimal_text(10 * n + d).drop_last() == decimal_text(n),
        n > 0 ==> decimal_text(10 * n + d).last() as nat == '0' as nat + d,
{
    if n > 0 {
        assert((10 * n + d) / 10 == n);
        assert((10 * n + d) % 10 == d);
        assert(decimal_text(10 * n + d).drop_last() =~= decimal_text(n));
    }
}

/// A number is written in digits alone, and begins with a zero only where it is zero.
pub proof fn decimal_has_no_leading_zero(n: nat)
    ensures
        decimal_text(n).len() > 0,
        forall|i: int| 0 <= i < decimal_text(n).len() ==> '0' <= #[trigger] decimal_text(n)[i] <= '9',
        n > 0 ==> decimal_text(n)[0] != '0',
    decreases n,
{
    if n >= 10 {
        decimal_has_no_leading_zero(n / 10);
        let before = decimal_text(n / 10);
        assert forall|i: int| 0 <= i < decimal_text(n).len() implies '0'
            <= #[trigger] decimal_text(n)[i] <= '9' by {
            if i < before.len() {
                assert(decimal_text(n)[i] == before[i]);
            }
        }
        assert(decimal_text(n)[0] == before[0]);
    }
}

/// Two numbers are written alike only where they are the same.
pub proof fn decimals_differ(m: nat, n: nat)
    requires
        decimal_text(m) == decimal_text(n),
    ensures
        m == n,
{
    crate::decimal::lemma_decimal_digits(m);
    crate::decimal::lemma_decimal_digits(n);
}

/// A single digit is read as the number that it stands for.
pub proof fn digit_is_read(c: char)
    requires
        '0' <= c <= '9',
    ensures
        usize_of(seq![c]) == Some((c as nat - '0' as nat) as usize),
{
    let s = seq![c];
    assert(without_plus(s) == s);
    assert(s.drop_last() =~= Seq::<char>::empty());
    assert(digits_value(Seq::<char>::empty()) == 0);
    assert(digits_value(s) == (c as nat - 0x30) as nat);
    assert(is_digits(s));
}

proof fn lemma_push_digits(s: Seq<char>, c: char)
    requires
        s.len() > 0,
    ensures
        is_digits(s.push(c)) <==> is_digits(s) && '0' <= c <= '9',
        digits_value(s.push(c)) == digits_value(s) * 10 + (c as nat - 0x30) as nat,
{
    let t = s.push(c);
    assert(t.drop_last() =~= s);
    assert(t.last() == c);
    if is_digits(t) {
        assert forall|i: int| 0 <= i < s.len() implies crate::decimal::is_digit(#[trigger] s[i]) by {
            assert(t[i] == s[i]);
        }
        assert(crate::decimal::is_digit(t[s.len() as int]));
    }
    if is_digits(s) && '0' <= c <= '9' {
        assert forall|i: int| 0 <= i < t.len() implies crate::decimal::is_digit(#[trigger] t[i]) by {
            if i < s.len() {
                assert(t[i] == s[i]);
            }
        }
    }
}

/// A digit behind a number that was read makes it ten times as large and adds the digit. The
/// longer text is a number exactly where the result can be held.
pub proof fn number_grows_by_a_digit(s: Seq<char>, n: usize, c: char)
    requires
        usize_of(s) == Some(n),
        '0' <= c <= '9',
    ensures
        10 * n + (c as nat - '0' as nat) <= usize::MAX ==> usize_of(s.push(c)) == Some(
            (10 * n + (c as nat - '0' as nat)) as usize,
        ),
        10 * n + (c as nat - '0' as nat) > usize::MAX ==> usize_of(s.push(c)) is None,
{
    let digits = without_plus(s);
    assert(digits.len() > 0);
    assert(without_plus(s.push(c)) =~= digits.push(c));
    lemma_push_digits(digits, c);
}

/// What is no number, and more than a plus sign, becomes none by what is put behind it.
pub proof fn no_number_stays_none(s: Seq<char>, c: char)
    requires
        s.len() > 0,
        s != seq!['+'],
        usize_of(s) is None,
    ensures
        usize_of(s.push(c)) is None,
{
    let digits = without_plus(s);
    if s.len() == 1 && s[0] == '+' {
        assert(s =~= seq!['+']);
    }
    assert(digits.len() > 0);
    assert(without_plus(s.push(c)) =~= digits.push(c));
    lemma_push_digits(digits, c);
}

/// A plus sign before a text that does not begin with one changes nothing. Nothing at all is
/// no number, and neither is the sign alone.
pub proof fn plus_sign_is_skipped(s: Seq<char>)
    requires
        s.len() > 0 ==> s[0] != '+',
    ensures
        usize_of(seq!['+'] + s) == usize_of(s),
        s.len() == 0 ==> usize_of(s) is None,
{
    assert((seq!['+'] + s).skip(1) =~= s);
}

/// A number holds nothing but digits, behind a plus sign that may come first.
pub proof fn number_is_made_of_digits(s: Seq<char>, i: int)
    requires
        0 <= i < s.len(),
        usize_of(s) is Some,
    ensures
        '0' <= s[i] <= '9' || (i == 0 && s[i] == '+'),
        '0' <= s.last() <= '9',
{
    let digits = without_plus(s);
    if s[0] == '+' {
        if i > 0 {
            assert(digits[i - 1] == s[i]);
        }
        assert(digits[digits.len() - 1] == s.last());
    } else {
        assert(digits[i] == s[i]);
        assert(digits[s.len() - 1] == s.last());
    }
}

/// White space is the characters with Unicode's White_Space property, by their numbers.
pub proof fn white_space_by_number(c: char)
    ensures
        is_white_space(c) <==> (9 <= c as int <= 13 || 0x2000 <= c as int <= 0x200a || set![
            0x20int,
            0x85,
            0xa0,
            0x1680,
            0x2028,
            0x2029,
            0x202f,
            0x205f,
            0x3000,
        ].contains(c as int)),
{
}

/// Whether a text is white space throughout.
pub open spec fn blank(s: Seq<char>) -> bool {
    forall|i: int| 0 <= i < s.len() ==> is_white_space(#[trigger] s[i])
}

proof fn lemma_trim_start_splits(s: Seq<char>) -> (pad: Seq<char>)
    ensures
        blank(pad),
        s == pad + trim_start(s),
        trim_start(s).len() > 0 ==> !is_white_space(trim_start(s).first()),
    decreases s.len(),
{
    if s.len() > 0 && is_white_space(s.first()) {
        let rest = lemma_trim_start_splits(s.drop_first());
        let pad = seq![s.first()] + rest;
        assert forall|i: int| 0 <= i < pad.len() implies is_white_space(#[trigger] pad[i]) by {
            if i > 0 {
                assert(pad[i] == rest[i - 1]);
            }
        }
        assert(s =~= seq![s.first()] + s.drop_first());
        assert(s =~= seq![s.first()] + (rest + trim_start(s)));
        assert(s =~= pad + trim_start(s));
        pad
    } else {
        assert(s =~= Seq::<char>::empty() + s);
        Seq::empty()
    }
}

proof fn lemma_trim_end_splits(s: Seq<char>) -> (pad: Seq<char>)
    ensures
        blank(pad),
        s == trim_end(s) + pad,
        trim_end(s).len() > 0 ==> !is_white_space(trim_end(s).last()),
    decreases s.len(),
{
    if s.len() > 0 && is_white_space(s.last()) {
        let rest = lemma_trim_end_splits(s.drop_last());
        let pad = rest.push(s.last());
        assert forall|i: int| 0 <= i < pad.len() implies is_white_space(#[trigger] pad[i]) by {
            if i < rest.len() {
                assert(pad[i] == rest[i]);
            }
        }
        assert(s =~= s.drop_last().push(s.last()));
        assert(s =~= (trim_end(s) + rest).push(s.last()));
        assert(s =~= trim_end(s) + pad);
        pad
    } else {
        assert(s =~= s + Seq::<char>::empty());
        Seq::empty()
    }
}

/// Trimming takes white space from both ends of a text, all of it, and nothing else.
pub proof fn trimming_splits_off_white_space(s: Seq<char>) -> (pads: (Seq<char>, Seq<char>))
    ensures
        ({
            let (before, after) = pads;
            &&& blank(before)
            &&& blank(after)
            &&& s == before + trimmed(s) + after
            &&& trimmed(s).len() > 0 ==> !is_white_space(trimmed(s).first()) && !is_white_space(
                trimmed(s).last(),
            )
        }),
{
    let before = lemma_trim_start_splits(s);
    let middle = trim_start(s);
    let after = lemma_trim_end_splits(middle);
    assert(s =~= before + trimmed(s) + after);
    if trimmed(s).len() > 0 {
        assert(trimmed(s).first() == middle.first());
    }
    (before, after)
}

proof fn lemma_trim_start_of_padded(pad: Seq<char>, s: Seq<char>)
    requires
        blank(pad),
        s.len() > 0,
        !is_white_space(s.first()),
    ensures
        trim_start(pad + s) == s,
    decreases pad.len(),
{
    if pad.len() > 0 {
        assert(is_white_space(pad[0]));
        assert((pad + s).first() == pad[0]);
        assert((pad + s).drop_first() =~= pad.drop_first() + s);
        assert forall|i: int| 0 <= i < pad.drop_first().len() implies is_white_space(
            #[trigger] pad.drop_first()[i],
        ) by {
            assert(pad.drop_first()[i] == pad[i + 1]);
        }
        lemma_trim_start_of_padded(pad.drop_first(), s);
    } else {
        assert(pad + s =~= s);
    }
}

proof fn lemma_trim_end_of_padded(s: Seq<char>, pad: Seq<char>)
    requires
        blank(pad),
        s.len() > 0,
        !is_white_space(s.last()),
    ensures
        trim_end(s + pad) == s,
    decreases pad.len(),
{
    if pad.len() > 0 {
        let last = pad.len() - 1;
        assert(is_white_space(pad[last]));
        assert((s + pad).last() == pad[last]);
        assert((s + pad).drop_last() =~= s + pad.drop_last());
        assert forall|i: int| 0 <= i < pad.drop_last().len() implies is_white_space(
            #[trigger] pad.drop_last()[i],
        ) by {
            assert(pad.drop_last()[i] == pad[i]);
        }
        lemma_trim_end_of_padded(s, pad.drop_last());
    } else {
        assert(s + pad =~= s);
    }
}

/// A number is counted as what it is, whatever white space stands before and behind it.
pub proof fn padded_number_is_counted(before: Seq<char>, s: Seq<char>, after: Seq<char>, n: usize)
    requires
        blank(before),
        blank(after),
        usize_of(s) == Some(n),
    ensures
        reported_count(encode_utf8(before + s + after)) == n,
{
    let text = before + s + after;
    vstd::utf8::encode_utf8_valid_utf8(text);
    vstd::utf8::encode_utf8_decode_utf8(text);
    if s.len() == 0 {
        plus_sign_is_skipped(s);
    }
    number_is_made_of_digits(s, 0);
    assert(!is_white_space(s.first()));
    assert(!is_white_space(s.last()));
    assert(text =~= before + (s + after));
    assert((s + after).first() == s.first());
    lemma_trim_start_of_padded(before, s + after);
    lemma_trim_end_of_padded(s, after);
}

/// A count other than zero comes from a file that is UTF-8 and holds that number and, around
/// it, nothing but white space.
pub proof fn count_stands_in_the_file(bytes: Seq<u8>) -> (parts: (Seq<char>, Seq<char>, Seq<char>))
    requires
        reported_count(bytes) != 0,
    ensures
        ({
            let (before, s, after) = parts;
            &&& bytes == encode_utf8(before + s + after)
            &&& blank(before)
            &&& blank(after)
            &&& usize_of(s) == Some(reported_count(bytes))
        }),
{
    let text = decode_utf8(bytes);
    vstd::utf8::decode_utf8_encode_utf8(bytes);
    let (before, after) = trimming_splits_off_white_space(text);
    (before, trimmed(text), after)
}

/// A character below 0x10000 is its own code unit. Any other becomes two, a high and a low
/// surrogate, from which its number can be had back.
pub proof fn code_units_of_a_character(c: char)
    ensures
        (c as int) < 0x1_0000 ==> utf16(seq![c]).len() == 1 && utf16(seq![c])[0] == c as int,
        (c as int) >= 0x1_0000 ==> {
            let units = utf16(seq![c]);
            &&& units.len() == 2
            &&& 0xd800 <= units[0] <= 0xdbff
            &&& 0xdc00 <= units[1] <= 0xdfff
            &&& 0x1_0000 + (units[0] - 0xd800) * 0x400 + (units[1] - 0xdc00) == c as int
        },
{
    let s = seq![c];
    assert(s.drop_last() =~= Seq::<char>::empty());
    assert(utf16(Seq::<char>::empty()) =~= Seq::<u16>::empty());
    assert(utf16(s) =~= utf16_char(c));
}

/// Two texts one after the other are encoded one after the other.
pub proof fn code_units_of_two_texts(a: Seq<char>, b: Seq<char>)
    ensures
        utf16(a + b) == utf16(a) + utf16(b),
    decreases b.len(),
{
    if b.len() == 0 {
        assert(a + b =~= a);
        assert(utf16(a) + utf16(b) =~= utf16(a));
    } else {
        code_units_of_two_texts(a, b.drop_last());
        assert((a + b).drop_last() =~= a + b.drop_last());
        assert(utf16(a + b) =~= utf16(a) + utf16(b));
    }
}

/// A code says success or is itself the error, by its sign.
pub proof fn sign_decides(code: i32)
    ensures
        code >= 0 ==> outcome_of(code) is Ok,
        code < 0 ==> (outcome_of(code) matches Err(error) && error.code == code),
{
}

/// A success keeps its number. A failure stays one and keeps all of its number but the bit
/// that marks the NT kernel, which is set.
pub proof fn kernel_bit_is_set(status: i32)
    ensures
        status >= 0 ==> hresult_of_nt(status) == status,
        status < 0 ==> hresult_of_nt(status) < 0,
        status < 0 ==> hresult_of_nt(status) & 0x1000_0000 == 0x1000_0000,
        status < 0 ==> hresult_of_nt(status) & !0x1000_0000i32 == status & !0x1000_0000i32,
{
    if status < 0 {
        assert((status | 0x1000_0000) < 0) by (bit_vector)
            requires
                status < 0,
        ;
        assert((status | 0x1000_0000) & 0x1000_0000 == 0x1000_0000) by (bit_vector);
        assert((status | 0x1000_0000) & !0x1000_0000i32 == status & !0x1000_0000i32) by (bit_vector);
    }
}

} // verus!
