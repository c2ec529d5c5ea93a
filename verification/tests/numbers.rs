use wsl_stdin_repro::count::{chars_of, received_count};
use wsl_stdin_repro::decimal::{decimal, read_usize};

fn read(text: &str) -> Option<usize> {
    let chars: Vec<char> = text.chars().collect();
    read_usize(&chars, 0, chars.len())
}

#[test]
fn decimal_writes_as_the_standard_library_does() {
    for n in [0usize, 7, 9, 10, 99, 100, 410, 82_330, 82_403, usize::MAX] {
        assert_eq!(decimal(n), n.to_string());
    }
}

#[test]
fn decimal_is_read_back() {
    for n in [0usize, 1, 10, 200, 60_313, 4_294_967_296, usize::MAX] {
        assert_eq!(read(&decimal(n)), Some(n));
    }
}

#[test]
fn numbers_are_read_as_the_standard_library_reads_them() {
    for text in [
        "", "+", "-", "0", "+0", "-0", "007", "+7", "++7", "7+", "12a", "a12", "1 2", "1_000", "0x10",
        "18446744073709551615", "18446744073709551616", "184467440737095516150",
        "00000000000000000000000000000042", "99999999999999999999999999x", "\u{0663}",
    ] {
        assert_eq!(read(text), text.parse::<usize>().ok(), "{:?}", text);
    }
}

#[test]
fn only_the_given_range_is_read() {
    let chars: Vec<char> = "ab+12cd".chars().collect();
    assert_eq!(read_usize(&chars, 2, 5), Some(12));
    assert_eq!(read_usize(&chars, 3, 4), Some(1));
    assert_eq!(read_usize(&chars, 3, 3), None);
}

#[test]
fn characters_are_listed_in_order() {
    assert_eq!(chars_of("a\u{e9}\u{1f600}b"), vec!['a', '\u{e9}', '\u{1f600}', 'b']);
    assert_eq!(chars_of(""), Vec::<char>::new());
}

#[test]
fn echoed_count_is_read_back() {
    assert_eq!(received_count(b"60313\n"), 60_313);
    assert_eq!(received_count(b"82330\r\n"), 82_330);
    assert_eq!(received_count(b"0\n"), 0);
    assert_eq!(received_count("18446744073709551615\n".as_bytes()), usize::MAX);
}

#[test]
fn anything_else_counts_as_zero() {
    assert_eq!(received_count(b""), 0);
    assert_eq!(received_count(b"\n"), 0);
    assert_eq!(received_count(b"cat: /tmp/wsl_repro.txt: No such file or directory\n"), 0);
    assert_eq!(received_count(b"-5\n"), 0);
    assert_eq!(received_count(b"12 34\n"), 0);
    assert_eq!(received_count(b"18446744073709551616\n"), 0);
}

#[test]
fn broken_utf8_counts_as_zero() {
    assert_eq!(received_count(b"60313\xff"), 0);
    assert_eq!(received_count(b"\xc3\x2860313"), 0);
    assert_eq!(received_count(b"\xed\xa0\x80"), 0);
    assert_eq!(received_count(b"\x80 5"), 0);
}

#[test]
fn lossy_text_is_decoded_before_it_is_trimmed() {
    assert_eq!(received_count("\u{a0}\u{3000}42\u{2003}".as_bytes()), 42);
    assert_eq!(received_count("\u{200b}42".as_bytes()), 0);
}

#[test]
fn white_space_is_that_of_the_standard_library() {
    for value in 0u32..0x3100 {
        if let Some(c) = char::from_u32(value) {
            let text = format!("{}7{}", c, c);
            let expected: usize = text.trim().parse().unwrap_or(0);
            assert_eq!(received_count(text.as_bytes()), expected, "U+{:04X}", value);
        }
    }
    for value in (0x3100u32..=0x10_ffff).step_by(97) {
        if let Some(c) = char::from_u32(value) {
            let text = format!("{}7", c);
            let expected: usize = text.trim().parse().unwrap_or(0);
            assert_eq!(received_count(text.as_bytes()), expected, "U+{:04X}", value);
        }
    }
}
