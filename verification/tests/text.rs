use muzanci_cli::text::chars_of;
use muzanci_cli::text::decimal_text;
use muzanci_cli::text::is_white;
use muzanci_cli::text::read_number;
use muzanci_cli::text::same_text;
use muzanci_cli::text::split_words;
use muzanci_cli::text::trim_text;
use muzanci_cli::text::NumberError;

#[test]
fn white_space_is_that_of_the_standard_library() {
    for n in 0..=0x10ffffu32 {
        if let Some(c) = char::from_u32(n) {
            assert_eq!(is_white(c), c.is_whitespace(), "{:x}", n);
        }
    }
}

const SAMPLES: [&str; 14] = [
    "",
    " ",
    "\n",
    "a",
    " a ",
    "m 3\n",
    "  move   12 \r\n",
    "\u{3000}x\u{a0}y\u{2003}",
    "one two  three\tfour",
    "é ü",
    "a\u{200b}b",
    "\u{85}q",
    "tail   ",
    "   head",
];

#[test]
fn trimming_is_that_of_the_standard_library() {
    for s in SAMPLES {
        assert_eq!(trim_text(s), s.trim(), "{:?}", s);
    }
}

#[test]
fn words_are_those_of_the_standard_library() {
    for s in SAMPLES {
        let expected: Vec<&str> = s.trim().split_whitespace().collect();
        assert_eq!(split_words(s), expected, "{:?}", s);
    }
    assert_eq!(split_words("  move   12 \r\n"), vec!["move", "12"]);
}

#[test]
fn numbers_are_those_of_the_standard_library() {
    let samples = [
        "",
        "0",
        "7",
        "+7",
        "+",
        "-",
        "-1",
        "007",
        "12x",
        "x12",
        "1 2",
        "18446744073709551615",
        "18446744073709551616",
        "18446744073709551616x",
        "1844674407370955161x",
        "1844674407370955162x",
        "99999999999999999999999999",
        "99999999999999999999x",
        "+99999999999999999999",
        "++1",
        "١",
        "1_000",
    ];
    for s in samples {
        let expected = s.parse::<usize>().map_err(|e| e.to_string());
        assert_eq!(read_number(s).map_err(|e| e.message()), expected, "{:?}", s);
    }
}

#[test]
fn each_number_error_is_told_apart() {
    assert_eq!(read_number(""), Err(NumberError::Empty));
    assert_eq!(read_number("+"), Err(NumberError::InvalidDigit));
    assert_eq!(read_number("two"), Err(NumberError::InvalidDigit));
    assert_eq!(read_number("99999999999999999999999"), Err(NumberError::TooLarge));
    assert_eq!(NumberError::Empty.message(), "cannot parse integer from empty string");
    assert_eq!(NumberError::InvalidDigit.message(), "invalid digit found in string");
    assert_eq!(NumberError::TooLarge.message(), "number too large to fit in target type");
}

#[test]
fn written_numbers_are_read_back() {
    for n in [0, 1, 9, 10, 11, 99, 100, 12345, 1000000, usize::MAX] {
        assert_eq!(decimal_text(n), n.to_string());
        assert_eq!(read_number(&decimal_text(n)), Ok(n));
    }
}

#[test]
fn texts_are_compared_by_their_characters() {
    assert!(same_text("", ""));
    assert!(same_text("näxt", "näxt"));
    assert!(!same_text("next", "nex"));
    assert!(!same_text("next", "nexT"));
    assert_eq!(chars_of("a✔"), vec!['a', '✔']);
}
