use kanban_board::text::{decimal_string, parse_decimal, same_text};

const TEXTS: [&str; 40] = [
    "", "0", "5", "9", "10", "42", "007", "+5", "+0", "+", "-", "-1", "-0", "++5", "+-5", "5+",
    " 5", "5 ", "\t5", "5\n", "1_000", "1,000", "1.5", "1e3", "12a", "a12", "0x10", "abc",
    "4294967295", "4294967296", "4294967300", "+4294967295", "04294967295", "42949672950",
    "99999999999999999999", "00000000000000000000000000000001", "٣", "５", "5é", "+é",
];

const NUMBERS: [u32; 16] = [
    0, 1, 9, 10, 11, 99, 100, 101, 1205, 65535, 65536, 999999999, 1000000000, 4294967294,
    4294967295, 2147483648,
];

#[test]
fn numerals_are_read_in_base_ten() {
    assert_eq!(parse_decimal("0"), Some(0));
    assert_eq!(parse_decimal("5"), Some(5));
    assert_eq!(parse_decimal("42"), Some(42));
    assert_eq!(parse_decimal("+42"), Some(42));
    assert_eq!(parse_decimal("0042"), Some(42));
    assert_eq!(parse_decimal("4294967295"), Some(4294967295));
}

#[test]
fn texts_that_are_no_numerals_give_nothing() {
    assert_eq!(parse_decimal(""), None);
    assert_eq!(parse_decimal("+"), None);
    assert_eq!(parse_decimal("-5"), None);
    assert_eq!(parse_decimal("5 "), None);
    assert_eq!(parse_decimal("abc"), None);
    assert_eq!(parse_decimal("٣"), None);
}

#[test]
fn numerals_beyond_the_range_give_nothing() {
    assert_eq!(parse_decimal("4294967296"), None);
    assert_eq!(parse_decimal("42949672950"), None);
    assert_eq!(parse_decimal("99999999999999999999"), None);
    assert_eq!(parse_decimal("4294967296x"), None);
}

#[test]
fn reading_agrees_with_the_standard_library() {
    for text in TEXTS {
        assert_eq!(parse_decimal(text), u32::from_str_radix(text, 10).ok(), "{:?}", text);
    }
}

#[test]
fn numbers_are_written_in_base_ten() {
    assert_eq!(decimal_string(0), "0");
    assert_eq!(decimal_string(7), "7");
    assert_eq!(decimal_string(10), "10");
    assert_eq!(decimal_string(1205), "1205");
    assert_eq!(decimal_string(4294967295), "4294967295");
}

#[test]
fn writing_agrees_with_the_standard_library() {
    for number in NUMBERS {
        assert_eq!(decimal_string(number), format!("{}", number));
    }
}

#[test]
fn reading_what_was_written_gives_the_number_back() {
    for number in NUMBERS {
        assert_eq!(parse_decimal(&decimal_string(number)), Some(number));
    }
}

#[test]
fn texts_are_the_same_only_character_by_character() {
    assert!(same_text("", ""));
    assert!(same_text("board", "board"));
    assert!(same_text("🐶 übersicht", "🐶 übersicht"));
    assert!(!same_text("board", "boards"));
    assert!(!same_text("boards", "board"));
    assert!(!same_text("board", "Board"));
    assert!(!same_text("board", "boarD"));
    assert!(!same_text("", " "));
    assert!(!same_text("🐶", "🐱"));
    assert!(!same_text("e\u{301}", "\u{e9}"));
}

#[test]
fn comparing_agrees_with_the_standard_library() {
    for a in TEXTS {
        for b in TEXTS {
            assert_eq!(same_text(a, b), a == b, "{:?} {:?}", a, b);
        }
    }
}
