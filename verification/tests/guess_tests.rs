use guessing_game::guess::{parse_guess, GUESS_MAX};

#[test]
fn plain_numbers_are_read() {
    assert_eq!(parse_guess("0"), Some(0));
    assert_eq!(parse_guess("1"), Some(1));
    assert_eq!(parse_guess("42"), Some(42));
    assert_eq!(parse_guess("100"), Some(100));
    assert_eq!(parse_guess("255"), Some(255));
}

#[test]
fn largest_guess_is_255() {
    assert_eq!(GUESS_MAX, 255);
    assert_eq!(parse_guess("255"), Some(GUESS_MAX));
    assert_eq!(parse_guess("256"), None);
}

#[test]
fn blanks_around_the_number_are_dropped() {
    assert_eq!(parse_guess("42\n"), Some(42));
    assert_eq!(parse_guess("42\r\n"), Some(42));
    assert_eq!(parse_guess("  42  "), Some(42));
    assert_eq!(parse_guess("\t7\u{b}\u{c}"), Some(7));
    assert_eq!(parse_guess("\u{3000}12\u{2003}\u{a0}"), Some(12));
    assert_eq!(parse_guess("\u{85}\u{1680}9\u{2028}\u{2029}\u{202f}\u{205f}"), Some(9));
}

#[test]
fn blanks_inside_the_number_spoil_it() {
    assert_eq!(parse_guess("1 2"), None);
    assert_eq!(parse_guess("+ 2"), None);
    assert_eq!(parse_guess("4\t2\n"), None);
}

#[test]
fn words_hold_no_guess() {
    assert_eq!(parse_guess("abc"), None);
    assert_eq!(parse_guess("abc\n"), None);
    assert_eq!(parse_guess("12a"), None);
    assert_eq!(parse_guess("a12"), None);
    assert_eq!(parse_guess("1.5"), None);
    assert_eq!(parse_guess("0x10"), None);
    assert_eq!(parse_guess("1_0"), None);
}

#[test]
fn empty_and_blank_lines_hold_no_guess() {
    assert_eq!(parse_guess(""), None);
    assert_eq!(parse_guess("\n"), None);
    assert_eq!(parse_guess("   \t \r\n"), None);
}

#[test]
fn sign_rules() {
    assert_eq!(parse_guess("+7"), Some(7));
    assert_eq!(parse_guess(" +007 "), Some(7));
    assert_eq!(parse_guess("+"), None);
    assert_eq!(parse_guess("++7"), None);
    assert_eq!(parse_guess("-7"), None);
    assert_eq!(parse_guess("-0"), None);
    assert_eq!(parse_guess("7+"), None);
}

#[test]
fn leading_zeros_are_allowed() {
    assert_eq!(parse_guess("007"), Some(7));
    assert_eq!(parse_guess("0000000000000000000000000000000000000255"), Some(255));
    assert_eq!(parse_guess("0000000000000000000000000000000000000256"), None);
}

#[test]
fn numbers_out_of_range_hold_no_guess() {
    assert_eq!(parse_guess("256"), None);
    assert_eq!(parse_guess("260"), None);
    assert_eq!(parse_guess("1000"), None);
    assert_eq!(parse_guess("4294967296"), None);
    assert_eq!(parse_guess("4294967297"), None);
    assert_eq!(parse_guess("99999999999999999999999999999999999999999999"), None);
    assert_eq!(parse_guess("2560"), None);
    assert_eq!(parse_guess("25a"), None);
    assert_eq!(parse_guess("999a"), None);
}

#[test]
fn digits_of_other_scripts_hold_no_guess() {
    assert_eq!(parse_guess("\u{ff14}\u{ff12}"), None);
    assert_eq!(parse_guess("\u{663}"), None);
}

#[test]
fn every_number_in_range_is_read_back() {
    for n in 0u32..=1000 {
        let text = format!("{}\n", n);
        let expected = if n <= 255 { Some(n as u8) } else { None };
        assert_eq!(parse_guess(&text), expected);
    }
}

#[test]
fn agrees_with_trim_and_parse_on_every_wrapping_character() {
    for code in 0u32..0x3100 {
        if let Some(c) = char::from_u32(code) {
            let around = format!("{}5{}", c, c);
            assert_eq!(parse_guess(&around), around.trim().parse::<u8>().ok());
            let before = format!("{}17", c);
            assert_eq!(parse_guess(&before), before.trim().parse::<u8>().ok());
            let between = format!("1{}7", c);
            assert_eq!(parse_guess(&between), between.trim().parse::<u8>().ok());
            let alone = format!("{}", c);
            assert_eq!(parse_guess(&alone), alone.trim().parse::<u8>().ok());
        }
    }
}
