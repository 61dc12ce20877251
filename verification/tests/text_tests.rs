use ndbc::schema::{capability_flag, station_code};
use ndbc::text::{
    chars_of, contains_alphabetic, letter, lower_char, same_text, string_of, to_lower, to_upper,
    upper_char,
};

#[test]
fn ascii_codes_change_case_letter_by_letter() {
    assert_eq!(to_upper("41001"), "41001");
    assert_eq!(to_upper("sbio1"), "SBIO1");
    assert_eq!(to_lower("SBIO1"), "sbio1");
    assert_eq!(to_upper("a-z_{`"), "A-Z_{`");
    assert_eq!(to_lower("A-Z_[@"), "a-z_[@");
    assert_eq!(to_upper(""), "");
}

#[test]
fn lower_then_upper_gives_the_capital_form() {
    for code in ["41001", "SBIO1", "sbio1", "KaTx2", "46t29"] {
        let capital = to_upper(code);
        assert_eq!(to_upper(&to_lower(code)), capital);
        assert_eq!(to_upper(&to_lower(&capital)), capital);
        assert_eq!(to_upper(&capital), capital);
    }
}

#[test]
fn other_codes_go_by_the_unicode_mapping() {
    assert_eq!(to_upper("é1"), "É1");
    assert_eq!(to_lower("É1"), "é1");
    assert_eq!(to_upper("straße"), "STRASSE");
}

#[test]
fn station_codes_are_capital() {
    assert_eq!(station_code("sbio1"), "SBIO1");
    assert_eq!(station_code("41001"), "41001");
}

#[test]
fn letters_are_found() {
    assert!(contains_alphabetic("Mar"));
    assert!(contains_alphabetic("2019a"));
    assert!(contains_alphabetic("20é9"));
    assert!(!contains_alphabetic("2019"));
    assert!(!contains_alphabetic(""));
    assert!(!contains_alphabetic("20-19 _"));
}

#[test]
fn texts_are_compared_by_their_characters() {
    assert!(same_text("txt", "txt"));
    assert!(same_text("", ""));
    assert!(!same_text("txt", "txT"));
    assert!(!same_text("txt", "txt "));
    assert!(!same_text("é", "e"));
}

#[test]
fn characters_and_back() {
    let chars = chars_of("aé9 z");
    assert_eq!(chars, vec!['a', 'é', '9', ' ', 'z']);
    assert_eq!(string_of(&chars, 1, 4), "é9 ");
    assert_eq!(string_of(&chars, 2, 2), "");
    assert_eq!(string_of(&chars, 0, 5), "aé9 z");
}

#[test]
fn capability_marks() {
    assert_eq!(capability_flag(Some("y")), Some(true));
    assert_eq!(capability_flag(Some("n")), Some(false));
    assert_eq!(capability_flag(Some("Y")), None);
    assert_eq!(capability_flag(Some("")), None);
    assert_eq!(capability_flag(Some("yes")), None);
    assert_eq!(capability_flag(None), None);
}

#[test]
fn a_capital_letter_beyond_ascii_may_not_come_back() {
    let code = "\u{130}";
    assert_eq!(to_upper(code), code);
    assert_ne!(to_upper(&to_lower(code)), code);
}

#[test]
fn letters_are_what_the_standard_library_calls_alphabetic() {
    let mut code: u32 = 0;
    while code < 0x3100 {
        if let Some(c) = char::from_u32(code) {
            assert_eq!(letter(c), c.is_alphabetic(), "{code:#x}");
        }
        code += 1;
    }
    assert_eq!(upper_char('q'), 'Q');
    assert_eq!(upper_char('Q'), 'Q');
    assert_eq!(upper_char('é'), 'é');
    assert_eq!(lower_char('Q'), 'q');
    assert_eq!(lower_char('1'), '1');
}
