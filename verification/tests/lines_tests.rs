use ndbc::lines::{parse_lines, space_char, token_char, LineFormat, TokenAlphabet};

fn numeric(arity: usize) -> LineFormat {
    LineFormat { arity, alphabet: TokenAlphabet::Numeric, anchored: false }
}

fn strings(tokens: &[&str]) -> Vec<String> {
    tokens.iter().map(|t| t.to_string()).collect()
}

#[test]
fn line_of_exact_arity_yields_one_record() {
    let found = parse_lines("1 2 3 4\n", &numeric(4));
    assert_eq!(found, vec![strings(&["1", "2", "3", "4"])]);
}

#[test]
fn line_with_fewer_tokens_yields_nothing() {
    assert!(parse_lines("1 2 3\n", &numeric(4)).is_empty());
    assert!(parse_lines("\n", &numeric(4)).is_empty());
    assert!(parse_lines("", &numeric(4)).is_empty());
}

#[test]
fn line_with_extra_tokens_yields_its_first_tokens() {
    let found = parse_lines("1 2 3 4 5 6\n", &numeric(4));
    assert_eq!(found, vec![strings(&["1", "2", "3", "4"])]);
}

#[test]
fn line_with_twice_the_tokens_yields_one_record() {
    let found = parse_lines("1 2 3 4 5 6 7 8\n", &numeric(4));
    assert_eq!(found, vec![strings(&["1", "2", "3", "4"])]);
    let found = parse_lines("1 2 3 4 5 6 7 8 9 10 11 12 13\n", &numeric(4));
    assert_eq!(found, vec![strings(&["1", "2", "3", "4"])]);
}

#[test]
fn lines_are_read_alone() {
    assert!(parse_lines("1 2\n3 4\n", &numeric(4)).is_empty());
    assert!(parse_lines("1 2 3\n4\n", &numeric(4)).is_empty());
    assert!(parse_lines("1 2 3 \n 4 5 6\n\n7\n", &numeric(4)).is_empty());
    let found = parse_lines("1 2 3\n4 5 6 7\n8 9\n10 11 12 13 14\n", &numeric(4));
    assert_eq!(
        found,
        vec![strings(&["4", "5", "6", "7"]), strings(&["10", "11", "12", "13"])]
    );
}

#[test]
fn each_full_line_yields_its_record() {
    let mut body = String::new();
    let mut expected = Vec::new();
    for i in 0..50 {
        body.push_str(&format!("{i} {} {} {}\n", i + 1, i + 2, i + 3));
        expected.push(vec![
            i.to_string(),
            (i + 1).to_string(),
            (i + 2).to_string(),
            (i + 3).to_string(),
        ]);
    }
    assert_eq!(parse_lines(&body, &numeric(4)), expected);
    assert_eq!(parse_lines(&body.replace('\n', "\r\n"), &numeric(4)), expected);
}

#[test]
fn last_line_needs_no_line_feed() {
    assert_eq!(parse_lines("1 2 3 4", &numeric(4)), vec![strings(&["1", "2", "3", "4"])]);
    assert_eq!(parse_lines("1 2 3 4 ", &numeric(4)), vec![strings(&["1", "2", "3", "4"])]);
    assert_eq!(
        parse_lines("1 2 3 4\n5 6 7 8", &numeric(4)),
        vec![strings(&["1", "2", "3", "4"]), strings(&["5", "6", "7", "8"])]
    );
    assert_eq!(parse_lines("1 2 3 4\n5 6 7", &numeric(4)), vec![strings(&["1", "2", "3", "4"])]);
}

#[test]
fn leading_whitespace_is_passed_over() {
    assert_eq!(parse_lines("  1 2 3 4\n", &numeric(4)), vec![strings(&["1", "2", "3", "4"])]);
    let anchored = LineFormat { arity: 4, alphabet: TokenAlphabet::Numeric, anchored: true };
    assert!(parse_lines("  1 2 3 4\n", &anchored).is_empty());
    assert_eq!(parse_lines("1 2 3 4\n", &anchored).len(), 1);
}

#[test]
fn header_lines_are_passed_over() {
    let body = "#YY  MM DD hh mm WDIR\n#yr  mo dy hr mn degT\n2019 01 02 03 04 270\n2019 01 02 03 14 MM\n";
    let found = parse_lines(body, &numeric(6));
    assert_eq!(
        found,
        vec![
            strings(&["2019", "01", "02", "03", "04", "270"]),
            strings(&["2019", "01", "02", "03", "14", "MM"]),
        ]
    );
}

#[test]
fn tokens_may_be_split_by_tabs_and_runs_of_blanks() {
    let found = parse_lines("1.5\t-2   +3\r\n", &numeric(3));
    assert_eq!(found, vec![strings(&["1.5", "-2", "+3"])]);
}

#[test]
fn a_record_may_start_inside_a_word() {
    let found = parse_lines("ab12 3 4\n", &numeric(3));
    assert_eq!(found, vec![strings(&["12", "3", "4"])]);
}

#[test]
fn anchored_records_start_a_line() {
    let format = LineFormat { arity: 3, alphabet: TokenAlphabet::Coded, anchored: true };
    let body = "#YY MM DD\nx 2024 01 02 \n2024 03 WNW\n";
    assert_eq!(parse_lines(body, &format), vec![strings(&["2024", "03", "WNW"])]);
    let loose = LineFormat { arity: 3, alphabet: TokenAlphabet::Coded, anchored: false };
    assert_eq!(
        parse_lines(body, &loose),
        vec![
            strings(&["YY", "MM", "DD"]),
            strings(&["2024", "01", "02"]),
            strings(&["2024", "03", "WNW"]),
        ]
    );
}

#[test]
fn format_without_fields_finds_nothing() {
    assert!(parse_lines("1 2 3\n", &numeric(0)).is_empty());
}

#[test]
fn alphabets_differ_in_letters() {
    assert!(token_char(TokenAlphabet::Numeric, 'M'));
    assert!(!token_char(TokenAlphabet::Numeric, 'N'));
    assert!(!token_char(TokenAlphabet::Numeric, '_'));
    assert!(token_char(TokenAlphabet::Coded, 'N'));
    assert!(token_char(TokenAlphabet::Coded, '_'));
    assert!(!token_char(TokenAlphabet::Coded, 'n'));
    for c in ['0', '9', '+', '.', '-'] {
        assert!(token_char(TokenAlphabet::Numeric, c));
        assert!(token_char(TokenAlphabet::Coded, c));
    }
    for c in [' ', '#', '/', ':'] {
        assert!(!token_char(TokenAlphabet::Numeric, c));
        assert!(!token_char(TokenAlphabet::Coded, c));
    }
}

#[test]
fn whitespace_is_what_the_standard_library_calls_whitespace() {
    let mut code: u32 = 0;
    while code < 0x3100 {
        if let Some(c) = char::from_u32(code) {
            assert_eq!(space_char(c), c.is_whitespace(), "{code:#x}");
        }
        code += 1;
    }
}
