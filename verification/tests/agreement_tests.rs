use ndbc::lines::{parse_lines, LineFormat, TokenAlphabet};
use ndbc::listing::search;

fn by_pattern(pattern: &str, body: &str) -> Vec<Vec<String>> {
    search(pattern, body)
        .unwrap()
        .into_iter()
        .map(|row| row.into_iter().skip(1).map(|g| g.unwrap()).collect())
        .collect()
}

fn numeric_pattern(arity: usize) -> String {
    r"([0-9M\+\.-]+)[\s\n]+".repeat(arity)
}

fn coded_pattern(arity: usize) -> String {
    r"(?m)^".to_string() + &r"([A-Z0-9\+\.\-_]+)[\s\n]+".repeat(arity)
}

const METEOROLOGICAL: &str = "#YY  MM DD hh mm WDIR WSPD GST  WVHT   DPD   APD MWD   PRES  ATMP  WTMP  DEWP  VIS PTDY  TIDE\n\
    #yr  mo dy hr mn degT m/s  m/s     m   sec   sec degT   hPa  degC  degC  degC  nmi  hPa    ft\n\
    2024 03 01 12 30 210  5.0  7.0   1.2     8   6.1 200 1013.2  18.1  19.0  15.5   MM -1.2    MM\n\
    2024 03 01 12 20 210  5.0  7.0   1.2     8   6.1 200 1013.2  18.1  19.0  15.5   MM -1.2    MM\n\
    2024 03 01 12 00 210  5.0  7.0   1.2     8   6.1 200 1013.2  18.1  19.0  15.5   MM -1.2    MM\n";

const WAVES: &str = "#YY  MM DD hh mm WVHT  SwH  SwP  WWH  WWP SwD WWD  STEEPNESS  APD MWD\n\
    #yr  mo dy hr mn    m    m  sec    m  sec  -  degT     -      sec degT\n\
    2024 03 01 12 30  1.2  0.9 10.5  0.8  4.3 ESE  SE VERY_STEEP  5.1 120\n\
    2024 03 01 13 30  1.1   MM   MM  0.7   MM  MM   E        MM   4.9 999\n";

#[test]
fn on_a_file_of_full_lines_the_parser_finds_what_the_pattern_finds() {
    let numeric = LineFormat { arity: 19, alphabet: TokenAlphabet::Numeric, anchored: false };
    let found = parse_lines(METEOROLOGICAL, &numeric);
    assert_eq!(found.len(), 3);
    assert_eq!(found, by_pattern(&numeric_pattern(19), METEOROLOGICAL));
    let coded = LineFormat { arity: 15, alphabet: TokenAlphabet::Coded, anchored: true };
    let found = parse_lines(WAVES, &coded);
    assert_eq!(found.len(), 2);
    assert_eq!(found, by_pattern(&coded_pattern(15), WAVES));
}

#[test]
fn unlike_the_pattern_the_parser_joins_no_lines() {
    let body = "2024 03 01 12 30 210 5.0 215\n7.5 1227\n";
    let numeric = LineFormat { arity: 10, alphabet: TokenAlphabet::Numeric, anchored: false };
    assert_eq!(by_pattern(&numeric_pattern(10), body).len(), 1);
    assert!(parse_lines(body, &numeric).is_empty());
}
