use ndbc::number::number_text;

#[test]
fn decimals_are_numbers() {
    for token in [
        "0", "12.3", "-45", "+7", "1.", ".5", "-.5", "+0.0", "007", "1e5", "1E5", "1.5e-3",
        "2.e+4", ".5E0", "123456789012345678901234567890", "inf", "INF", "-Infinity", "+nan",
        "NaN", "iNfInItY",
    ] {
        assert!(number_text(token), "{token}");
    }
}

#[test]
fn other_texts_are_no_numbers() {
    for token in [
        "", "+", "-", ".", "-.", "1.2.3", "1-2", "--1", "+-1", "e5", "1e", "1e+", "1e5.0", "1 ",
        " 1", "ABCDE", "1x", "infinit", "in", "nan0", "MM", "1_000", "0x10", "1e1e1",
    ] {
        assert!(!number_text(token), "{token:?}");
    }
}

#[test]
fn numbers_are_what_reads_as_a_float() {
    let parts = ["", "+", "-", ".", "1", "23", "e", "E", "0", "inf", "NaN", "M", "_"];
    for a in parts {
        for b in parts {
            for c in parts {
                for d in parts {
                    let token = format!("{a}{b}{c}{d}");
                    assert_eq!(number_text(&token), token.parse::<f32>().is_ok(), "{token:?}");
                }
            }
        }
    }
}
