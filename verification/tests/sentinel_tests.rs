use ndbc::sentinel::check_null_string;

#[test]
fn every_marker_of_missing_data_is_recognised() {
    let markers = [
        "9", "9.0", "9.00", "9.000", "99", "99.0", "99.00", "99.000", "999", "999.0", "999.00",
        "999.000", "9999", "9999.0", "9999.00", "9999.000", "M", "MM", "MMM", "MMMM",
    ];
    assert_eq!(markers.len(), 20);
    for m in markers {
        assert!(check_null_string(m), "{m}");
    }
}

#[test]
fn readings_are_not_markers() {
    for token in ["0", "12.3", "-45", "ABCDE"] {
        assert!(!check_null_string(token), "{token}");
    }
}

#[test]
fn near_markers_are_not_markers() {
    for token in [
        "", "99999", "9.0000", "9.", "9.1", ".0", "MMMMM", "m", "M9", "9M", "99.0 ", " 99", "90",
        "9.00.0", "99999.0", "9..0", "0.9",
    ] {
        assert!(!check_null_string(token), "{token:?}");
    }
}
