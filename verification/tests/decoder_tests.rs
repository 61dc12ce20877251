use ndbc::decoders::{
    clock_text_of, compact_clock_text_of, decode, decode_cwind, decode_historical_stdmet,
    decode_realtime_spec, decode_realtime_stdmet, decode_realtime_stdmetdrift, ContinuousWinds,
    HistoricalStdMet, Layout, RealtimeStdMet, RealtimeStdMetDrift, RealtimeWaveSummary,
};
use ndbc::lines::{LineFormat, TokenAlphabet};
use ndbc::records::{find_unreadable, read_value, DecodeError, StationStdMetData};
use ndbc::timestamp::{read_clock, read_compact_clock, Timestamp};

fn at(year: i32, month: u32, day: u32, hour: u32, minute: u32) -> Timestamp {
    Timestamp { year, month, day, hour, minute, second: 0 }
}

fn strings(tokens: &[&str]) -> Vec<String> {
    tokens.iter().map(|t| t.to_string()).collect()
}

fn some(text: &str) -> Option<String> {
    Some(text.to_string())
}

fn blank(station: &str, timestamp: Timestamp) -> StationStdMetData {
    StationStdMetData {
        station: station.to_string(),
        timestamp,
        wdir: None,
        wspd: None,
        gst: None,
        wvht: None,
        dpd: None,
        apd: None,
        mwd: None,
        pres: None,
        atmp: None,
        wtmp: None,
        dewp: None,
        vis: None,
        ptdy: None,
        tide: None,
    }
}

fn reads(field: &Option<String>, value: f32) -> bool {
    match field {
        Some(text) => text.parse::<f32>() == Ok(value),
        None => false,
    }
}

#[test]
fn archive_line_of_markers_decodes_to_a_blank_record() {
    let body = "2019 01 01 00 00 999 99.0 99.0 99.00 99.00 99.00 999 9999.0 999.0 999.0 999.0 99.0 99.00\n";
    let found = decode_historical_stdmet("41001", body).unwrap();
    assert_eq!(found, vec![blank("41001", at(2019, 1, 1, 0, 0))]);
}

#[test]
fn archive_file_with_headers_and_readings() {
    let body = "#YY  MM DD hh mm WDIR WSPD GST  WVHT   DPD   APD MWD   PRES  ATMP  WTMP  DEWP  VIS  TIDE\n\
                #yr  mo dy hr mn degT m/s  m/s     m   sec   sec degT   hPa  degC  degC  degC   mi    ft\n\
                2019 01 01 00 50 189  7.7  9.4  1.82  7.69  5.51 188 1020.0  20.5  22.2  17.4 99.0 99.00\n\
                2019 12 31 23 50 999 99.0 99.0 99.00 99.00 99.00 999 1015.3 -1.5  21.9 999.0 99.0 +0.30\n";
    let found = decode_historical_stdmet("sbio1", body).unwrap();
    assert_eq!(found.len(), 2);
    let first = &found[0];
    assert_eq!(first.station, "SBIO1");
    assert_eq!(first.timestamp, at(2019, 1, 1, 0, 50));
    assert_eq!(first.wdir, some("189"));
    assert_eq!(first.wspd, some("7.7"));
    assert_eq!(first.gst, some("9.4"));
    assert_eq!(first.wvht, some("1.82"));
    assert_eq!(first.dpd, some("7.69"));
    assert_eq!(first.apd, some("5.51"));
    assert_eq!(first.mwd, some("188"));
    assert_eq!(first.pres, some("1020.0"));
    assert_eq!(first.atmp, some("20.5"));
    assert_eq!(first.wtmp, some("22.2"));
    assert_eq!(first.dewp, some("17.4"));
    assert_eq!(first.vis, None);
    assert_eq!(first.ptdy, None);
    assert_eq!(first.tide, None);
    assert!(reads(&first.wspd, 7.7));
    assert!(reads(&first.pres, 1020.0));
    let second = &found[1];
    assert_eq!(second.timestamp, at(2019, 12, 31, 23, 50));
    assert_eq!(second.wdir, None);
    assert_eq!(second.pres, some("1015.3"));
    assert_eq!(second.atmp, some("-1.5"));
    assert_eq!(second.tide, some("+0.30"));
    assert!(reads(&second.atmp, -1.5));
    assert!(reads(&second.tide, 0.3));
}

#[test]
fn archive_years_of_two_digits_are_read_as_they_stand() {
    let body = "98 07 04 13 00 999 99.0 99.0 99.00 99.00 99.00 999 9999.0 999.0 999.0 999.0 99.0 99.00\n";
    let found = decode_historical_stdmet("41001", body).unwrap();
    assert_eq!(found, vec![blank("41001", at(98, 7, 4, 13, 0))]);
}

#[test]
fn body_without_records_decodes_to_nothing() {
    assert_eq!(decode_historical_stdmet("41001", "").unwrap(), vec![]);
    assert_eq!(decode_historical_stdmet("41001", "no data here\n").unwrap(), vec![]);
    assert_eq!(decode_realtime_stdmet("41001", "#YY MM DD\n1 2 3\n").unwrap(), vec![]);
    assert_eq!(decode_cwind("41001", "").unwrap(), vec![]);
    assert_eq!(decode_realtime_spec("41001", "").unwrap(), vec![]);
    assert_eq!(decode_realtime_stdmetdrift("41001", "").unwrap(), vec![]);
}

#[test]
fn realtime_line_holds_the_pressure_tendency() {
    let body = "#YY  MM DD hh mm WDIR WSPD GST  WVHT   DPD   APD MWD   PRES  ATMP  WTMP  DEWP  VIS PTDY  TIDE\n\
                #yr  mo dy hr mn degT m/s  m/s     m   sec   sec degT   hPa  degC  degC  degC  nmi  hPa    ft\n\
                2024 03 01 12 30 210  5.0  7.0   1.2     8   6.1 200 1013.2  18.1  19.0  15.5   MM -1.2    MM\n";
    let found = decode_realtime_stdmet("41001", body).unwrap();
    assert_eq!(found.len(), 1);
    let record = &found[0];
    assert_eq!(record.station, "41001");
    assert_eq!(record.timestamp, at(2024, 3, 1, 12, 30));
    assert_eq!(record.wdir, some("210"));
    assert_eq!(record.dpd, some("8"));
    assert_eq!(record.vis, None);
    assert_eq!(record.ptdy, some("-1.2"));
    assert_eq!(record.tide, None);
    assert!(reads(&record.ptdy, -1.2));
}

#[test]
fn realtime_line_of_markers_decodes_to_a_blank_record() {
    let body = "2024 03 01 12 30 MM MM MM MM MM MM MM MM MM MM MM MM MM MM\n";
    let found = decode_realtime_stdmet("41001", body).unwrap();
    assert_eq!(found, vec![blank("41001", at(2024, 3, 1, 12, 30))]);
}

#[test]
fn drifting_buoy_line() {
    let body = "#YY  MM DD hhmm    LAT     LON WDIR WSPD GST  PRES PTDY ATMP WTMP DEWP WVHT DPD\n\
                2024 03 01 1230  35.12  -75.40  210  5.0  7.5 1013.2 -0.4 18.1 19.0 15.5  1.2   8\n";
    let found = decode_realtime_stdmetdrift("21x01", body).unwrap();
    assert_eq!(found.len(), 1);
    let record = &found[0];
    assert_eq!(record.station, "21X01");
    assert_eq!(record.timestamp, at(2024, 3, 1, 12, 30));
    assert_eq!(record.wdir, some("210"));
    assert_eq!(record.gst, some("5.0"));
    assert_eq!(record.wspd, some("7.5"));
    assert_eq!(record.pres, some("1013.2"));
    assert_eq!(record.ptdy, some("-0.4"));
    assert_eq!(record.atmp, some("18.1"));
    assert_eq!(record.wtmp, some("19.0"));
    assert_eq!(record.dewp, some("15.5"));
    assert_eq!(record.wvht, some("1.2"));
    assert_eq!(record.dpd, some("8"));
    assert_eq!(record.apd, None);
    assert_eq!(record.mwd, None);
    assert_eq!(record.vis, None);
    assert_eq!(record.tide, None);
}

#[test]
fn drifting_buoy_position_is_not_read() {
    let body = "2024 03 01 1230 1.2.3 -- MM MM MM MM MM MM MM MM MM MM\n";
    let found = decode_realtime_stdmetdrift("21x01", body).unwrap();
    assert_eq!(found, vec![blank("21X01", at(2024, 3, 1, 12, 30))]);
}

#[test]
fn continuous_winds_line() {
    let body = "#YY  MM DD hh mm WDIR WSPD GDR GST GTIME\n\
                2024 03 01 12 30 210  5.0 215  7.5 1227\n\
                2024 03 01 12 40 999 99.0 999 99.0 9999\n";
    let found = decode_cwind("sbio1", body).unwrap();
    assert_eq!(found.len(), 2);
    assert_eq!(found[0].station, "SBIO1");
    assert_eq!(found[0].timestamp, at(2024, 3, 1, 12, 30));
    assert_eq!(found[0].wdir, some("210"));
    assert_eq!(found[0].wspd, some("5.0"));
    assert_eq!(found[0].gdr, some("215"));
    assert_eq!(found[0].gst, some("7.5"));
    assert_eq!(found[1].timestamp, at(2024, 3, 1, 12, 40));
    assert_eq!(found[1].wdir, None);
    assert_eq!(found[1].wspd, None);
    assert_eq!(found[1].gdr, None);
    assert_eq!(found[1].gst, None);
}

#[test]
fn continuous_winds_gust_time_is_not_read() {
    let body = "2024 03 01 12 30 210 5.0 215 7.5 1.2.3\n";
    let found = decode_cwind("41001", body).unwrap();
    assert_eq!(found.len(), 1);
    assert_eq!(found[0].gst, some("7.5"));
}

#[test]
fn spectral_wave_summary_line() {
    let body = "#YY  MM DD hh mm WVHT  SwH  SwP  WWH  WWP SwD WWD  STEEPNESS  APD MWD\n\
                #yr  mo dy hr mn    m    m  sec    m  sec  -  degT     -      sec degT\n\
                2024 03 01 12 30  1.2  0.9 10.5  0.8  4.3 ESE  SE VERY_STEEP  5.1 120\n\
                2024 03 01 13 30   MM   MM   MM   MM   MM  MM  MM        N/A   MM  MM\n\
                2024 03 01 14 30  1.1   MM   MM  0.7   MM  MM   E        MM   4.9 999\n";
    let found = decode_realtime_spec("41001", body).unwrap();
    assert_eq!(found.len(), 2);
    let first = &found[0];
    assert_eq!(first.station, "41001");
    assert_eq!(first.timestamp, at(2024, 3, 1, 12, 30));
    assert_eq!(first.wvht, some("1.2"));
    assert_eq!(first.swh, some("0.9"));
    assert_eq!(first.swp, some("10.5"));
    assert_eq!(first.wwh, some("0.8"));
    assert_eq!(first.wwp, some("4.3"));
    assert_eq!(first.swd, some("ESE"));
    assert_eq!(first.wwd, some("SE"));
    assert_eq!(first.steep, some("VERY_STEEP"));
    assert_eq!(first.apd, some("5.1"));
    assert_eq!(first.mwd, some("120"));
    let second = &found[1];
    assert_eq!(second.timestamp, at(2024, 3, 1, 14, 30));
    assert_eq!(second.wvht, some("1.1"));
    assert_eq!(second.swh, None);
    assert_eq!(second.swd, None);
    assert_eq!(second.wwd, some("E"));
    assert_eq!(second.steep, None);
    assert_eq!(second.apd, some("4.9"));
    assert_eq!(second.mwd, None);
}

#[test]
fn unreadable_timestamp_ends_the_decoding() {
    let good = "2019 01 01 00 00 999 99.0 99.0 99.00 99.00 99.00 999 9999.0 999.0 999.0 999.0 99.0 99.00\n";
    let bad = "2019 13 01 00 00 999 99.0 99.0 99.00 99.00 99.00 999 9999.0 999.0 999.0 999.0 99.0 99.00\n";
    assert_eq!(decode_historical_stdmet("41001", bad), Err(DecodeError::Timestamp { record: 0 }));
    let body = format!("{good}{good}{bad}{good}");
    assert_eq!(decode_historical_stdmet("41001", &body), Err(DecodeError::Timestamp { record: 2 }));
    assert_eq!(
        decode_cwind("41001", "2024 02 30 12 30 210 5.0 215 7.5 1227\n"),
        Err(DecodeError::Timestamp { record: 0 })
    );
    assert_eq!(
        decode_realtime_stdmetdrift("4", "2024 03 01 2460 1 2 MM MM MM MM MM MM MM MM MM MM\n"),
        Err(DecodeError::Timestamp { record: 0 })
    );
    assert_eq!(
        decode_realtime_spec("4", "MM 03 01 12 30 1.2 0.9 10.5 0.8 4.3 ESE SE STEEP 5.1 120\n"),
        Err(DecodeError::Timestamp { record: 0 })
    );
    assert_eq!(
        decode_realtime_stdmet("4", "2024 03 01 12 60 MM MM MM MM MM MM MM MM MM MM MM MM MM MM\n"),
        Err(DecodeError::Timestamp { record: 0 })
    );
}

#[test]
fn unreadable_value_ends_the_decoding() {
    let good = "2019 01 01 00 00 999 99.0 99.0 99.00 99.00 99.00 999 9999.0 999.0 999.0 999.0 99.0 99.00\n";
    let bad = "2019 01 01 00 10 999 99.0 1.2.3 99.00 99.00 -- 999 9999.0 999.0 999.0 999.0 99.0 99.00\n";
    let body = format!("{good}{bad}{good}");
    assert_eq!(
        decode_historical_stdmet("41001", &body),
        Err(DecodeError::Value { record: 1, field: 7 })
    );
    assert_eq!(
        decode_realtime_stdmet("4", "2024 03 01 12 30 MM MM MM MM MM MM MM MM MM MM MM MM MM M5\n"),
        Err(DecodeError::Value { record: 0, field: 18 })
    );
    assert_eq!(
        decode_cwind("41001", "2024 03 01 12 30 210 5.0 215 7..5 1227\n"),
        Err(DecodeError::Value { record: 0, field: 8 })
    );
    assert_eq!(
        decode_realtime_stdmetdrift("4", "2024 03 01 1230 1 2 +- MM MM MM MM MM MM MM MM MM\n"),
        Err(DecodeError::Value { record: 0, field: 6 })
    );
    assert_eq!(
        decode_realtime_spec("4", "2024 03 01 12 30 1.2 0.9 10.5 0.8 4.3 ESE SE STEEP FIVE 120\n"),
        Err(DecodeError::Value { record: 0, field: 13 })
    );
    assert_eq!(
        decode_realtime_spec("4", "2024 03 01 12 30 1.2 0.9 X 0.8 4.3 ESE SE STEEP FIVE 120\n"),
        Err(DecodeError::Value { record: 0, field: 7 })
    );
}

#[test]
fn timestamp_is_checked_before_the_values() {
    let bad = "2019 13 01 00 00 x 99.0 99.0 99.00 99.00 99.00 999 9999.0 999.0 999.0 999.0 99.0 99.00\n";
    assert_eq!(decode_historical_stdmet("41001", bad).unwrap(), vec![]);
    let bad = "2019 13 01 00 00 1-1 99.0 99.0 99.00 99.00 99.00 999 9999.0 999.0 999.0 999.0 99.0 99.00\n";
    assert_eq!(decode_historical_stdmet("41001", bad), Err(DecodeError::Timestamp { record: 0 }));
}

#[test]
fn records_from_tokens_and_a_given_timestamp() {
    let tokens = strings(&[
        "2019", "01", "01", "00", "00", "999", "99.0", "99.0", "99.00", "99.00", "99.00", "999",
        "9999.0", "999.0", "999.0", "999.0", "99.0", "99.00",
    ]);
    let when = at(2019, 1, 1, 0, 0);
    assert_eq!(
        HistoricalStdMet::record("41001", &tokens, Some(when), 4),
        Ok(blank("41001", when))
    );
    assert_eq!(
        HistoricalStdMet::record("41001", &tokens, None, 4),
        Err(DecodeError::Timestamp { record: 4 })
    );
    let mut tokens19 = tokens.clone();
    tokens19.push("1.5".to_string());
    let mut expected = blank("41001", when);
    expected.tide = some("1.5");
    assert_eq!(RealtimeStdMet::record("41001", &tokens19, Some(when), 0), Ok(expected));
    let drift = strings(&[
        "2024", "03", "01", "1230", "35.1", "-75.4", "11", "12", "13", "14", "15", "16", "17",
        "18", "19", "20",
    ]);
    let record = RealtimeStdMetDrift::record("X", &drift, Some(when), 0).unwrap();
    assert_eq!(record.wdir, some("11"));
    assert_eq!(record.gst, some("12"));
    assert_eq!(record.wspd, some("13"));
    assert_eq!(record.pres, some("14"));
    assert_eq!(record.ptdy, some("15"));
    assert_eq!(record.atmp, some("16"));
    assert_eq!(record.wtmp, some("17"));
    assert_eq!(record.dewp, some("18"));
    assert_eq!(record.wvht, some("19"));
    assert_eq!(record.dpd, some("20"));
    let winds = strings(&["2024", "03", "01", "12", "30", "1", "2", "3", "4", "x"]);
    let record = ContinuousWinds::record("X", &winds, Some(when), 0).unwrap();
    assert_eq!(record.wdir, some("1"));
    assert_eq!(record.wspd, some("2"));
    assert_eq!(record.gdr, some("3"));
    assert_eq!(record.gst, some("4"));
    assert_eq!(
        ContinuousWinds::record("X", &winds, None, 9),
        Err(DecodeError::Timestamp { record: 9 })
    );
    let waves = strings(&[
        "2024", "03", "01", "12", "30", "1", "2", "3", "4", "5", "six", "7..", "MM", "9", "x",
    ]);
    assert_eq!(
        RealtimeWaveSummary::record("X", &waves, Some(when), 2),
        Err(DecodeError::Value { record: 2, field: 14 })
    );
}

#[test]
fn timestamps_are_assembled_from_the_first_tokens() {
    let tokens = strings(&["2019", "1", "02", "3", "04", "x"]);
    assert_eq!(clock_text_of(&tokens), "2019-1-02 3:04");
    assert_eq!(compact_clock_text_of(&tokens), "2019-1-02 3");
    assert_eq!(read_clock("2019-1-02 3:04"), Some(at(2019, 1, 2, 3, 4)));
    assert_eq!(read_clock("2019-01-01 00:00"), Some(at(2019, 1, 1, 0, 0)));
    assert_eq!(read_clock("2020-02-29 23:59"), Some(at(2020, 2, 29, 23, 59)));
    assert_eq!(read_clock("2019-02-29 23:59"), None);
    assert_eq!(read_clock("2019-01-01 24:00"), None);
    assert_eq!(read_clock("2019-01-01"), None);
    assert_eq!(read_clock(""), None);
    assert_eq!(read_clock("2019-01-01 0000"), None);
    assert_eq!(read_compact_clock("2019-01-01 0000"), Some(at(2019, 1, 1, 0, 0)));
    assert_eq!(read_compact_clock("2024-03-01 1230"), Some(at(2024, 3, 1, 12, 30)));
    assert_eq!(read_compact_clock("2024-03-01 2400"), None);
}

#[test]
fn values_and_their_places() {
    assert_eq!(read_value(&"99.0".to_string()), None);
    assert_eq!(read_value(&"MM".to_string()), None);
    assert_eq!(read_value(&"7.7".to_string()), some("7.7"));
    assert_eq!(read_value(&"ESE".to_string()), some("ESE"));
    let tokens = strings(&["x", "1", "MM", "1.2.3", "y"]);
    assert_eq!(find_unreadable(&tokens, 0, 5), Some(0));
    assert_eq!(find_unreadable(&tokens, 1, 5), Some(3));
    assert_eq!(find_unreadable(&tokens, 1, 3), None);
    assert_eq!(find_unreadable(&tokens, 4, 5), Some(4));
    assert_eq!(find_unreadable(&tokens, 2, 2), None);
}

#[test]
fn layouts_and_their_formats() {
    let numeric = |arity| LineFormat { arity, alphabet: TokenAlphabet::Numeric, anchored: false };
    assert_eq!(HistoricalStdMet::line_format(), numeric(18));
    assert_eq!(RealtimeStdMet::line_format(), numeric(19));
    assert_eq!(RealtimeStdMetDrift::line_format(), numeric(16));
    assert_eq!(ContinuousWinds::line_format(), numeric(10));
    assert_eq!(
        RealtimeWaveSummary::line_format(),
        LineFormat { arity: 15, alphabet: TokenAlphabet::Coded, anchored: true }
    );
    let tokens = strings(&["2024", "03", "01", "1230", "5"]);
    assert_eq!(RealtimeStdMet::timestamp(&tokens), None);
    assert_eq!(RealtimeStdMetDrift::timestamp(&tokens), Some(at(2024, 3, 1, 12, 30)));
    let tokens = strings(&["2024", "03", "01", "12", "30"]);
    assert_eq!(ContinuousWinds::timestamp(&tokens), Some(at(2024, 3, 1, 12, 30)));
}

#[test]
fn decoding_by_layout() {
    let body = "2024 03 01 12 30 210 5.0 215 7.5 1227\n";
    assert_eq!(decode::<ContinuousWinds>("x1", body), decode_cwind("x1", body));
    assert_eq!(decode::<ContinuousWinds>("x1", body).unwrap().len(), 1);
    assert_eq!(decode::<HistoricalStdMet>("x1", body), Ok(vec![]));
}

#[test]
fn two_short_lines_are_no_record() {
    let body = "2019 01 01 00 00 999 99.0 99.0 99.00\n99.00 99.00 999 9999.0 999.0 999.0 999.0 99.0 99.00\n";
    assert_eq!(decode_historical_stdmet("41001", body), Ok(vec![]));
    let body = "2024 03 01 12 30 210 5.0\n215 7.5 1227\n";
    assert_eq!(decode_cwind("41001", body), Ok(vec![]));
}

#[test]
fn every_full_line_gives_its_record_in_order() {
    let mut body = String::new();
    for minute in 0..60 {
        body.push_str(&format!("2024 03 01 12 {minute:02} 210 5.0 215 7.5 1227\n"));
    }
    let found = decode_cwind("41001", &body).unwrap();
    assert_eq!(found.len(), 60);
    for (minute, record) in found.iter().enumerate() {
        assert_eq!(record.timestamp, at(2024, 3, 1, 12, minute as u32));
        assert_eq!(record.gst, some("7.5"));
    }
}
