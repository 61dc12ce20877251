//! The decoders: from the body of an observation file to its records.
//!
//! A [`Layout`] says how the files of one kind are laid out: how many tokens
//! a record has, from which of them its timestamp is read, and which
//! measurement stands where. [`decode`] searches a body for the records of a
//! layout and reads each. The first record whose timestamp or measurement
//! cannot be read ends the decoding with an error.

use vstd::prelude::*;
use vstd::string::StringExecFns;
use crate::gather::{
    gather, lemma_gather_error, lemma_gather_ok, lemma_gather_step, outcome_view,
};
use crate::lines::{
    full_line, is_line, lemma_full_lines_yield_one_each, lemma_line_yields_its_first_tokens,
    line_of, lines_text, parse_lines, records_of, spaced, LineFormat, TokenAlphabet,
};
use crate::records::{
    find_unreadable, first_unreadable, lemma_all_readable, lemma_texts, read_value, reading,
    DecodeError, StationContinuousWindsData, StationSpectralWaveSummary, StationStdMetData,
    StdMetView, WaveSummaryView, WindsView,
};
use crate::sentinel::is_missing;
use crate::text::{to_upper, upper};
use crate::timestamp::{
    clock_format, compact_clock_format, datetime_of, read_clock, read_compact_clock, Timestamp,
};

verus! {

/// How the observation files of one kind are laid out.
pub trait Layout {
    /// The record that a line of such a file stands for.
    type Record: DeepView;

    /// What the records of such a file look like.
    spec fn format() -> LineFormat;

    /// The timestamp that the tokens of a record carry, where they carry
    /// one.
    spec fn timestamp_of(tokens: Seq<Seq<char>>) -> Option<Timestamp>;

    /// The record that tokens stand for, given their timestamp and the place
    /// `at` of the record in the body: an error where there is no timestamp
    /// or where a token that should be a measurement cannot be read.
    spec fn record_of(
        station: Seq<char>,
        tokens: Seq<Seq<char>>,
        clock: Option<Timestamp>,
        at: usize,
    ) -> Result<<Self::Record as DeepView>::V, DecodeError>;

    /// What holds of every record decoded for a station: it names the
    /// station, its timestamp is in range, and every measurement it holds is
    /// a number.
    spec fn sound(station: Seq<char>, record: <Self::Record as DeepView>::V) -> bool;

    /// What the records of such a file look like.
    fn line_format() -> (r: LineFormat)
        ensures
            r == Self::format(),
    ;

    /// The timestamp that the tokens of a record carry, where they carry
    /// one.
    fn timestamp(tokens: &Vec<String>) -> (r: Option<Timestamp>)
        requires
            tokens.len() == Self::format().arity,
        ensures
            r == Self::timestamp_of(tokens.deep_view()),
            r matches Some(t) ==> t.in_range(),
    ;

    /// The record that tokens stand for, given their timestamp.
    fn record(station: &str, tokens: &Vec<String>, clock: Option<Timestamp>, at: usize) -> (r:
        Result<Self::Record, DecodeError>)
        requires
            tokens.len() == Self::format().arity,
        ensures
            match r {
                Ok(record) => Self::record_of(station@, tokens.deep_view(), clock, at) == Ok::<
                    <Self::Record as DeepView>::V,
                    DecodeError,
                >(record.deep_view()),
                Err(e) => Self::record_of(station@, tokens.deep_view(), clock, at) == Err::<
                    <Self::Record as DeepView>::V,
                    DecodeError,
                >(e),
            },
            (clock matches Some(t) ==> t.in_range()) ==> (r matches Ok(record) ==> Self::sound(
                station@,
                record.deep_view(),
            )),
    ;
}

/// The outcome of each record of a body, in order, for a station whose code
/// is `station` in any case of letters: the records carry it in capital
/// letters.
pub open spec fn outcomes<L: Layout>(station: Seq<char>, records: Seq<Seq<Seq<char>>>) -> Seq<
    Result<<L::Record as DeepView>::V, DecodeError>,
> {
    Seq::new(
        records.len(),
        |i: int| L::record_of(upper(station), records[i], L::timestamp_of(records[i]), i as usize),
    )
}

/// What a body decodes to: the records found in it, each read by the
/// layout, or the error of the first that cannot be read.
pub open spec fn decoded<L: Layout>(station: Seq<char>, body: Seq<char>) -> Result<
    Seq<<L::Record as DeepView>::V>,
    DecodeError,
> {
    gather(outcomes::<L>(station, records_of(L::format(), body)))
}

/// The records of a body, for a station whose code is given in any case of
/// letters.
pub fn decode<L: Layout>(station: &str, body: &str) -> (r: Result<Vec<L::Record>, DecodeError>)
    ensures
        outcome_view(r) == decoded::<L>(station@, body@),
        r matches Ok(found) ==> forall|i: int|
            0 <= i < found.len() ==> L::sound(upper(station@), (#[trigger] found[i]).deep_view()),
{
    let name = to_upper(station);
    let format = L::line_format();
    let records = parse_lines(body, &format);
    let ghost all = outcomes::<L>(station@, records.deep_view());
    let mut found: Vec<L::Record> = Vec::new();
    let mut i: usize = 0;
    proof {
        assert(all.take(0) =~= Seq::empty());
        assert(found.deep_view() =~= Seq::empty());
    }
    while i < records.len()
        invariant
            i <= records.len(),
            found.len() == i,
            name@ == upper(station@),
            format == L::format(),
            all == outcomes::<L>(station@, records.deep_view()),
            records.deep_view() == records_of(L::format(), body@),
            forall|j: int| 0 <= j < records.len() ==> (#[trigger] records[j]).len() == format.arity,
            gather(all.take(i as int)) == Ok::<Seq<<L::Record as DeepView>::V>, DecodeError>(
                found.deep_view(),
            ),
            forall|j: int|
                0 <= j < found.len() ==> L::sound(
                    upper(station@),
                    (#[trigger] found[j]).deep_view(),
                ),
        decreases records.len() - i,
    {
        let tokens = &records[i];
        let clock = L::timestamp(tokens);
        proof {
            assert(records.deep_view()[i as int] == tokens.deep_view());
            lemma_gather_step(all, i as int);
        }
        match L::record(name.as_str(), tokens, clock, i) {
            Ok(record) => {
                let ghost before = found.deep_view();
                let ghost added = record.deep_view();
                found.push(record);
                proof {
                    assert(found.deep_view() =~= before.push(added));
                }
            },
            Err(e) => {
                proof {
                    lemma_gather_error(all, i as int + 1, e);
                }
                return Err(e);
            },
        }
        i += 1;
    }
    proof {
        assert(all.take(i as int) =~= all);
    }
    Ok(found)
}

/// The text from which a record's timestamp is read: year, month and day
/// joined by `-`, a space, and hour and minute joined by `:`.
pub open spec fn clock_text(tokens: Seq<Seq<char>>) -> Seq<char> {
    tokens[0] + "-"@ + tokens[1] + "-"@ + tokens[2] + " "@ + tokens[3] + ":"@ + tokens[4]
}

/// The text from which the timestamp of a drifting buoy's record is read:
/// year, month and day joined by `-`, a space, and the time of day, which is
/// one token.
pub open spec fn compact_clock_text(tokens: Seq<Seq<char>>) -> Seq<char> {
    tokens[0] + "-"@ + tokens[1] + "-"@ + tokens[2] + " "@ + tokens[3]
}

/// The text from which a record's timestamp is read: see [`clock_text`].
pub fn clock_text_of(tokens: &Vec<String>) -> (r: String)
    requires
        tokens.len() >= 5,
    ensures
        r@ == clock_text(tokens.deep_view()),
{
    proof {
        lemma_texts(tokens);
    }
    let mut s = tokens[0].clone();
    s.append("-");
    s.append(tokens[1].as_str());
    s.append("-");
    s.append(tokens[2].as_str());
    s.append(" ");
    s.append(tokens[3].as_str());
    s.append(":");
    s.append(tokens[4].as_str());
    s
}

/// The text from which the timestamp of a drifting buoy's record is read:
/// see [`compact_clock_text`].
pub fn compact_clock_text_of(tokens: &Vec<String>) -> (r: String)
    requires
        tokens.len() >= 4,
    ensures
        r@ == compact_clock_text(tokens.deep_view()),
{
    proof {
        lemma_texts(tokens);
    }
    let mut s = tokens[0].clone();
    s.append("-");
    s.append(tokens[1].as_str());
    s.append("-");
    s.append(tokens[2].as_str());
    s.append(" ");
    s.append(tokens[3].as_str());
    s
}

/// The standard meteorological files of the archive: records of eighteen
/// tokens.
pub struct HistoricalStdMet;

impl Layout for HistoricalStdMet {
    type Record = StationStdMetData;

    open spec fn format() -> LineFormat {
        LineFormat { arity: 18, alphabet: TokenAlphabet::Numeric, anchored: false }
    }

    open spec fn timestamp_of(tokens: Seq<Seq<char>>) -> Option<Timestamp> {
        datetime_of(clock_text(tokens), clock_format())
    }

    /// The timestamp is read from the first five tokens and the measurements
    /// from the thirteen behind them. The pressure tendency, which the archive
    /// does not hold, is absent.
    open spec fn record_of(
        station: Seq<char>,
        tokens: Seq<Seq<char>>,
        clock: Option<Timestamp>,
        at: usize,
    ) -> Result<StdMetView, DecodeError> {
        match clock {
            None => Err(DecodeError::Timestamp { record: at }),
            Some(timestamp) => match first_unreadable(tokens, 5, 18) {
                Some(c) => Err(DecodeError::Value { record: at, field: c as usize }),
                None => Ok(
                    StdMetView {
                        station,
                        timestamp,
                        wdir: reading(tokens[5]),
                        wspd: reading(tokens[6]),
                        gst: reading(tokens[7]),
                        wvht: reading(tokens[8]),
                        dpd: reading(tokens[9]),
                        apd: reading(tokens[10]),
                        mwd: reading(tokens[11]),
                        pres: reading(tokens[12]),
                        atmp: reading(tokens[13]),
                        wtmp: reading(tokens[14]),
                        dewp: reading(tokens[15]),
                        vis: reading(tokens[16]),
                        ptdy: None,
                        tide: reading(tokens[17]),
                    },
                ),
            },
        }
    }

    open spec fn sound(station: Seq<char>, record: StdMetView) -> bool {
        record.station == station && record.well_formed()
    }

    fn line_format() -> (r: LineFormat) {
        LineFormat { arity: 18, alphabet: TokenAlphabet::Numeric, anchored: false }
    }

    fn timestamp(tokens: &Vec<String>) -> (r: Option<Timestamp>) {
        let text = clock_text_of(tokens);
        read_clock(text.as_str())
    }

    fn record(station: &str, tokens: &Vec<String>, clock: Option<Timestamp>, at: usize) -> (r:
        Result<StationStdMetData, DecodeError>) {
        proof {
            lemma_texts(tokens);
        }
        let timestamp = match clock {
            Some(t) => t,
            None => {
                return Err(DecodeError::Timestamp { record: at });
            },
        };
        if let Some(c) = find_unreadable(tokens, 5, 18) {
            return Err(DecodeError::Value { record: at, field: c });
        }
        proof {
            lemma_all_readable(tokens.deep_view(), 5, 18);
        }
        Ok(
            StationStdMetData {
                station: station.to_owned(),
                timestamp,
                wdir: read_value(&tokens[5]),
                wspd: read_value(&tokens[6]),
                gst: read_value(&tokens[7]),
                wvht: read_value(&tokens[8]),
                dpd: read_value(&tokens[9]),
                apd: read_value(&tokens[10]),
                mwd: read_value(&tokens[11]),
                pres: read_value(&tokens[12]),
                atmp: read_value(&tokens[13]),
                wtmp: read_value(&tokens[14]),
                dewp: read_value(&tokens[15]),
                vis: read_value(&tokens[16]),
                ptdy: None,
                tide: read_value(&tokens[17]),
            },
        )
    }
}

/// The standard meteorological records of a file of the archive, for a
/// station whose code is given in any case of letters.
pub fn decode_historical_stdmet(station: &str, body: &str) -> (r: Result<
    Vec<StationStdMetData>,
    DecodeError,
>)
    ensures
        outcome_view(r) == decoded::<HistoricalStdMet>(station@, body@),
        r matches Ok(found) ==> forall|i: int|
            0 <= i < found.len() ==> (#[trigger] found[i])@.well_formed() && found[i]@.station
                == upper(station@),
{
    decode::<HistoricalStdMet>(station, body)
}

/// The realtime standard meteorological files: records of nineteen tokens.
pub struct RealtimeStdMet;

impl Layout for RealtimeStdMet {
    type Record = StationStdMetData;

    open spec fn format() -> LineFormat {
        LineFormat { arity: 19, alphabet: TokenAlphabet::Numeric, anchored: false }
    }

    open spec fn timestamp_of(tokens: Seq<Seq<char>>) -> Option<Timestamp> {
        datetime_of(clock_text(tokens), clock_format())
    }

    /// The timestamp is read from the first five tokens and the measurements
    /// from the fourteen behind them.
    open spec fn record_of(
        station: Seq<char>,
        tokens: Seq<Seq<char>>,
        clock: Option<Timestamp>,
        at: usize,
    ) -> Result<StdMetView, DecodeError> {
        match clock {
            None => Err(DecodeError::Timestamp { record: at }),
            Some(timestamp) => match first_unreadable(tokens, 5, 19) {
                Some(c) => Err(DecodeError::Value { record: at, field: c as usize }),
                None => Ok(
                    StdMetView {
                        station,
                        timestamp,
                        wdir: reading(tokens[5]),
                        wspd: reading(tokens[6]),
                        gst: reading(tokens[7]),
                        wvht: reading(tokens[8]),
                        dpd: reading(tokens[9]),
                        apd: reading(tokens[10]),
                        mwd: reading(tokens[11]),
                        pres: reading(tokens[12]),
                        atmp: reading(tokens[13]),
                        wtmp: reading(tokens[14]),
                        dewp: reading(tokens[15]),
                        vis: reading(tokens[16]),
                        ptdy: reading(tokens[17]),
                        tide: reading(tokens[18]),
                    },
                ),
            },
        }
    }

    open spec fn sound(station: Seq<char>, record: StdMetView) -> bool {
        record.station == station && record.well_formed()
    }

    fn line_format() -> (r: LineFormat) {
        LineFormat { arity: 19, alphabet: TokenAlphabet::Numeric, anchored: false }
    }

    fn timestamp(tokens: &Vec<String>) -> (r: Option<Timestamp>) {
        let text = clock_text_of(tokens);
        read_clock(text.as_str())
    }

    fn record(station: &str, tokens: &Vec<String>, clock: Option<Timestamp>, at: usize) -> (r:
        Result<StationStdMetData, DecodeError>) {
        proof {
            lemma_texts(tokens);
        }
        let timestamp = match clock {
            Some(t) => t,
            None => {
                return Err(DecodeError::Timestamp { record: at });
            },
        };
        if let Some(c) = find_unreadable(tokens, 5, 19) {
            return Err(DecodeError::Value { record: at, field: c });
        }
        proof {
            lemma_all_readable(tokens.deep_view(), 5, 19);
        }
        Ok(
            StationStdMetData {
                station: station.to_owned(),
                timestamp,
                wdir: read_value(&tokens[5]),
                wspd: read_value(&tokens[6]),
                gst: read_value(&tokens[7]),
                wvht: read_value(&tokens[8]),
                dpd: read_value(&tokens[9]),
                apd: read_value(&tokens[10]),
                mwd: read_value(&tokens[11]),
                pres: read_value(&tokens[12]),
                atmp: read_value(&tokens[13]),
                wtmp: read_value(&tokens[14]),
                dewp: read_value(&tokens[15]),
                vis: read_value(&tokens[16]),
                ptdy: read_value(&tokens[17]),
                tide: read_value(&tokens[18]),
            },
        )
    }
}

/// The standard meteorological records of a realtime file, for a station
/// whose code is given in any case of letters.
pub fn decode_realtime_stdmet(station: &str, body: &str) -> (r: Result<
    Vec<StationStdMetData>,
    DecodeError,
>)
    ensures
        outcome_view(r) == decoded::<RealtimeStdMet>(station@, body@),
        r matches Ok(found) ==> forall|i: int|
            0 <= i < found.len() ==> (#[trigger] found[i])@.well_formed() && found[i]@.station
                == upper(station@),
{
    decode::<RealtimeStdMet>(station, body)
}

/// The realtime files of drifting buoys: records of sixteen tokens.
pub struct RealtimeStdMetDrift;

impl Layout for RealtimeStdMetDrift {
    type Record = StationStdMetData;

    open spec fn format() -> LineFormat {
        LineFormat { arity: 16, alphabet: TokenAlphabet::Numeric, anchored: false }
    }

    open spec fn timestamp_of(tokens: Seq<Seq<char>>) -> Option<Timestamp> {
        datetime_of(compact_clock_text(tokens), compact_clock_format())
    }

    /// The timestamp is read from the first four tokens. Latitude and
    /// longitude, the fifth and sixth token, are left out unread. Average
    /// period, mean wave direction, visibility and tide, which the file does
    /// not hold, are absent.
    open spec fn record_of(
        station: Seq<char>,
        tokens: Seq<Seq<char>>,
        clock: Option<Timestamp>,
        at: usize,
    ) -> Result<StdMetView, DecodeError> {
        match clock {
            None => Err(DecodeError::Timestamp { record: at }),
            Some(timestamp) => match first_unreadable(tokens, 6, 16) {
                Some(c) => Err(DecodeError::Value { record: at, field: c as usize }),
                None => Ok(
                    StdMetView {
                        station,
                        timestamp,
                        wdir: reading(tokens[6]),
                        wspd: reading(tokens[8]),
                        gst: reading(tokens[7]),
                        wvht: reading(tokens[14]),
                        dpd: reading(tokens[15]),
                        apd: None,
                        mwd: None,
                        pres: reading(tokens[9]),
                        atmp: reading(tokens[11]),
                        wtmp: reading(tokens[12]),
                        dewp: reading(tokens[13]),
                        vis: None,
                        ptdy: reading(tokens[10]),
                        tide: None,
                    },
                ),
            },
        }
    }

    open spec fn sound(station: Seq<char>, record: StdMetView) -> bool {
        record.station == station && record.well_formed()
    }

    fn line_format() -> (r: LineFormat) {
        LineFormat { arity: 16, alphabet: TokenAlphabet::Numeric, anchored: false }
    }

    fn timestamp(tokens: &Vec<String>) -> (r: Option<Timestamp>) {
        let text = compact_clock_text_of(tokens);
        read_compact_clock(text.as_str())
    }

    fn record(station: &str, tokens: &Vec<String>, clock: Option<Timestamp>, at: usize) -> (r:
        Result<StationStdMetData, DecodeError>) {
        proof {
            lemma_texts(tokens);
        }
        let timestamp = match clock {
            Some(t) => t,
            None => {
                return Err(DecodeError::Timestamp { record: at });
            },
        };
        if let Some(c) = find_unreadable(tokens, 6, 16) {
            return Err(DecodeError::Value { record: at, field: c });
        }
        proof {
            lemma_all_readable(tokens.deep_view(), 6, 16);
        }
        Ok(
            StationStdMetData {
                station: station.to_owned(),
                timestamp,
                wdir: read_value(&tokens[6]),
                wspd: read_value(&tokens[8]),
                gst: read_value(&tokens[7]),
                wvht: read_value(&tokens[14]),
                dpd: read_value(&tokens[15]),
                apd: None,
                mwd: None,
                pres: read_value(&tokens[9]),
                atmp: read_value(&tokens[11]),
                wtmp: read_value(&tokens[12]),
                dewp: read_value(&tokens[13]),
                vis: None,
                ptdy: read_value(&tokens[10]),
                tide: None,
            },
        )
    }
}

/// The standard meteorological records of a drifting buoy's realtime file,
/// for a station whose code is given in any case of letters.
pub fn decode_realtime_stdmetdrift(station: &str, body: &str) -> (r: Result<
    Vec<StationStdMetData>,
    DecodeError,
>)
    ensures
        outcome_view(r) == decoded::<RealtimeStdMetDrift>(station@, body@),
        r matches Ok(found) ==> forall|i: int|
            0 <= i < found.len() ==> (#[trigger] found[i])@.well_formed() && found[i]@.station
                == upper(station@),
{
    decode::<RealtimeStdMetDrift>(station, body)
}

/// The continuous-winds files, of the archive and realtime alike: records
/// of ten tokens.
pub struct ContinuousWinds;

impl Layout for ContinuousWinds {
    type Record = StationContinuousWindsData;

    open spec fn format() -> LineFormat {
        LineFormat { arity: 10, alphabet: TokenAlphabet::Numeric, anchored: false }
    }

    open spec fn timestamp_of(tokens: Seq<Seq<char>>) -> Option<Timestamp> {
        datetime_of(clock_text(tokens), clock_format())
    }

    /// The timestamp is read from the first five tokens and the measurements
    /// from the four behind them. The last token, the time of the gust, is
    /// left out unread.
    open spec fn record_of(
        station: Seq<char>,
        tokens: Seq<Seq<char>>,
        clock: Option<Timestamp>,
        at: usize,
    ) -> Result<WindsView, DecodeError> {
        match clock {
            None => Err(DecodeError::Timestamp { record: at }),
            Some(timestamp) => match first_unreadable(tokens, 5, 9) {
                Some(c) => Err(DecodeError::Value { record: at, field: c as usize }),
                None => Ok(
                    WindsView {
                        station,
                        timestamp,
                        wdir: reading(tokens[5]),
                        wspd: reading(tokens[6]),
                        gdr: reading(tokens[7]),
                        gst: reading(tokens[8]),
                    },
                ),
            },
        }
    }

    open spec fn sound(station: Seq<char>, record: WindsView) -> bool {
        record.station == station && record.well_formed()
    }

    fn line_format() -> (r: LineFormat) {
        LineFormat { arity: 10, alphabet: TokenAlphabet::Numeric, anchored: false }
    }

    fn timestamp(tokens: &Vec<String>) -> (r: Option<Timestamp>) {
        let text = clock_text_of(tokens);
        read_clock(text.as_str())
    }

    fn record(station: &str, tokens: &Vec<String>, clock: Option<Timestamp>, at: usize) -> (r:
        Result<StationContinuousWindsData, DecodeError>) {
        proof {
            lemma_texts(tokens);
        }
        let timestamp = match clock {
            Some(t) => t,
            None => {
                return Err(DecodeError::Timestamp { record: at });
            },
        };
        if let Some(c) = find_unreadable(tokens, 5, 9) {
            return Err(DecodeError::Value { record: at, field: c });
        }
        proof {
            lemma_all_readable(tokens.deep_view(), 5, 9);
        }
        Ok(
            StationContinuousWindsData {
                station: station.to_owned(),
                timestamp,
                wdir: read_value(&tokens[5]),
                wspd: read_value(&tokens[6]),
                gdr: read_value(&tokens[7]),
                gst: read_value(&tokens[8]),
            },
        )
    }
}

/// The continuous-winds records of a file, from the archive or realtime,
/// for a station whose code is given in any case of letters.
pub fn decode_cwind(station: &str, body: &str) -> (r: Result<
    Vec<StationContinuousWindsData>,
    DecodeError,
>)
    ensures
        outcome_view(r) == decoded::<ContinuousWinds>(station@, body@),
        r matches Ok(found) ==> forall|i: int|
            0 <= i < found.len() ==> (#[trigger] found[i])@.well_formed() && found[i]@.station
                == upper(station@),
{
    decode::<ContinuousWinds>(station, body)
}

/// The realtime spectral wave summaries: records of fifteen tokens of
/// digits, capital letters and signs, from the start of a line.
pub struct RealtimeWaveSummary;

impl Layout for RealtimeWaveSummary {
    type Record = StationSpectralWaveSummary;

    open spec fn format() -> LineFormat {
        LineFormat { arity: 15, alphabet: TokenAlphabet::Coded, anchored: true }
    }

    open spec fn timestamp_of(tokens: Seq<Seq<char>>) -> Option<Timestamp> {
        datetime_of(clock_text(tokens), clock_format())
    }

    /// The timestamp is read from the first five tokens. Swell direction,
    /// wind-wave direction and steepness are codes and are taken as they are;
    /// the other measurements are numbers.
    open spec fn record_of(
        station: Seq<char>,
        tokens: Seq<Seq<char>>,
        clock: Option<Timestamp>,
        at: usize,
    ) -> Result<WaveSummaryView, DecodeError> {
        match clock {
            None => Err(DecodeError::Timestamp { record: at }),
            Some(timestamp) => match first_unreadable(tokens, 5, 10) {
                Some(c) => Err(DecodeError::Value { record: at, field: c as usize }),
                None => match first_unreadable(tokens, 13, 15) {
                    Some(c) => Err(DecodeError::Value { record: at, field: c as usize }),
                    None => Ok(
                        WaveSummaryView {
                            station,
                            timestamp,
                            wvht: reading(tokens[5]),
                            swh: reading(tokens[6]),
                            swp: reading(tokens[7]),
                            wwh: reading(tokens[8]),
                            wwp: reading(tokens[9]),
                            swd: reading(tokens[10]),
                            wwd: reading(tokens[11]),
                            steep: reading(tokens[12]),
                            apd: reading(tokens[13]),
                            mwd: reading(tokens[14]),
                        },
                    ),
                },
            },
        }
    }

    open spec fn sound(station: Seq<char>, record: WaveSummaryView) -> bool {
        record.station == station && record.well_formed()
    }

    fn line_format() -> (r: LineFormat) {
        LineFormat { arity: 15, alphabet: TokenAlphabet::Coded, anchored: true }
    }

    fn timestamp(tokens: &Vec<String>) -> (r: Option<Timestamp>) {
        let text = clock_text_of(tokens);
        read_clock(text.as_str())
    }

    fn record(station: &str, tokens: &Vec<String>, clock: Option<Timestamp>, at: usize) -> (r:
        Result<StationSpectralWaveSummary, DecodeError>) {
        proof {
            lemma_texts(tokens);
        }
        let timestamp = match clock {
            Some(t) => t,
            None => {
                return Err(DecodeError::Timestamp { record: at });
            },
        };
        if let Some(c) = find_unreadable(tokens, 5, 10) {
            return Err(DecodeError::Value { record: at, field: c });
        }
        if let Some(c) = find_unreadable(tokens, 13, 15) {
            return Err(DecodeError::Value { record: at, field: c });
        }
        proof {
            lemma_all_readable(tokens.deep_view(), 5, 10);
            lemma_all_readable(tokens.deep_view(), 13, 15);
        }
        Ok(
            StationSpectralWaveSummary {
                station: station.to_owned(),
                timestamp,
                wvht: read_value(&tokens[5]),
                swh: read_value(&tokens[6]),
                swp: read_value(&tokens[7]),
                wwh: read_value(&tokens[8]),
                wwp: read_value(&tokens[9]),
                swd: read_value(&tokens[10]),
                wwd: read_value(&tokens[11]),
                steep: read_value(&tokens[12]),
                apd: read_value(&tokens[13]),
                mwd: read_value(&tokens[14]),
            },
        )
    }
}

/// The spectral wave summaries of a realtime file, for a station whose code
/// is given in any case of letters.
pub fn decode_realtime_spec(station: &str, body: &str) -> (r: Result<
    Vec<StationSpectralWaveSummary>,
    DecodeError,
>)
    ensures
        outcome_view(r) == decoded::<RealtimeWaveSummary>(station@, body@),
        r matches Ok(found) ==> forall|i: int|
            0 <= i < found.len() ==> (#[trigger] found[i])@.well_formed() && found[i]@.station
                == upper(station@),
{
    decode::<RealtimeWaveSummary>(station, body)
}

/// Where every token behind the timestamp marks missing data, the record
/// of an archive file is decoded, and holds no measurement.
pub proof fn lemma_blank_historical_stdmet(
    station: Seq<char>,
    tokens: Seq<Seq<char>>,
    timestamp: Timestamp,
    at: usize,
)
    requires
        tokens.len() == 18,
        forall|i: int| 5 <= i < 18 ==> is_missing(#[trigger] tokens[i]),
    ensures
        HistoricalStdMet::record_of(station, tokens, Some(timestamp), at) matches Ok(record)
            && record.is_blank() && record.station == station && record.timestamp == timestamp,
{
    lemma_none_unreadable(tokens, 5, 18);
}

/// Where every token behind the timestamp marks missing data, the record
/// of a realtime file is decoded, and holds no measurement.
pub proof fn lemma_blank_realtime_stdmet(
    station: Seq<char>,
    tokens: Seq<Seq<char>>,
    timestamp: Timestamp,
    at: usize,
)
    requires
        tokens.len() == 19,
        forall|i: int| 5 <= i < 19 ==> is_missing(#[trigger] tokens[i]),
    ensures
        RealtimeStdMet::record_of(station, tokens, Some(timestamp), at) matches Ok(record)
            && record.is_blank() && record.station == station && record.timestamp == timestamp,
{
    lemma_none_unreadable(tokens, 5, 19);
}

/// Where every measurement token marks missing data, the record of a
/// drifting buoy is decoded, and holds no measurement.
pub proof fn lemma_blank_realtime_stdmetdrift(
    station: Seq<char>,
    tokens: Seq<Seq<char>>,
    timestamp: Timestamp,
    at: usize,
)
    requires
        tokens.len() == 16,
        forall|i: int| 6 <= i < 16 ==> is_missing(#[trigger] tokens[i]),
    ensures
        RealtimeStdMetDrift::record_of(station, tokens, Some(timestamp), at) matches Ok(record)
            && record.is_blank() && record.station == station && record.timestamp == timestamp,
{
    lemma_none_unreadable(tokens, 6, 16);
}

/// A body of one line of eighteen tokens, of which every one behind the
/// timestamp marks missing data, decodes to one record, which holds the
/// station's code in capital letters, the timestamp read from the first five
/// tokens, and no measurement.
pub proof fn lemma_line_of_markers_decodes_blank(
    station: Seq<char>,
    line: Seq<char>,
    tokens: Seq<Seq<char>>,
    gaps: Seq<Seq<char>>,
    timestamp: Timestamp,
)
    requires
        is_line(line),
        spaced(TokenAlphabet::Numeric, tokens, gaps),
        line.push('\n') == line_of(tokens, gaps),
        tokens.len() == 18,
        forall|i: int| 5 <= i < 18 ==> is_missing(#[trigger] tokens[i]),
        datetime_of(clock_text(tokens), clock_format()) == Some(timestamp),
    ensures
        decoded::<HistoricalStdMet>(station, line.push('\n')) matches Ok(found) && found.len()
            == 1 && found[0].is_blank() && found[0].station == upper(station)
            && found[0].timestamp == timestamp,
{
    lemma_line_yields_its_first_tokens(HistoricalStdMet::format(), line, tokens, gaps);
    assert(tokens.take(18) =~= tokens);
    lemma_blank_historical_stdmet(upper(station), tokens, timestamp, 0);
    let all = outcomes::<HistoricalStdMet>(station, seq![tokens]);
    assert(all.len() == 1);
    assert(all[0] == HistoricalStdMet::record_of(upper(station), tokens, Some(timestamp), 0));
    assert(all.drop_last() =~= Seq::<Result<StdMetView, DecodeError>>::empty());
    assert(gather(all.drop_last()) == Ok::<Seq<StdMetView>, DecodeError>(Seq::empty()));
}

/// A body of lines, each of exactly as many whitespace-separated tokens as
/// the layout's records have, decodes line by line: the outcome is that of
/// the lines' tokens, one record for each line and in the order of the
/// lines, each made of the tokens of its line alone.
pub proof fn lemma_full_lines_decode_each<L: Layout>(
    station: Seq<char>,
    lines: Seq<Seq<char>>,
    rows: Seq<Seq<Seq<char>>>,
    gaps: Seq<Seq<Seq<char>>>,
)
    requires
        L::format().arity >= 1,
        lines.len() == rows.len(),
        lines.len() == gaps.len(),
        forall|i: int|
            0 <= i < lines.len() ==> #[trigger] full_line(
                L::format(),
                lines[i],
                rows[i],
                gaps[i],
            ) && rows[i].len() == L::format().arity,
    ensures
        decoded::<L>(station, lines_text(lines)) == gather(outcomes::<L>(station, rows)),
        decoded::<L>(station, lines_text(lines)) matches Ok(found) ==> found.len()
            == lines.len() && forall|i: int|
            0 <= i < lines.len() ==> L::record_of(
                upper(station),
                rows[i],
                L::timestamp_of(rows[i]),
                i as usize,
            ) == Ok::<<L::Record as DeepView>::V, DecodeError>(#[trigger] found[i]),
{
    lemma_full_lines_yield_one_each(L::format(), lines, rows, gaps);
    let found = records_of(L::format(), lines_text(lines));
    assert forall|i: int| 0 <= i < rows.len() implies found[i] == rows[i] by {
        assert(full_line(L::format(), lines[i], rows[i], gaps[i]));
        assert(rows[i].take(L::format().arity as int) =~= rows[i]);
    }
    assert(found =~= rows);
    lemma_gather_ok(outcomes::<L>(station, rows));
}

proof fn lemma_none_unreadable(tokens: Seq<Seq<char>>, from: int, to: int)
    requires
        forall|i: int| from <= i < to ==> is_missing(#[trigger] tokens[i]),
    ensures
        first_unreadable(tokens, from, to) is None,
    decreases to - from,
{
    if from < to {
        assert(is_missing(tokens[from]));
        lemma_none_unreadable(tokens, from + 1, to);
    }
}

} // verus!
