//! The addresses under which the agency publishes its listings and files.

use chrono::Datelike;
use vstd::prelude::*;
use vstd::string::StringExecFns;
use crate::data_type::{lemma_month_labels, Month, StationDataType};
use crate::text::{
    contains_alphabetic, has_alphabetic, is_letter, lower, to_lower, to_upper, upper,
};

verus! {

/// A station's rolling file of recent observations.
#[derive(Clone, Copy, Debug, PartialEq, Eq, Structural)]
pub enum RealtimeFeed {
    /// Standard meteorological data of a moored buoy.
    StandardMeteorological,
    /// Standard meteorological data of a drifting buoy.
    DriftingBuoy,
    /// Continuous winds.
    ContinuousWinds,
    /// The spectral wave summary.
    SpectralWaveSummary,
}

impl RealtimeFeed {
    /// The ending of the feed's file name, with its point.
    pub open spec fn ending(self) -> Seq<char> {
        match self {
            RealtimeFeed::StandardMeteorological => ".txt"@,
            RealtimeFeed::DriftingBuoy => ".drift"@,
            RealtimeFeed::ContinuousWinds => ".cwind"@,
            RealtimeFeed::SpectralWaveSummary => ".spec"@,
        }
    }

    /// The ending of the feed's file name, with its point.
    pub fn extension(&self) -> (r: &'static str)
        ensures
            r@ == self.ending(),
    {
        match self {
            RealtimeFeed::StandardMeteorological => ".txt",
            RealtimeFeed::DriftingBuoy => ".drift",
            RealtimeFeed::ContinuousWinds => ".cwind",
            RealtimeFeed::SpectralWaveSummary => ".spec",
        }
    }
}

/// The decimal digit that stands for a number below ten.
pub open spec fn digit_char(d: nat) -> char {
    ((48 + d) as u8) as char
}

/// A natural number written in decimal.
pub open spec fn digits_of(n: nat) -> Seq<char>
    decreases n,
{
    if n < 10 {
        seq![digit_char(n)]
    } else {
        digits_of(n / 10).push(digit_char(n % 10))
    }
}

/// An integer written in decimal, with `-` before it where it is negative.
pub open spec fn decimal_of(n: int) -> Seq<char> {
    if n < 0 {
        seq!['-'] + digits_of((-n) as nat)
    } else {
        digits_of(n as nat)
    }
}

fn push_digits(s: &mut String, n: u64)
    ensures
        final(s)@ == old(s)@ + digits_of(n as nat),
    decreases n,
{
    if n >= 10 {
        push_digits(s, n / 10);
    }
    let d: u8 = (n % 10) as u8;
    let ghost before = s@;
    s.push((48 + d) as char);
    proof {
        if n >= 10 {
            assert(before.push(digit_char((n % 10) as nat)) =~= old(s)@ + digits_of(n as nat));
        } else {
            assert(before.push(digit_char(n as nat)) =~= old(s)@ + digits_of(n as nat));
        }
    }
}

/// A year written in decimal.
pub fn year_text(year: i32) -> (r: String)
    ensures
        r@ == decimal_of(year as int),
{
    let mut s = String::new();
    if year < 0 {
        s.push('-');
        let positive: u64 = (-(year as i64)) as u64;
        push_digits(&mut s, positive);
        proof {
            assert(Seq::<char>::empty().push('-') =~= seq!['-']);
        }
    } else {
        push_digits(&mut s, year as u64);
        proof {
            assert(Seq::<char>::empty() + digits_of(year as nat) =~= digits_of(year as nat));
        }
    }
    s
}

/// The address of the roster of active stations.
pub open spec fn active_stations_address() -> Seq<char> {
    "https://www.ndbc.noaa.gov/activestations.xml"@
}

/// The address of the stations' metadata.
pub open spec fn stations_metadata_address() -> Seq<char> {
    "https://www.ndbc.noaa.gov/metadata/stationmetadata.xml"@
}

/// The address of a station's history page.
pub open spec fn station_history_address(station: Seq<char>) -> Seq<char> {
    "https://www.ndbc.noaa.gov/station_history.php?station="@ + station
}

/// The address of the listing of a category's archive.
pub open spec fn historical_listing_address(data_type: StationDataType) -> Seq<char> {
    "https://www.ndbc.noaa.gov/data/historical/"@ + data_type.code()
}

/// The address of the listing of a category's files for one month of the
/// current year.
pub open spec fn monthly_listing_address(data_type: StationDataType, month: Month) -> Seq<char> {
    "https://www.ndbc.noaa.gov/data/"@ + data_type.code() + "/"@ + month.label() + "/"@
}

/// The address of the listing of the realtime files.
pub open spec fn realtime_listing_address() -> Seq<char> {
    "https://www.ndbc.noaa.gov/data/realtime2/"@
}

/// The address of a station's realtime file: the station's code in capital
/// letters and the feed's ending.
pub open spec fn realtime_address(station: Seq<char>, feed: RealtimeFeed) -> Seq<char> {
    "https://www.ndbc.noaa.gov/data/realtime2/"@ + upper(station) + feed.ending()
}

/// The address of a station's realtime spectral wave summary, with the
/// station's code as it is given.
pub open spec fn wave_summary_address(station: Seq<char>) -> Seq<char> {
    "https://www.ndbc.noaa.gov/data/realtime2/"@ + station + ".spec"@
}

/// The number under which a month's file is filed, as the text of a period
/// names it: the month's number, or 13 where the text is no month's label.
pub open spec fn month_number_text(period: Seq<char>) -> Seq<char> {
    match Month::of_label(period) {
        Some(month) => month.digits(),
        None => "13"@,
    }
}

/// The address of a station's standard meteorological file for a period:
/// in the archive where the period is a year, and else under the label of
/// the month, which is taken for a month of the year `year_now`.
pub open spec fn historical_stdmet_address_by(
    station: Seq<char>,
    period: Seq<char>,
    monthly: bool,
    year_now: int,
) -> Seq<char> {
    if monthly {
        "https://www.ndbc.noaa.gov/view_text_file.php?filename="@ + lower(station)
            + month_number_text(period) + decimal_of(year_now) + ".txt.gz"@ + "&dir=data/"@
            + StationDataType::StandardMeteorological.code() + "/"@ + period + "/"@
    } else {
        "https://www.ndbc.noaa.gov/view_text_file.php?filename="@ + lower(station) + "h"@
            + period + ".txt.gz"@ + "&dir=data/historical/"@
            + StationDataType::StandardMeteorological.code() + "/"@
    }
}

/// The address of a station's standard meteorological file for a period.
/// A period without a letter is a year, and the file is in the archive. A
/// period with a letter is taken for a month of the year `year_now`, whose
/// files lie under the month's label.
pub open spec fn historical_stdmet_address(
    station: Seq<char>,
    period: Seq<char>,
    year_now: int,
) -> Seq<char> {
    historical_stdmet_address_by(station, period, has_alphabetic(period), year_now)
}

/// A period of digits alone is a year: its file lies in the archive, whatever
/// the current year.
pub proof fn lemma_year_lies_in_archive(station: Seq<char>, period: Seq<char>, year_now: int)
    requires
        forall|i: int| 0 <= i < period.len() ==> '0' <= #[trigger] period[i] <= '9',
    ensures
        historical_stdmet_address(station, period, year_now) == historical_stdmet_address_by(
            station,
            period,
            false,
            0,
        ),
{
}

/// A month's label is a month: its file lies under the label, and its name
/// holds the month's number and the current year.
pub proof fn lemma_month_lies_under_label(station: Seq<char>, month: Month, year_now: int)
    ensures
        historical_stdmet_address(station, month.label(), year_now)
            == "https://www.ndbc.noaa.gov/view_text_file.php?filename="@ + lower(station)
            + month.digits() + decimal_of(year_now) + ".txt.gz"@ + "&dir=data/"@
            + StationDataType::StandardMeteorological.code() + "/"@ + month.label() + "/"@,
{
    lemma_month_labels(month, month);
    assert(is_letter(month.label()[0]));
}

/// The address of a station's continuous-winds file for a year of the
/// archive.
pub open spec fn historical_cwind_address(station: Seq<char>, year: Seq<char>) -> Seq<char> {
    "https://www.ndbc.noaa.gov/view_text_file.php?filename="@ + lower(station) + "c"@ + year
        + ".txt.gz"@ + "&dir=data/historical/"@ + StationDataType::ContinuousWinds.code()
        + "/"@
}

/// The address of the roster of active stations.
pub fn active_stations_url() -> (r: &'static str)
    ensures
        r@ == active_stations_address(),
{
    "https://www.ndbc.noaa.gov/activestations.xml"
}

/// The address of the stations' metadata.
pub fn stations_metadata_url() -> (r: &'static str)
    ensures
        r@ == stations_metadata_address(),
{
    "https://www.ndbc.noaa.gov/metadata/stationmetadata.xml"
}

/// The address of a station's history page.
pub fn station_history_url(station: &str) -> (r: String)
    ensures
        r@ == station_history_address(station@),
{
    let mut s = String::from_str("https://www.ndbc.noaa.gov/station_history.php?station=");
    s.append(station);
    s
}

/// The address of the listing of a category's archive.
pub fn historical_listing_url(data_type: StationDataType) -> (r: String)
    ensures
        r@ == historical_listing_address(data_type),
{
    let mut s = String::from_str("https://www.ndbc.noaa.gov/data/historical/");
    s.append(data_type.as_str());
    s
}

/// The address of the listing of a category's files for one month of the
/// current year.
pub fn monthly_listing_url(data_type: StationDataType, month: Month) -> (r: String)
    ensures
        r@ == monthly_listing_address(data_type, month),
{
    let mut s = String::from_str("https://www.ndbc.noaa.gov/data/");
    s.append(data_type.as_str());
    s.append("/");
    s.append(month.abbrev());
    s.append("/");
    s
}

/// The address of the listing of the realtime files.
pub fn realtime_listing_url() -> (r: &'static str)
    ensures
        r@ == realtime_listing_address(),
{
    "https://www.ndbc.noaa.gov/data/realtime2/"
}

/// The address of a station's realtime file.
pub fn realtime_url(station: &str, feed: RealtimeFeed) -> (r: String)
    ensures
        r@ == realtime_address(station@, feed),
{
    let mut s = String::from_str("https://www.ndbc.noaa.gov/data/realtime2/");
    let name = to_upper(station);
    s.append(name.as_str());
    s.append(feed.extension());
    s
}

/// The address of a station's realtime spectral wave summary, with the
/// station's code as it is given.
pub fn wave_summary_url(station: &str) -> (r: String)
    ensures
        r@ == wave_summary_address(station@),
{
    let mut s = String::from_str("https://www.ndbc.noaa.gov/data/realtime2/");
    s.append(station);
    s.append(".spec");
    s
}

/// The address of a station's standard meteorological file for a period,
/// given whether the period is a month: see
/// [`historical_stdmet_address_by`].
pub fn historical_stdmet_url_by(station: &str, period: &str, monthly: bool, year_now: i32) -> (r:
    String)
    ensures
        r@ == historical_stdmet_address_by(station@, period@, monthly, year_now as int),
{
    let mut s = String::from_str("https://www.ndbc.noaa.gov/view_text_file.php?filename=");
    let name = to_lower(station);
    s.append(name.as_str());
    if monthly {
        let number = match Month::from_label(period) {
            Some(month) => month.number_text(),
            None => "13",
        };
        s.append(number);
        let year = year_text(year_now);
        s.append(year.as_str());
        s.append(".txt.gz");
        s.append("&dir=data/");
        s.append(StationDataType::StandardMeteorological.as_str());
        s.append("/");
        s.append(period);
        s.append("/");
    } else {
        s.append("h");
        s.append(period);
        s.append(".txt.gz");
        s.append("&dir=data/historical/");
        s.append(StationDataType::StandardMeteorological.as_str());
        s.append("/");
    }
    s
}

/// The address of a station's standard meteorological file for a period, in
/// the year `year_now`: see [`historical_stdmet_address`].
pub fn historical_stdmet_url_in(station: &str, period: &str, year_now: i32) -> (r: String)
    ensures
        r@ == historical_stdmet_address(station@, period@, year_now as int),
{
    let monthly = contains_alphabetic(period);
    historical_stdmet_url_by(station, period, monthly, year_now)
}

/// Calls `chrono::Utc::now` and takes the year of the date it returns. The
/// clock decides what comes back, so the contract says nothing of it.
#[verifier::external_body]
fn current_year() -> (year: i32) {
    chrono::Utc::now().year()
}

/// The address of a station's standard meteorological file for a period:
/// see [`historical_stdmet_address`]. Where the period is a month, the year
/// is the one that the clock shows.
pub fn historical_stdmet_url(station: &str, period: &str) -> (r: String)
    ensures
        exists|year_now: int| r@ == historical_stdmet_address(station@, period@, year_now),
        !has_alphabetic(period@) ==> r@ == historical_stdmet_address(station@, period@, 0),
{
    let year_now = current_year();
    historical_stdmet_url_in(station, period, year_now)
}

/// The address of a station's continuous-winds file for a year of the
/// archive.
pub fn historical_cwind_url(station: &str, year: &str) -> (r: String)
    ensures
        r@ == historical_cwind_address(station@, year@),
{
    let mut s = String::from_str("https://www.ndbc.noaa.gov/view_text_file.php?filename=");
    let name = to_lower(station);
    s.append(name.as_str());
    s.append("c");
    s.append(year);
    s.append(".txt.gz");
    s.append("&dir=data/historical/");
    s.append(StationDataType::ContinuousWinds.as_str());
    s.append("/");
    s
}

} // verus!
