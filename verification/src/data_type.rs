//! The kinds of data a station publishes, and the months under which the
//! current year's files are filed.

use vstd::prelude::*;

verus! {

/// One of the agency's sensor-suite categories. `Unsupported` stands for any
/// category this library does not know.
#[derive(Clone, Copy, Debug, PartialEq, Eq, Structural)]
pub enum StationDataType {
    StandardMeteorological,
    ContinuousWinds,
    OceanCurrent,
    SpectralWaveSummary,
    SpectralWaveDensity,
    SpectralWaveA1Density,
    SpectralWaveA2Density,
    SpectralWaveR1Density,
    SpectralWaveR2Density,
    SolarRadiation,
    Unsupported,
}

impl StationDataType {
    /// The short code that names the category in addresses and file names.
    pub open spec fn code(self) -> Seq<char> {
        match self {
            StationDataType::StandardMeteorological => "stdmet"@,
            StationDataType::ContinuousWinds => "cwind"@,
            StationDataType::OceanCurrent => "adcp"@,
            StationDataType::SpectralWaveSummary => "spec"@,
            StationDataType::SpectralWaveDensity => "swden"@,
            StationDataType::SpectralWaveA1Density => "swdir"@,
            StationDataType::SpectralWaveA2Density => "swdir2"@,
            StationDataType::SpectralWaveR1Density => "swr1"@,
            StationDataType::SpectralWaveR2Density => "swr2"@,
            StationDataType::SolarRadiation => "srad"@,
            StationDataType::Unsupported => "unsupported"@,
        }
    }

    /// The category that a realtime file's extension stands for.
    pub open spec fn of_extension(ext: Seq<char>) -> StationDataType {
        if ext == "txt"@ {
            StationDataType::StandardMeteorological
        } else if ext == "cwind"@ {
            StationDataType::ContinuousWinds
        } else if ext == "spec"@ {
            StationDataType::SpectralWaveSummary
        } else {
            StationDataType::Unsupported
        }
    }

    /// The short code that names the category in addresses and file names.
    pub fn as_str(&self) -> (r: &'static str)
        ensures
            r@ == self.code(),
    {
        match self {
            StationDataType::StandardMeteorological => "stdmet",
            StationDataType::ContinuousWinds => "cwind",
            StationDataType::OceanCurrent => "adcp",
            StationDataType::SpectralWaveSummary => "spec",
            StationDataType::SpectralWaveDensity => "swden",
            StationDataType::SpectralWaveA1Density => "swdir",
            StationDataType::SpectralWaveA2Density => "swdir2",
            StationDataType::SpectralWaveR1Density => "swr1",
            StationDataType::SpectralWaveR2Density => "swr2",
            StationDataType::SolarRadiation => "srad",
            StationDataType::Unsupported => "unsupported",
        }
    }

    /// The category that a realtime file's extension stands for: `txt` is
    /// standard meteorological data, `cwind` continuous winds, `spec` the
    /// spectral wave summary; anything else is unsupported.
    pub fn from_extension(ext: &str) -> (r: StationDataType)
        ensures
            r == Self::of_extension(ext@),
    {
        if crate::text::same_text(ext, "txt") {
            StationDataType::StandardMeteorological
        } else if crate::text::same_text(ext, "cwind") {
            StationDataType::ContinuousWinds
        } else if crate::text::same_text(ext, "spec") {
            StationDataType::SpectralWaveSummary
        } else {
            StationDataType::Unsupported
        }
    }
}

/// A calendar month, under whose abbreviation the agency files the current
/// year's data.
#[derive(Clone, Copy, Debug, PartialEq, Eq, Structural)]
pub enum Month {
    Jan,
    Feb,
    Mar,
    Apr,
    May,
    Jun,
    Jul,
    Aug,
    Sep,
    Oct,
    Nov,
    Dec,
}

impl Month {
    /// The month's place in the year, from 1.
    pub open spec fn number(self) -> int {
        match self {
            Month::Jan => 1,
            Month::Feb => 2,
            Month::Mar => 3,
            Month::Apr => 4,
            Month::May => 5,
            Month::Jun => 6,
            Month::Jul => 7,
            Month::Aug => 8,
            Month::Sep => 9,
            Month::Oct => 10,
            Month::Nov => 11,
            Month::Dec => 12,
        }
    }

    /// The three-letter label of the month.
    pub open spec fn label(self) -> Seq<char> {
        match self {
            Month::Jan => "Jan"@,
            Month::Feb => "Feb"@,
            Month::Mar => "Mar"@,
            Month::Apr => "Apr"@,
            Month::May => "May"@,
            Month::Jun => "Jun"@,
            Month::Jul => "Jul"@,
            Month::Aug => "Aug"@,
            Month::Sep => "Sep"@,
            Month::Oct => "Oct"@,
            Month::Nov => "Nov"@,
            Month::Dec => "Dec"@,
        }
    }

    /// The month's number written in decimal, as file names carry it.
    pub open spec fn digits(self) -> Seq<char> {
        match self {
            Month::Jan => "1"@,
            Month::Feb => "2"@,
            Month::Mar => "3"@,
            Month::Apr => "4"@,
            Month::May => "5"@,
            Month::Jun => "6"@,
            Month::Jul => "7"@,
            Month::Aug => "8"@,
            Month::Sep => "9"@,
            Month::Oct => "10"@,
            Month::Nov => "11"@,
            Month::Dec => "12"@,
        }
    }

    /// The month whose label the text is, if it is one.
    pub open spec fn of_label(s: Seq<char>) -> Option<Month> {
        if s == "Jan"@ {
            Some(Month::Jan)
        } else if s == "Feb"@ {
            Some(Month::Feb)
        } else if s == "Mar"@ {
            Some(Month::Mar)
        } else if s == "Apr"@ {
            Some(Month::Apr)
        } else if s == "May"@ {
            Some(Month::May)
        } else if s == "Jun"@ {
            Some(Month::Jun)
        } else if s == "Jul"@ {
            Some(Month::Jul)
        } else if s == "Aug"@ {
            Some(Month::Aug)
        } else if s == "Sep"@ {
            Some(Month::Sep)
        } else if s == "Oct"@ {
            Some(Month::Oct)
        } else if s == "Nov"@ {
            Some(Month::Nov)
        } else if s == "Dec"@ {
            Some(Month::Dec)
        } else {
            None
        }
    }

    /// The month that stands at a place in the year.
    pub open spec fn at(number: int) -> Option<Month> {
        if number == 1 {
            Some(Month::Jan)
        } else if number == 2 {
            Some(Month::Feb)
        } else if number == 3 {
            Some(Month::Mar)
        } else if number == 4 {
            Some(Month::Apr)
        } else if number == 5 {
            Some(Month::May)
        } else if number == 6 {
            Some(Month::Jun)
        } else if number == 7 {
            Some(Month::Jul)
        } else if number == 8 {
            Some(Month::Aug)
        } else if number == 9 {
            Some(Month::Sep)
        } else if number == 10 {
            Some(Month::Oct)
        } else if number == 11 {
            Some(Month::Nov)
        } else if number == 12 {
            Some(Month::Dec)
        } else {
            None
        }
    }

    /// The month at a place in the year, counted from 1; `None` outside
    /// 1 to 12.
    pub fn from_number(number: u32) -> (r: Option<Month>)
        ensures
            r == Self::at(number as int),
            r matches Some(m) ==> m.number() == number,
            r is Some <==> 1 <= number <= 12,
    {
        match number {
            1 => Some(Month::Jan),
            2 => Some(Month::Feb),
            3 => Some(Month::Mar),
            4 => Some(Month::Apr),
            5 => Some(Month::May),
            6 => Some(Month::Jun),
            7 => Some(Month::Jul),
            8 => Some(Month::Aug),
            9 => Some(Month::Sep),
            10 => Some(Month::Oct),
            11 => Some(Month::Nov),
            12 => Some(Month::Dec),
            _ => None,
        }
    }

    /// The month's place in the year, from 1.
    pub fn index(&self) -> (r: u32)
        ensures
            r == self.number(),
            1 <= r <= 12,
    {
        match self {
            Month::Jan => 1,
            Month::Feb => 2,
            Month::Mar => 3,
            Month::Apr => 4,
            Month::May => 5,
            Month::Jun => 6,
            Month::Jul => 7,
            Month::Aug => 8,
            Month::Sep => 9,
            Month::Oct => 10,
            Month::Nov => 11,
            Month::Dec => 12,
        }
    }

    /// The three-letter label of the month.
    pub fn abbrev(&self) -> (r: &'static str)
        ensures
            r@ == self.label(),
    {
        match self {
            Month::Jan => "Jan",
            Month::Feb => "Feb",
            Month::Mar => "Mar",
            Month::Apr => "Apr",
            Month::May => "May",
            Month::Jun => "Jun",
            Month::Jul => "Jul",
            Month::Aug => "Aug",
            Month::Sep => "Sep",
            Month::Oct => "Oct",
            Month::Nov => "Nov",
            Month::Dec => "Dec",
        }
    }

    /// The month's number written in decimal.
    pub fn number_text(&self) -> (r: &'static str)
        ensures
            r@ == self.digits(),
    {
        match self {
            Month::Jan => "1",
            Month::Feb => "2",
            Month::Mar => "3",
            Month::Apr => "4",
            Month::May => "5",
            Month::Jun => "6",
            Month::Jul => "7",
            Month::Aug => "8",
            Month::Sep => "9",
            Month::Oct => "10",
            Month::Nov => "11",
            Month::Dec => "12",
        }
    }

    /// The month whose label the text is; `None` if it is no month's label.
    pub fn from_label(s: &str) -> (r: Option<Month>)
        ensures
            r == Self::of_label(s@),
    {
        if crate::text::same_text(s, "Jan") {
            Some(Month::Jan)
        } else if crate::text::same_text(s, "Feb") {
            Some(Month::Feb)
        } else if crate::text::same_text(s, "Mar") {
            Some(Month::Mar)
        } else if crate::text::same_text(s, "Apr") {
            Some(Month::Apr)
        } else if crate::text::same_text(s, "May") {
            Some(Month::May)
        } else if crate::text::same_text(s, "Jun") {
            Some(Month::Jun)
        } else if crate::text::same_text(s, "Jul") {
            Some(Month::Jul)
        } else if crate::text::same_text(s, "Aug") {
            Some(Month::Aug)
        } else if crate::text::same_text(s, "Sep") {
            Some(Month::Sep)
        } else if crate::text::same_text(s, "Oct") {
            Some(Month::Oct)
        } else if crate::text::same_text(s, "Nov") {
            Some(Month::Nov)
        } else if crate::text::same_text(s, "Dec") {
            Some(Month::Dec)
        } else {
            None
        }
    }
}

/// A month's label is three letters, so that no label can be taken for a
/// year; and the months of different number have different labels.
pub proof fn lemma_month_labels(month: Month, other: Month)
    ensures
        month.label().len() == 3,
        forall|i: int|
            0 <= i < 3 ==> ('A' <= #[trigger] month.label()[i] <= 'Z') || ('a'
                <= month.label()[i] <= 'z'),
        Month::of_label(month.label()) == Some(month),
        Month::at(month.number()) == Some(month),
        month.label() == other.label() ==> month == other,
{
    reveal_strlit("Jan");
    reveal_strlit("Feb");
    reveal_strlit("Mar");
    reveal_strlit("Apr");
    reveal_strlit("May");
    reveal_strlit("Jun");
    reveal_strlit("Jul");
    reveal_strlit("Aug");
    reveal_strlit("Sep");
    reveal_strlit("Oct");
    reveal_strlit("Nov");
    reveal_strlit("Dec");
    let a = month.label();
    let b = other.label();
    if a == b {
        assert(a[0] == b[0] && a[1] == b[1] && a[2] == b[2]);
    }
    let jan = "Jan"@;
    let feb = "Feb"@;
    let mar = "Mar"@;
    let apr = "Apr"@;
    let may = "May"@;
    let jun = "Jun"@;
    let jul = "Jul"@;
    let aug = "Aug"@;
    let sep = "Sep"@;
    let oct = "Oct"@;
    let nov = "Nov"@;
    assert(a == jan || a[0] != jan[0] || a[1] != jan[1] || a[2] != jan[2]);
    assert(a == feb || a[0] != feb[0] || a[1] != feb[1] || a[2] != feb[2]);
    assert(a == mar || a[0] != mar[0] || a[1] != mar[1] || a[2] != mar[2]);
    assert(a == apr || a[0] != apr[0] || a[1] != apr[1] || a[2] != apr[2]);
    assert(a == may || a[0] != may[0] || a[1] != may[1] || a[2] != may[2]);
    assert(a == jun || a[0] != jun[0] || a[1] != jun[1] || a[2] != jun[2]);
    assert(a == jul || a[0] != jul[0] || a[1] != jul[1] || a[2] != jul[2]);
    assert(a == aug || a[0] != aug[0] || a[1] != aug[1] || a[2] != aug[2]);
    assert(a == sep || a[0] != sep[0] || a[1] != sep[1] || a[2] != sep[2]);
    assert(a == oct || a[0] != oct[0] || a[1] != oct[1] || a[2] != oct[2]);
    assert(a == nov || a[0] != nov[0] || a[1] != nov[1] || a[2] != nov[2]);
}

} // verus!
