//! Observation records, and what is common to the decoders that make them.
//!
//! A measurement is held as the text in which it was published, once that
//! text is known to be a number; a measurement that the file marks as not
//! available is `None`.

use vstd::prelude::*;
use crate::number::{is_number, number_text};
use crate::sentinel::{check_null_string, is_missing};
use crate::timestamp::Timestamp;

verus! {

/// Why a body could not be decoded.
#[derive(Clone, Copy, Debug, PartialEq, Eq, Structural)]
pub enum DecodeError {
    /// The first five tokens of a record are no date and time. `record`
    /// counts the records of the body from 0.
    Timestamp { record: usize },
    /// A token that is no marker of missing data is no number either.
    /// `field` counts the tokens of the record from 0.
    Value { record: usize, field: usize },
}

/// One observation of the standard meteorological suite.
#[derive(Clone, Debug, PartialEq, Eq)]
pub struct StationStdMetData {
    pub station: String,
    pub timestamp: Timestamp,
    pub wdir: Option<String>,
    pub wspd: Option<String>,
    pub gst: Option<String>,
    pub wvht: Option<String>,
    pub dpd: Option<String>,
    pub apd: Option<String>,
    pub mwd: Option<String>,
    pub pres: Option<String>,
    pub atmp: Option<String>,
    pub wtmp: Option<String>,
    pub dewp: Option<String>,
    pub vis: Option<String>,
    pub ptdy: Option<String>,
    pub tide: Option<String>,
}

/// One observation of continuous winds.
#[derive(Clone, Debug, PartialEq, Eq)]
pub struct StationContinuousWindsData {
    pub station: String,
    pub timestamp: Timestamp,
    pub wdir: Option<String>,
    pub wspd: Option<String>,
    pub gdr: Option<String>,
    pub gst: Option<String>,
}

/// One line of the spectral wave summary. `swd`, `wwd` and `steep` are
/// codes, the other measurements are numbers.
#[derive(Clone, Debug, PartialEq, Eq)]
pub struct StationSpectralWaveSummary {
    pub station: String,
    pub timestamp: Timestamp,
    pub wvht: Option<String>,
    pub swh: Option<String>,
    pub swp: Option<String>,
    pub wwh: Option<String>,
    pub wwp: Option<String>,
    pub swd: Option<String>,
    pub wwd: Option<String>,
    pub steep: Option<String>,
    pub apd: Option<String>,
    pub mwd: Option<String>,
}

/// What a [`StationStdMetData`] holds.
pub struct StdMetView {
    pub station: Seq<char>,
    pub timestamp: Timestamp,
    pub wdir: Option<Seq<char>>,
    pub wspd: Option<Seq<char>>,
    pub gst: Option<Seq<char>>,
    pub wvht: Option<Seq<char>>,
    pub dpd: Option<Seq<char>>,
    pub apd: Option<Seq<char>>,
    pub mwd: Option<Seq<char>>,
    pub pres: Option<Seq<char>>,
    pub atmp: Option<Seq<char>>,
    pub wtmp: Option<Seq<char>>,
    pub dewp: Option<Seq<char>>,
    pub vis: Option<Seq<char>>,
    pub ptdy: Option<Seq<char>>,
    pub tide: Option<Seq<char>>,
}

/// What a [`StationContinuousWindsData`] holds.
pub struct WindsView {
    pub station: Seq<char>,
    pub timestamp: Timestamp,
    pub wdir: Option<Seq<char>>,
    pub wspd: Option<Seq<char>>,
    pub gdr: Option<Seq<char>>,
    pub gst: Option<Seq<char>>,
}

/// What a [`StationSpectralWaveSummary`] holds.
pub struct WaveSummaryView {
    pub station: Seq<char>,
    pub timestamp: Timestamp,
    pub wvht: Option<Seq<char>>,
    pub swh: Option<Seq<char>>,
    pub swp: Option<Seq<char>>,
    pub wwh: Option<Seq<char>>,
    pub wwp: Option<Seq<char>>,
    pub swd: Option<Seq<char>>,
    pub wwd: Option<Seq<char>>,
    pub steep: Option<Seq<char>>,
    pub apd: Option<Seq<char>>,
    pub mwd: Option<Seq<char>>,
}

/// Whether a field holds what a numeric field may hold: nothing, or a number
/// that is no marker of missing data.
pub open spec fn is_measurement(field: Option<Seq<char>>) -> bool {
    field matches Some(text) ==> is_number(text) && !is_missing(text)
}

/// Whether a field holds what a code field may hold: nothing, or a text that
/// is no marker of missing data.
pub open spec fn is_code(field: Option<Seq<char>>) -> bool {
    field matches Some(text) ==> !is_missing(text)
}

impl StdMetView {
    /// Every part of the timestamp is in range and every field that is
    /// present is a number.
    pub open spec fn well_formed(self) -> bool {
        &&& self.timestamp.in_range()
        &&& is_measurement(self.wdir)
        &&& is_measurement(self.wspd)
        &&& is_measurement(self.gst)
        &&& is_measurement(self.wvht)
        &&& is_measurement(self.dpd)
        &&& is_measurement(self.apd)
        &&& is_measurement(self.mwd)
        &&& is_measurement(self.pres)
        &&& is_measurement(self.atmp)
        &&& is_measurement(self.wtmp)
        &&& is_measurement(self.dewp)
        &&& is_measurement(self.vis)
        &&& is_measurement(self.ptdy)
        &&& is_measurement(self.tide)
    }

    /// Whether no measurement is present.
    pub open spec fn is_blank(self) -> bool {
        &&& self.wdir is None
        &&& self.wspd is None
        &&& self.gst is None
        &&& self.wvht is None
        &&& self.dpd is None
        &&& self.apd is None
        &&& self.mwd is None
        &&& self.pres is None
        &&& self.atmp is None
        &&& self.wtmp is None
        &&& self.dewp is None
        &&& self.vis is None
        &&& self.ptdy is None
        &&& self.tide is None
    }
}

impl WindsView {
    /// Every part of the timestamp is in range and every field that is
    /// present is a number.
    pub open spec fn well_formed(self) -> bool {
        &&& self.timestamp.in_range()
        &&& is_measurement(self.wdir)
        &&& is_measurement(self.wspd)
        &&& is_measurement(self.gdr)
        &&& is_measurement(self.gst)
    }
}

impl WaveSummaryView {
    /// Every part of the timestamp is in range, every numeric field that is
    /// present is a number, and no code is a marker of missing data.
    pub open spec fn well_formed(self) -> bool {
        &&& self.timestamp.in_range()
        &&& is_measurement(self.wvht)
        &&& is_measurement(self.swh)
        &&& is_measurement(self.swp)
        &&& is_measurement(self.wwh)
        &&& is_measurement(self.wwp)
        &&& is_code(self.swd)
        &&& is_code(self.wwd)
        &&& is_code(self.steep)
        &&& is_measurement(self.apd)
        &&& is_measurement(self.mwd)
    }
}

impl View for StationStdMetData {
    type V = StdMetView;

    open spec fn view(&self) -> StdMetView {
        StdMetView {
            station: self.station@,
            timestamp: self.timestamp,
            wdir: self.wdir.deep_view(),
            wspd: self.wspd.deep_view(),
            gst: self.gst.deep_view(),
            wvht: self.wvht.deep_view(),
            dpd: self.dpd.deep_view(),
            apd: self.apd.deep_view(),
            mwd: self.mwd.deep_view(),
            pres: self.pres.deep_view(),
            atmp: self.atmp.deep_view(),
            wtmp: self.wtmp.deep_view(),
            dewp: self.dewp.deep_view(),
            vis: self.vis.deep_view(),
            ptdy: self.ptdy.deep_view(),
            tide: self.tide.deep_view(),
        }
    }
}

impl DeepView for StationStdMetData {
    type V = StdMetView;

    open spec fn deep_view(&self) -> StdMetView {
        self@
    }
}

impl View for StationContinuousWindsData {
    type V = WindsView;

    open spec fn view(&self) -> WindsView {
        WindsView {
            station: self.station@,
            timestamp: self.timestamp,
            wdir: self.wdir.deep_view(),
            wspd: self.wspd.deep_view(),
            gdr: self.gdr.deep_view(),
            gst: self.gst.deep_view(),
        }
    }
}

impl DeepView for StationContinuousWindsData {
    type V = WindsView;

    open spec fn deep_view(&self) -> WindsView {
        self@
    }
}

impl View for StationSpectralWaveSummary {
    type V = WaveSummaryView;

    open spec fn view(&self) -> WaveSummaryView {
        WaveSummaryView {
            station: self.station@,
            timestamp: self.timestamp,
            wvht: self.wvht.deep_view(),
            swh: self.swh.deep_view(),
            swp: self.swp.deep_view(),
            wwh: self.wwh.deep_view(),
            wwp: self.wwp.deep_view(),
            swd: self.swd.deep_view(),
            wwd: self.wwd.deep_view(),
            steep: self.steep.deep_view(),
            apd: self.apd.deep_view(),
            mwd: self.mwd.deep_view(),
        }
    }
}

impl DeepView for StationSpectralWaveSummary {
    type V = WaveSummaryView;

    open spec fn deep_view(&self) -> WaveSummaryView {
        self@
    }
}

/// What a token says of a measurement: nothing where the token marks
/// missing data, and else the token itself.
pub open spec fn reading(token: Seq<char>) -> Option<Seq<char>> {
    if is_missing(token) {
        None
    } else {
        Some(token)
    }
}

/// Whether a token can stand for no measurement: it neither marks missing
/// data nor is a number.
pub open spec fn unreadable(token: Seq<char>) -> bool {
    !is_missing(token) && !is_number(token)
}

/// The place of the first unreadable token among `tokens[from..to]`.
pub open spec fn first_unreadable(tokens: Seq<Seq<char>>, from: int, to: int) -> Option<int>
    decreases to - from,
{
    if from >= to {
        None
    } else if unreadable(tokens[from]) {
        Some(from)
    } else {
        first_unreadable(tokens, from + 1, to)
    }
}

/// Where no token of a range is unreadable, each of them reads as a
/// measurement.
pub proof fn lemma_all_readable(tokens: Seq<Seq<char>>, from: int, to: int)
    requires
        first_unreadable(tokens, from, to) is None,
    ensures
        forall|i: int| from <= i < to ==> !unreadable(#[trigger] tokens[i]),
        forall|i: int| from <= i < to ==> is_measurement(reading(#[trigger] tokens[i])),
    decreases to - from,
{
    if from < to {
        lemma_all_readable(tokens, from + 1, to);
    }
}

/// The texts of a list are the views of its members.
pub proof fn lemma_texts(tokens: &Vec<String>)
    ensures
        tokens.deep_view().len() == tokens.len(),
        forall|i: int| 0 <= i < tokens.len() ==> #[trigger] tokens.deep_view()[i] == tokens[i]@,
{
}

/// What a token says of a measurement: see [`reading`].
pub fn read_value(token: &String) -> (r: Option<String>)
    ensures
        r.deep_view() == reading(token@),
{
    if check_null_string(token.as_str()) {
        None
    } else {
        Some(token.clone())
    }
}

/// The place of the first unreadable token among `tokens[from..to]`.
pub fn find_unreadable(tokens: &Vec<String>, from: usize, to: usize) -> (r: Option<usize>)
    requires
        from <= to <= tokens.len(),
    ensures
        match r {
            Some(c) => first_unreadable(tokens.deep_view(), from as int, to as int) == Some(
                c as int,
            ),
            None => first_unreadable(tokens.deep_view(), from as int, to as int) is None,
        },
{
    let mut i: usize = from;
    proof {
        lemma_texts(tokens);
    }
    while i < to
        invariant
            from <= i <= to <= tokens.len(),
            first_unreadable(tokens.deep_view(), from as int, to as int) == first_unreadable(
                tokens.deep_view(),
                i as int,
                to as int,
            ),
            forall|i: int|
                0 <= i < tokens.len() ==> #[trigger] tokens.deep_view()[i] == tokens[i]@,
        decreases to - i,
    {
        let token = tokens[i].as_str();
        if !check_null_string(token) && !number_text(token) {
            return Some(i);
        }
        i += 1;
    }
    None
}

} // verus!
