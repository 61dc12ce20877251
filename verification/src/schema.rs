//! Stations and the descriptors of the files that exist for them.

use vstd::prelude::*;
use crate::data_type::StationDataType;
use crate::text::{to_upper, upper};
use crate::timestamp::Timestamp;

verus! {

/// A file of the archive: of a year, or of a month of the current year.
#[derive(Debug, PartialEq, Eq)]
pub struct StationHistoricFile {
    pub filename: String,
    pub station: String,
    pub data_type: StationDataType,
    /// The year of the file, in four digits, or the label of its month.
    pub year: String,
}

/// A file of the realtime feed.
#[derive(Debug, PartialEq, Eq)]
pub struct StationRealtimeFile {
    pub filename: String,
    pub station: String,
    pub data_type: StationDataType,
    /// When the listing says the file was last changed.
    pub timestamp: Timestamp,
}

/// A file of the archive as a station's history page links to it.
#[derive(Debug, PartialEq, Eq)]
pub struct StationHistorySTDMET {
    pub filename: String,
    pub year: String,
}

/// One deployment in a station's history.
#[derive(Debug, PartialEq, Eq)]
pub struct StationMetadataHistory {
    pub start: Option<String>,
    pub stop: Option<String>,
    pub lat: Option<String>,
    pub lng: Option<String>,
    pub elev: Option<String>,
    pub met: Option<String>,
    pub hull: Option<String>,
    pub anemom_height: Option<String>,
}

/// What the agency records of a station, with its deployments.
#[derive(Debug, PartialEq, Eq)]
pub struct StationMetadata {
    pub id: String,
    pub name: Option<String>,
    pub owner: Option<String>,
    pub pgm: Option<String>,
    pub station_type: Option<String>,
    pub history: Vec<StationMetadataHistory>,
}

/// A station of the roster, with the files found for it. Position and
/// elevation are kept as the roster writes them.
#[derive(Debug, PartialEq, Eq)]
pub struct Station {
    pub id: String,
    pub lat: Option<String>,
    pub lon: Option<String>,
    pub elev: Option<String>,
    pub name: Option<String>,
    pub owner: Option<String>,
    pub pgm: Option<String>,
    pub station_type: Option<String>,
    pub met: Option<bool>,
    pub currents: Option<bool>,
    pub waterquality: Option<bool>,
    pub dart: Option<bool>,
    pub stdmet_history: Option<Vec<StationHistoricFile>>,
    pub cwind_history: Option<Vec<StationHistoricFile>>,
    pub stdmet_realtime: Option<Vec<StationRealtimeFile>>,
    pub cwind_realtime: Option<Vec<StationRealtimeFile>>,
    pub spec_realtime: Option<Vec<StationRealtimeFile>>,
}

/// What a [`StationHistoricFile`] holds.
pub struct HistoricFileView {
    pub filename: Seq<char>,
    pub station: Seq<char>,
    pub data_type: StationDataType,
    pub year: Seq<char>,
}

/// What a [`StationRealtimeFile`] holds.
pub struct RealtimeFileView {
    pub filename: Seq<char>,
    pub station: Seq<char>,
    pub data_type: StationDataType,
    pub timestamp: Timestamp,
}

/// What a [`StationHistorySTDMET`] holds.
pub struct HistoryLinkView {
    pub filename: Seq<char>,
    pub year: Seq<char>,
}

/// What a [`StationMetadataHistory`] holds.
pub struct MetadataHistoryView {
    pub start: Option<Seq<char>>,
    pub stop: Option<Seq<char>>,
    pub lat: Option<Seq<char>>,
    pub lng: Option<Seq<char>>,
    pub elev: Option<Seq<char>>,
    pub met: Option<Seq<char>>,
    pub hull: Option<Seq<char>>,
    pub anemom_height: Option<Seq<char>>,
}

/// What a [`StationMetadata`] holds.
pub struct StationMetadataView {
    pub id: Seq<char>,
    pub name: Option<Seq<char>>,
    pub owner: Option<Seq<char>>,
    pub pgm: Option<Seq<char>>,
    pub station_type: Option<Seq<char>>,
    pub history: Seq<MetadataHistoryView>,
}

/// What a [`Station`] holds.
pub struct StationView {
    pub id: Seq<char>,
    pub lat: Option<Seq<char>>,
    pub lon: Option<Seq<char>>,
    pub elev: Option<Seq<char>>,
    pub name: Option<Seq<char>>,
    pub owner: Option<Seq<char>>,
    pub pgm: Option<Seq<char>>,
    pub station_type: Option<Seq<char>>,
    pub met: Option<bool>,
    pub currents: Option<bool>,
    pub waterquality: Option<bool>,
    pub dart: Option<bool>,
    pub stdmet_history: Option<Seq<HistoricFileView>>,
    pub cwind_history: Option<Seq<HistoricFileView>>,
    pub stdmet_realtime: Option<Seq<RealtimeFileView>>,
    pub cwind_realtime: Option<Seq<RealtimeFileView>>,
    pub spec_realtime: Option<Seq<RealtimeFileView>>,
}

impl View for StationHistoricFile {
    type V = HistoricFileView;

    open spec fn view(&self) -> HistoricFileView {
        HistoricFileView {
            filename: self.filename@,
            station: self.station@,
            data_type: self.data_type,
            year: self.year@,
        }
    }
}

impl DeepView for StationHistoricFile {
    type V = HistoricFileView;

    open spec fn deep_view(&self) -> HistoricFileView {
        self@
    }
}

impl View for StationRealtimeFile {
    type V = RealtimeFileView;

    open spec fn view(&self) -> RealtimeFileView {
        RealtimeFileView {
            filename: self.filename@,
            station: self.station@,
            data_type: self.data_type,
            timestamp: self.timestamp,
        }
    }
}

impl DeepView for StationRealtimeFile {
    type V = RealtimeFileView;

    open spec fn deep_view(&self) -> RealtimeFileView {
        self@
    }
}

impl View for StationHistorySTDMET {
    type V = HistoryLinkView;

    open spec fn view(&self) -> HistoryLinkView {
        HistoryLinkView { filename: self.filename@, year: self.year@ }
    }
}

impl DeepView for StationHistorySTDMET {
    type V = HistoryLinkView;

    open spec fn deep_view(&self) -> HistoryLinkView {
        self@
    }
}

impl View for StationMetadataHistory {
    type V = MetadataHistoryView;

    open spec fn view(&self) -> MetadataHistoryView {
        MetadataHistoryView {
            start: self.start.deep_view(),
            stop: self.stop.deep_view(),
            lat: self.lat.deep_view(),
            lng: self.lng.deep_view(),
            elev: self.elev.deep_view(),
            met: self.met.deep_view(),
            hull: self.hull.deep_view(),
            anemom_height: self.anemom_height.deep_view(),
        }
    }
}

impl DeepView for StationMetadataHistory {
    type V = MetadataHistoryView;

    open spec fn deep_view(&self) -> MetadataHistoryView {
        self@
    }
}

impl View for StationMetadata {
    type V = StationMetadataView;

    open spec fn view(&self) -> StationMetadataView {
        StationMetadataView {
            id: self.id@,
            name: self.name.deep_view(),
            owner: self.owner.deep_view(),
            pgm: self.pgm.deep_view(),
            station_type: self.station_type.deep_view(),
            history: self.history.deep_view(),
        }
    }
}

impl DeepView for StationMetadata {
    type V = StationMetadataView;

    open spec fn deep_view(&self) -> StationMetadataView {
        self@
    }
}

impl View for Station {
    type V = StationView;

    open spec fn view(&self) -> StationView {
        StationView {
            id: self.id@,
            lat: self.lat.deep_view(),
            lon: self.lon.deep_view(),
            elev: self.elev.deep_view(),
            name: self.name.deep_view(),
            owner: self.owner.deep_view(),
            pgm: self.pgm.deep_view(),
            station_type: self.station_type.deep_view(),
            met: self.met,
            currents: self.currents,
            waterquality: self.waterquality,
            dart: self.dart,
            stdmet_history: self.stdmet_history.deep_view(),
            cwind_history: self.cwind_history.deep_view(),
            stdmet_realtime: self.stdmet_realtime.deep_view(),
            cwind_realtime: self.cwind_realtime.deep_view(),
            spec_realtime: self.spec_realtime.deep_view(),
        }
    }
}

impl DeepView for Station {
    type V = StationView;

    open spec fn deep_view(&self) -> StationView {
        self@
    }
}

impl Clone for StationHistoricFile {
    fn clone(&self) -> (r: Self)
        ensures
            r@ == self@,
    {
        StationHistoricFile {
            filename: self.filename.clone(),
            station: self.station.clone(),
            data_type: self.data_type,
            year: self.year.clone(),
        }
    }
}

impl Clone for StationRealtimeFile {
    fn clone(&self) -> (r: Self)
        ensures
            r@ == self@,
    {
        StationRealtimeFile {
            filename: self.filename.clone(),
            station: self.station.clone(),
            data_type: self.data_type,
            timestamp: self.timestamp,
        }
    }
}

impl Clone for StationHistorySTDMET {
    fn clone(&self) -> (r: Self)
        ensures
            r@ == self@,
    {
        StationHistorySTDMET { filename: self.filename.clone(), year: self.year.clone() }
    }
}

impl Clone for StationMetadataHistory {
    fn clone(&self) -> (r: Self)
        ensures
            r@ == self@,
    {
        StationMetadataHistory {
            start: copy_text(&self.start),
            stop: copy_text(&self.stop),
            lat: copy_text(&self.lat),
            lng: copy_text(&self.lng),
            elev: copy_text(&self.elev),
            met: copy_text(&self.met),
            hull: copy_text(&self.hull),
            anemom_height: copy_text(&self.anemom_height),
        }
    }
}

impl Clone for StationMetadata {
    fn clone(&self) -> (r: Self)
        ensures
            r@ == self@,
    {
        let mut history: Vec<StationMetadataHistory> = Vec::new();
        let mut i: usize = 0;
        while i < self.history.len()
            invariant
                i <= self.history.len(),
                history.len() == i,
                forall|j: int| 0 <= j < i ==> (#[trigger] history[j])@ == self.history[j]@,
            decreases self.history.len() - i,
        {
            history.push(self.history[i].clone());
            i += 1;
        }
        proof {
            assert(history.deep_view() =~= self.history.deep_view());
        }
        StationMetadata {
            id: self.id.clone(),
            name: copy_text(&self.name),
            owner: copy_text(&self.owner),
            pgm: copy_text(&self.pgm),
            station_type: copy_text(&self.station_type),
            history,
        }
    }
}

/// A copy of a text that may be absent.
pub fn copy_text(text: &Option<String>) -> (r: Option<String>)
    ensures
        r.deep_view() == text.deep_view(),
{
    match text {
        Some(s) => Some(s.clone()),
        None => None,
    }
}

/// A copy of a list of archive files.
pub fn copy_historic(files: &Vec<StationHistoricFile>) -> (r: Vec<StationHistoricFile>)
    ensures
        r.deep_view() == files.deep_view(),
{
    let mut out: Vec<StationHistoricFile> = Vec::new();
    let mut i: usize = 0;
    while i < files.len()
        invariant
            i <= files.len(),
            out.len() == i,
            forall|j: int| 0 <= j < i ==> (#[trigger] out[j])@ == files[j]@,
        decreases files.len() - i,
    {
        out.push(files[i].clone());
        i += 1;
    }
    proof {
        assert(out.deep_view() =~= files.deep_view());
    }
    out
}

/// A copy of a list of realtime files.
pub fn copy_realtime(files: &Vec<StationRealtimeFile>) -> (r: Vec<StationRealtimeFile>)
    ensures
        r.deep_view() == files.deep_view(),
{
    let mut out: Vec<StationRealtimeFile> = Vec::new();
    let mut i: usize = 0;
    while i < files.len()
        invariant
            i <= files.len(),
            out.len() == i,
            forall|j: int| 0 <= j < i ==> (#[trigger] out[j])@ == files[j]@,
        decreases files.len() - i,
    {
        out.push(files[i].clone());
        i += 1;
    }
    proof {
        assert(out.deep_view() =~= files.deep_view());
    }
    out
}

fn copy_historic_slot(slot: &Option<Vec<StationHistoricFile>>) -> (r: Option<
    Vec<StationHistoricFile>,
>)
    ensures
        r.deep_view() == slot.deep_view(),
{
    match slot {
        Some(files) => Some(copy_historic(files)),
        None => None,
    }
}

fn copy_realtime_slot(slot: &Option<Vec<StationRealtimeFile>>) -> (r: Option<
    Vec<StationRealtimeFile>,
>)
    ensures
        r.deep_view() == slot.deep_view(),
{
    match slot {
        Some(files) => Some(copy_realtime(files)),
        None => None,
    }
}

impl Clone for Station {
    fn clone(&self) -> (r: Self)
        ensures
            r@ == self@,
    {
        Station {
            id: self.id.clone(),
            lat: copy_text(&self.lat),
            lon: copy_text(&self.lon),
            elev: copy_text(&self.elev),
            name: copy_text(&self.name),
            owner: copy_text(&self.owner),
            pgm: copy_text(&self.pgm),
            station_type: copy_text(&self.station_type),
            met: self.met,
            currents: self.currents,
            waterquality: self.waterquality,
            dart: self.dart,
            stdmet_history: copy_historic_slot(&self.stdmet_history),
            cwind_history: copy_historic_slot(&self.cwind_history),
            stdmet_realtime: copy_realtime_slot(&self.stdmet_realtime),
            cwind_realtime: copy_realtime_slot(&self.cwind_realtime),
            spec_realtime: copy_realtime_slot(&self.spec_realtime),
        }
    }
}

/// What a capability mark of the roster says: `y` is yes, `n` is no, and
/// anything else, or no mark, leaves the matter open.
pub open spec fn flag_of(mark: Option<Seq<char>>) -> Option<bool> {
    match mark {
        Some(text) => if text == "y"@ {
            Some(true)
        } else if text == "n"@ {
            Some(false)
        } else {
            None
        },
        None => None,
    }
}

/// What a capability mark of the roster says: see [`flag_of`].
pub fn capability_flag(mark: Option<&str>) -> (r: Option<bool>)
    ensures
        r == flag_of(
            match mark {
                Some(text) => Some(text@),
                None => None,
            },
        ),
{
    match mark {
        Some(text) => {
            if crate::text::same_text(text, "y") {
                Some(true)
            } else if crate::text::same_text(text, "n") {
                Some(false)
            } else {
                None
            }
        },
        None => None,
    }
}

/// A station's code as the roster's entries carry it: in capital letters.
pub fn station_code(id: &str) -> (r: String)
    ensures
        r@ == upper(id@),
{
    to_upper(id)
}

} // verus!
