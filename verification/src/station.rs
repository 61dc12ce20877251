//! Station enrichment: joining the roster with the files found for its
//! stations.
//!
//! A file belongs to a station when the station code of the file equals the
//! station's identifier. The files found for a station are put into the slot
//! of their category; a station for which none is found keeps what the slot
//! held, so that "nothing found" leaves an absent slot absent.

use vstd::prelude::*;
use crate::schema::{
    copy_historic, HistoricFileView, RealtimeFileView, Station,
    StationHistoricFile, StationRealtimeFile, StationView,
};

verus! {

/// The archive files of a list that are those of a station, in the list's
/// order.
pub open spec fn historic_of(files: Seq<HistoricFileView>, id: Seq<char>) -> Seq<
    HistoricFileView,
> {
    files.filter(|file: HistoricFileView| file.station == id)
}

/// The realtime files of a list that are those of a station, in the list's
/// order.
pub open spec fn realtime_of(files: Seq<RealtimeFileView>, id: Seq<char>) -> Seq<
    RealtimeFileView,
> {
    files.filter(|file: RealtimeFileView| file.station == id)
}

/// A slot once the files found for it are attached: the files, or what the
/// slot held where none was found.
pub open spec fn attached<T>(slot: Option<Seq<T>>, found: Seq<T>) -> Option<Seq<T>> {
    if found.len() == 0 {
        slot
    } else {
        Some(found)
    }
}

/// A station with the realtime files of three lists attached, each list to
/// the slot of its category.
pub open spec fn with_realtime(
    station: StationView,
    stdmet_realtime: Seq<RealtimeFileView>,
    cwind_realtime: Seq<RealtimeFileView>,
    spec_realtime: Seq<RealtimeFileView>,
) -> StationView {
    StationView {
        stdmet_realtime: attached(
            station.stdmet_realtime,
            realtime_of(stdmet_realtime, station.id),
        ),
        cwind_realtime: attached(station.cwind_realtime, realtime_of(cwind_realtime, station.id)),
        spec_realtime: attached(station.spec_realtime, realtime_of(spec_realtime, station.id)),
        ..station
    }
}

/// A station with the files of five lists attached, each list to the slot of
/// its category.
pub open spec fn enriched(
    station: StationView,
    stdmet_history: Seq<HistoricFileView>,
    cwind_history: Seq<HistoricFileView>,
    stdmet_realtime: Seq<RealtimeFileView>,
    cwind_realtime: Seq<RealtimeFileView>,
    spec_realtime: Seq<RealtimeFileView>,
) -> StationView {
    let station = with_realtime(station, stdmet_realtime, cwind_realtime, spec_realtime);
    StationView {
        stdmet_history: attached(station.stdmet_history, historic_of(stdmet_history, station.id)),
        cwind_history: attached(station.cwind_history, historic_of(cwind_history, station.id)),
        ..station
    }
}

/// The stations of a roster whose identifier is `id`, in the roster's
/// order, each with the realtime files of three lists attached.
pub open spec fn matched(
    roster: Seq<StationView>,
    id: Seq<char>,
    stdmet_realtime: Seq<RealtimeFileView>,
    cwind_realtime: Seq<RealtimeFileView>,
    spec_realtime: Seq<RealtimeFileView>,
) -> Seq<StationView> {
    roster.filter(|station: StationView| station.id == id).map_values(
        |station: StationView|
            with_realtime(station, stdmet_realtime, cwind_realtime, spec_realtime),
    )
}

/// The profile of the station `id`: the stations of the roster that carry
/// this identifier, with the realtime files attached to each and the archive
/// files, which were looked up for this station, attached to the first.
/// Where the roster holds no such station the profile is empty, whatever
/// files were found.
pub open spec fn profile(
    roster: Seq<StationView>,
    id: Seq<char>,
    stdmet_history: Seq<HistoricFileView>,
    cwind_history: Seq<HistoricFileView>,
    stdmet_realtime: Seq<RealtimeFileView>,
    cwind_realtime: Seq<RealtimeFileView>,
    spec_realtime: Seq<RealtimeFileView>,
) -> Seq<StationView> {
    let found = matched(roster, id, stdmet_realtime, cwind_realtime, spec_realtime);
    if found.len() == 0 {
        found
    } else {
        found.update(
            0,
            StationView {
                stdmet_history: attached(found[0].stdmet_history, stdmet_history),
                cwind_history: attached(found[0].cwind_history, cwind_history),
                ..found[0]
            },
        )
    }
}

/// Where the roster holds no station with the identifier, the profile is
/// empty, whatever files were found for the identifier.
pub proof fn lemma_profile_of_unknown_station(
    roster: Seq<StationView>,
    id: Seq<char>,
    stdmet_history: Seq<HistoricFileView>,
    cwind_history: Seq<HistoricFileView>,
    stdmet_realtime: Seq<RealtimeFileView>,
    cwind_realtime: Seq<RealtimeFileView>,
    spec_realtime: Seq<RealtimeFileView>,
)
    requires
        forall|i: int| 0 <= i < roster.len() ==> (#[trigger] roster[i]).id != id,
    ensures
        profile(
            roster,
            id,
            stdmet_history,
            cwind_history,
            stdmet_realtime,
            cwind_realtime,
            spec_realtime,
        ) == Seq::<StationView>::empty(),
    decreases roster.len(),
{
    reveal_with_fuel(Seq::filter, 2);
    if roster.len() > 0 {
        let before = roster.drop_last();
        assert forall|i: int| 0 <= i < before.len() implies (#[trigger] before[i]).id != id by {
            assert(before[i] == roster[i]);
        }
        lemma_profile_of_unknown_station(
            before,
            id,
            stdmet_history,
            cwind_history,
            stdmet_realtime,
            cwind_realtime,
            spec_realtime,
        );
        assert(roster.last() == roster[roster.len() - 1]);
    }
    assert(matched(roster, id, stdmet_realtime, cwind_realtime, spec_realtime) =~= Seq::<
        StationView,
    >::empty());
}

/// The archive files of a list that are those of a station.
pub fn historic_files_of(files: &Vec<StationHistoricFile>, id: &String) -> (r: Vec<
    StationHistoricFile,
>)
    ensures
        r.deep_view() == historic_of(files.deep_view(), id@),
{
    let mut out: Vec<StationHistoricFile> = Vec::new();
    let mut i: usize = 0;
    proof {
        reveal_with_fuel(Seq::filter, 2);
        assert(files.deep_view().take(0) =~= Seq::<HistoricFileView>::empty());
        assert(out.deep_view() =~= Seq::<HistoricFileView>::empty());
    }
    while i < files.len()
        invariant
            i <= files.len(),
            out.deep_view() == historic_of(files.deep_view().take(i as int), id@),
        decreases files.len() - i,
    {
        proof {
            let all = files.deep_view();
            reveal_with_fuel(Seq::filter, 2);
            assert(all.take(i as int + 1).drop_last() =~= all.take(i as int));
            assert(all.take(i as int + 1).last() == files[i as int]@);
        }
        if files[i].station == *id {
            let ghost before = out.deep_view();
            out.push(files[i].clone());
            proof {
                assert(out.deep_view() =~= before.push(files[i as int]@));
            }
        }
        i += 1;
    }
    proof {
        assert(files.deep_view().take(i as int) =~= files.deep_view());
    }
    out
}

/// The realtime files of a list that are those of a station.
pub fn realtime_files_of(files: &Vec<StationRealtimeFile>, id: &String) -> (r: Vec<
    StationRealtimeFile,
>)
    ensures
        r.deep_view() == realtime_of(files.deep_view(), id@),
{
    let mut out: Vec<StationRealtimeFile> = Vec::new();
    let mut i: usize = 0;
    proof {
        reveal_with_fuel(Seq::filter, 2);
        assert(files.deep_view().take(0) =~= Seq::<RealtimeFileView>::empty());
        assert(out.deep_view() =~= Seq::<RealtimeFileView>::empty());
    }
    while i < files.len()
        invariant
            i <= files.len(),
            out.deep_view() == realtime_of(files.deep_view().take(i as int), id@),
        decreases files.len() - i,
    {
        proof {
            let all = files.deep_view();
            reveal_with_fuel(Seq::filter, 2);
            assert(all.take(i as int + 1).drop_last() =~= all.take(i as int));
            assert(all.take(i as int + 1).last() == files[i as int]@);
        }
        if files[i].station == *id {
            let ghost before = out.deep_view();
            out.push(files[i].clone());
            proof {
                assert(out.deep_view() =~= before.push(files[i as int]@));
            }
        }
        i += 1;
    }
    proof {
        assert(files.deep_view().take(i as int) =~= files.deep_view());
    }
    out
}

/// A copy of a station with the realtime files of three lists attached.
pub fn attach_realtime(
    station: &Station,
    stdmet_realtime: &Vec<StationRealtimeFile>,
    cwind_realtime: &Vec<StationRealtimeFile>,
    spec_realtime: &Vec<StationRealtimeFile>,
) -> (r: Station)
    ensures
        r@ == with_realtime(
            station@,
            stdmet_realtime.deep_view(),
            cwind_realtime.deep_view(),
            spec_realtime.deep_view(),
        ),
{
    let mut s = station.clone();
    let found = realtime_files_of(stdmet_realtime, &station.id);
    if found.len() > 0 {
        s.stdmet_realtime = Some(found);
    }
    let found = realtime_files_of(cwind_realtime, &station.id);
    if found.len() > 0 {
        s.cwind_realtime = Some(found);
    }
    let found = realtime_files_of(spec_realtime, &station.id);
    if found.len() > 0 {
        s.spec_realtime = Some(found);
    }
    s
}

/// A copy of a station with the files of five lists attached.
pub fn enrich_station(
    station: &Station,
    stdmet_history: &Vec<StationHistoricFile>,
    cwind_history: &Vec<StationHistoricFile>,
    stdmet_realtime: &Vec<StationRealtimeFile>,
    cwind_realtime: &Vec<StationRealtimeFile>,
    spec_realtime: &Vec<StationRealtimeFile>,
) -> (r: Station)
    ensures
        r@ == enriched(
            station@,
            stdmet_history.deep_view(),
            cwind_history.deep_view(),
            stdmet_realtime.deep_view(),
            cwind_realtime.deep_view(),
            spec_realtime.deep_view(),
        ),
{
    let mut s = attach_realtime(station, stdmet_realtime, cwind_realtime, spec_realtime);
    let found = historic_files_of(stdmet_history, &station.id);
    if found.len() > 0 {
        s.stdmet_history = Some(found);
    }
    let found = historic_files_of(cwind_history, &station.id);
    if found.len() > 0 {
        s.cwind_history = Some(found);
    }
    s
}

/// The roster with the files of five lists attached to its stations: each
/// station with the files that carry its identifier, each list in the slot
/// of its category.
pub fn enrich_stations(
    roster: &Vec<Station>,
    stdmet_history: &Vec<StationHistoricFile>,
    cwind_history: &Vec<StationHistoricFile>,
    stdmet_realtime: &Vec<StationRealtimeFile>,
    cwind_realtime: &Vec<StationRealtimeFile>,
    spec_realtime: &Vec<StationRealtimeFile>,
) -> (r: Vec<Station>)
    ensures
        r.len() == roster.len(),
        forall|i: int|
            0 <= i < roster.len() ==> (#[trigger] r[i])@ == enriched(
                roster[i]@,
                stdmet_history.deep_view(),
                cwind_history.deep_view(),
                stdmet_realtime.deep_view(),
                cwind_realtime.deep_view(),
                spec_realtime.deep_view(),
            ),
{
    let mut out: Vec<Station> = Vec::new();
    let mut i: usize = 0;
    while i < roster.len()
        invariant
            i <= roster.len(),
            out.len() == i,
            forall|j: int|
                0 <= j < i ==> (#[trigger] out[j])@ == enriched(
                    roster[j]@,
                    stdmet_history.deep_view(),
                    cwind_history.deep_view(),
                    stdmet_realtime.deep_view(),
                    cwind_realtime.deep_view(),
                    spec_realtime.deep_view(),
                ),
        decreases roster.len() - i,
    {
        out.push(
            enrich_station(
                &roster[i],
                stdmet_history,
                cwind_history,
                stdmet_realtime,
                cwind_realtime,
                spec_realtime,
            ),
        );
        i += 1;
    }
    out
}

/// The profile of one station: see [`profile`].
pub fn station_profile(
    roster: &Vec<Station>,
    id: &String,
    stdmet_history: &Vec<StationHistoricFile>,
    cwind_history: &Vec<StationHistoricFile>,
    stdmet_realtime: &Vec<StationRealtimeFile>,
    cwind_realtime: &Vec<StationRealtimeFile>,
    spec_realtime: &Vec<StationRealtimeFile>,
) -> (r: Vec<Station>)
    ensures
        r.deep_view() == profile(
            roster.deep_view(),
            id@,
            stdmet_history.deep_view(),
            cwind_history.deep_view(),
            stdmet_realtime.deep_view(),
            cwind_realtime.deep_view(),
            spec_realtime.deep_view(),
        ),
{
    let mut found: Vec<Station> = Vec::new();
    let mut i: usize = 0;
    let ghost rs = stdmet_realtime.deep_view();
    let ghost rc = cwind_realtime.deep_view();
    let ghost rp = spec_realtime.deep_view();
    proof {
        reveal_with_fuel(Seq::filter, 2);
        assert(roster.deep_view().take(0) =~= Seq::<StationView>::empty());
        assert(found.deep_view() =~= Seq::<StationView>::empty());
        assert(matched(roster.deep_view().take(0), id@, rs, rc, rp) =~= Seq::<
            StationView,
        >::empty());
    }
    while i < roster.len()
        invariant
            i <= roster.len(),
            rs == stdmet_realtime.deep_view(),
            rc == cwind_realtime.deep_view(),
            rp == spec_realtime.deep_view(),
            found.deep_view() == matched(roster.deep_view().take(i as int), id@, rs, rc, rp),
        decreases roster.len() - i,
    {
        proof {
            let all = roster.deep_view();
            reveal_with_fuel(Seq::filter, 2);
            assert(all.take(i as int + 1).drop_last() =~= all.take(i as int));
            assert(all.take(i as int + 1).last() == roster[i as int]@);
            if roster[i as int]@.id == id@ {
                assert(matched(all.take(i as int + 1), id@, rs, rc, rp) =~= matched(
                    all.take(i as int),
                    id@,
                    rs,
                    rc,
                    rp,
                ).push(with_realtime(roster[i as int]@, rs, rc, rp)));
            }
        }
        if roster[i].id == *id {
            let ghost before = found.deep_view();
            let station = attach_realtime(
                &roster[i],
                stdmet_realtime,
                cwind_realtime,
                spec_realtime,
            );
            let ghost added = station@;
            found.push(station);
            proof {
                assert(found.deep_view() =~= before.push(added));
            }
        }
        i += 1;
    }
    proof {
        assert(roster.deep_view().take(i as int) =~= roster.deep_view());
    }
    if found.len() == 0 {
        return found;
    }
    let ghost before = found.deep_view();
    let mut first = found[0].clone();
    if stdmet_history.len() > 0 {
        first.stdmet_history = Some(copy_historic(stdmet_history));
    }
    if cwind_history.len() > 0 {
        first.cwind_history = Some(copy_historic(cwind_history));
    }
    let ghost changed = first@;
    found.set(0, first);
    proof {
        assert(found.deep_view() =~= before.update(0, changed));
    }
    found
}

} // verus!
