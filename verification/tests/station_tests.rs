use ndbc::data_type::StationDataType;
use ndbc::schema::{
    copy_historic, copy_realtime, copy_text, Station, StationHistoricFile, StationMetadata,
    StationMetadataHistory, StationRealtimeFile,
};
use ndbc::station::{
    attach_realtime, enrich_station, enrich_stations, historic_files_of, realtime_files_of,
    station_profile,
};
use ndbc::timestamp::Timestamp;

fn station(id: &str) -> Station {
    Station {
        id: id.to_string(),
        lat: Some("34.7".to_string()),
        lon: Some("-72.2".to_string()),
        elev: None,
        name: Some(format!("Station {id}")),
        owner: None,
        pgm: None,
        station_type: Some("buoy".to_string()),
        met: Some(true),
        currents: Some(false),
        waterquality: None,
        dart: None,
        stdmet_history: None,
        cwind_history: None,
        stdmet_realtime: None,
        cwind_realtime: None,
        spec_realtime: None,
    }
}

fn historic(station: &str, data_type: StationDataType, year: &str) -> StationHistoricFile {
    StationHistoricFile {
        filename: format!("{}h{}.txt.gz", station.to_lowercase(), year),
        station: station.to_string(),
        data_type,
        year: year.to_string(),
    }
}

fn realtime(station: &str, data_type: StationDataType, minute: u32) -> StationRealtimeFile {
    StationRealtimeFile {
        filename: format!("{}.{}", station, data_type.as_str()),
        station: station.to_string(),
        data_type,
        timestamp: Timestamp { year: 2024, month: 3, day: 1, hour: 12, minute, second: 0 },
    }
}

const STDMET: StationDataType = StationDataType::StandardMeteorological;
const CWIND: StationDataType = StationDataType::ContinuousWinds;
const SPEC: StationDataType = StationDataType::SpectralWaveSummary;

#[test]
fn files_of_a_station_keep_their_order() {
    let files = vec![
        historic("41001", STDMET, "2019"),
        historic("41002", STDMET, "2019"),
        historic("41001", STDMET, "2018"),
        historic("41001", STDMET, "Mar"),
    ];
    let found = historic_files_of(&files, &"41001".to_string());
    assert_eq!(found, vec![files[0].clone(), files[2].clone(), files[3].clone()]);
    assert_eq!(historic_files_of(&files, &"41003".to_string()), vec![]);
    assert_eq!(historic_files_of(&files, &"4100".to_string()), vec![]);
    let feeds = vec![realtime("41001", STDMET, 1), realtime("41002", STDMET, 2)];
    assert_eq!(realtime_files_of(&feeds, &"41002".to_string()), vec![feeds[1].clone()]);
    assert_eq!(realtime_files_of(&vec![], &"41002".to_string()), vec![]);
}

#[test]
fn roster_is_enriched_slot_by_slot() {
    let roster = vec![station("41001"), station("41002"), station("41003")];
    let stdmet_history = vec![
        historic("41001", STDMET, "2018"),
        historic("41002", STDMET, "2019"),
        historic("41001", STDMET, "2019"),
    ];
    let cwind_history = vec![historic("41002", CWIND, "2007")];
    let stdmet_realtime = vec![realtime("41001", STDMET, 1)];
    let cwind_realtime = vec![realtime("41001", CWIND, 2), realtime("41009", CWIND, 3)];
    let spec_realtime = vec![realtime("41002", SPEC, 4)];
    let found = enrich_stations(
        &roster,
        &stdmet_history,
        &cwind_history,
        &stdmet_realtime,
        &cwind_realtime,
        &spec_realtime,
    );
    assert_eq!(found.len(), 3);
    let mut first = station("41001");
    first.stdmet_history = Some(vec![stdmet_history[0].clone(), stdmet_history[2].clone()]);
    first.stdmet_realtime = Some(vec![stdmet_realtime[0].clone()]);
    first.cwind_realtime = Some(vec![cwind_realtime[0].clone()]);
    assert_eq!(found[0], first);
    let mut second = station("41002");
    second.stdmet_history = Some(vec![stdmet_history[1].clone()]);
    second.cwind_history = Some(vec![cwind_history[0].clone()]);
    second.spec_realtime = Some(vec![spec_realtime[0].clone()]);
    assert_eq!(found[1], second);
    assert_eq!(found[2], station("41003"));
    assert_eq!(
        enrich_station(
            &roster[1],
            &stdmet_history,
            &cwind_history,
            &stdmet_realtime,
            &cwind_realtime,
            &spec_realtime
        ),
        second
    );
}

#[test]
fn station_without_files_keeps_its_slots() {
    let mut s = station("41001");
    s.cwind_history = Some(vec![historic("41001", CWIND, "1999")]);
    s.spec_realtime = Some(vec![]);
    let found = enrich_stations(&vec![s.clone()], &vec![], &vec![], &vec![], &vec![], &vec![]);
    assert_eq!(found, vec![s.clone()]);
    assert_eq!(enrich_stations(&vec![], &vec![], &vec![], &vec![], &vec![], &vec![]), vec![]);
    let newer = vec![historic("41001", CWIND, "2020")];
    let found = enrich_stations(&vec![s.clone()], &vec![], &newer, &vec![], &vec![], &vec![]);
    assert_eq!(found[0].cwind_history, Some(newer));
    assert_eq!(found[0].stdmet_history, None);
    assert_eq!(found[0].spec_realtime, Some(vec![]));
}

#[test]
fn station_codes_are_compared_as_they_stand() {
    let roster = vec![station("SBIO1")];
    let files = vec![historic("sbio1", STDMET, "2019")];
    let found = enrich_stations(&roster, &files, &vec![], &vec![], &vec![], &vec![]);
    assert_eq!(found[0].stdmet_history, None);
}

#[test]
fn realtime_files_are_attached_alone() {
    let s = station("41001");
    let feeds = vec![realtime("41001", SPEC, 4)];
    let found = attach_realtime(&s, &vec![], &vec![], &feeds);
    let mut expected = station("41001");
    expected.spec_realtime = Some(feeds);
    assert_eq!(found, expected);
}

#[test]
fn profile_of_a_station() {
    let roster = vec![station("41001"), station("41002"), station("41001")];
    let stdmet_history = vec![historic("41002h2019", STDMET, "2019"), historic("x", STDMET, "Mar")];
    let cwind_history = vec![];
    let stdmet_realtime = vec![realtime("41002", STDMET, 1), realtime("41001", STDMET, 2)];
    let cwind_realtime = vec![realtime("41002", CWIND, 3)];
    let spec_realtime = vec![];
    let found = station_profile(
        &roster,
        &"41002".to_string(),
        &stdmet_history,
        &cwind_history,
        &stdmet_realtime,
        &cwind_realtime,
        &spec_realtime,
    );
    let mut expected = station("41002");
    expected.stdmet_history = Some(stdmet_history.clone());
    expected.stdmet_realtime = Some(vec![stdmet_realtime[0].clone()]);
    expected.cwind_realtime = Some(vec![cwind_realtime[0].clone()]);
    assert_eq!(found, vec![expected]);
    let found = station_profile(
        &roster,
        &"41001".to_string(),
        &stdmet_history,
        &stdmet_history,
        &stdmet_realtime,
        &cwind_realtime,
        &spec_realtime,
    );
    assert_eq!(found.len(), 2);
    assert_eq!(found[0].stdmet_history, Some(stdmet_history.clone()));
    assert_eq!(found[0].cwind_history, Some(stdmet_history.clone()));
    assert_eq!(found[0].stdmet_realtime, Some(vec![stdmet_realtime[1].clone()]));
    assert_eq!(found[1].stdmet_history, None);
    assert_eq!(found[1].cwind_history, None);
    assert_eq!(found[1].stdmet_realtime, Some(vec![stdmet_realtime[1].clone()]));
}

#[test]
fn profile_of_a_station_that_the_roster_lacks_is_empty() {
    let roster = vec![station("41001")];
    let files = vec![historic("41009", STDMET, "2019")];
    let id = "41009".to_string();
    assert_eq!(
        station_profile(&roster, &id, &files, &vec![], &vec![], &vec![], &vec![]),
        vec![]
    );
    assert_eq!(
        station_profile(&roster, &id, &vec![], &files, &vec![], &vec![], &vec![]),
        vec![]
    );
    let feeds = vec![realtime("41009", STDMET, 1)];
    assert_eq!(station_profile(&roster, &id, &files, &files, &feeds, &feeds, &feeds), vec![]);
    assert_eq!(station_profile(&vec![], &id, &files, &files, &feeds, &feeds, &feeds), vec![]);
}

#[test]
fn profile_without_files_is_the_station_as_it_is() {
    let roster = vec![station("41001"), station("41002")];
    let id = "41002".to_string();
    assert_eq!(
        station_profile(&roster, &id, &vec![], &vec![], &vec![], &vec![], &vec![]),
        vec![station("41002")]
    );
}

#[test]
fn copies_are_equal() {
    let mut s = station("41001");
    s.stdmet_history = Some(vec![historic("41001", STDMET, "2019")]);
    s.cwind_realtime = Some(vec![realtime("41001", CWIND, 2)]);
    assert_eq!(s.clone(), s);
    let files = vec![historic("41001", STDMET, "2019"), historic("41002", STDMET, "2018")];
    assert_eq!(copy_historic(&files), files);
    let feeds = vec![realtime("41001", CWIND, 2)];
    assert_eq!(copy_realtime(&feeds), feeds);
    assert_eq!(copy_text(&Some("a".to_string())), Some("a".to_string()));
    assert_eq!(copy_text(&None), None);
}

#[test]
fn metadata_is_copied_whole() {
    let deployment = StationMetadataHistory {
        start: Some("2001-01-01".to_string()),
        stop: None,
        lat: Some("34.7".to_string()),
        lng: Some("-72.2".to_string()),
        elev: None,
        met: Some("y".to_string()),
        hull: Some("3D".to_string()),
        anemom_height: Some("4.1".to_string()),
    };
    assert_eq!(deployment.clone(), deployment);
    let metadata = StationMetadata {
        id: "41001".to_string(),
        name: Some("East Hatteras".to_string()),
        owner: None,
        pgm: Some("NDBC".to_string()),
        station_type: Some("buoy".to_string()),
        history: vec![deployment.clone(), deployment],
    };
    assert_eq!(metadata.clone(), metadata);
}
