use tpvui::payload::{null_to_empty_string, rename_type_key, replace_all, strip_bom};
use tpvui::tpvbc::worker::{BcastStreamEventWorker, BcastStreamFocusWorker, BcastStreamNearestWorker};
use tpvui::tpvbc::{
    is_file_address_exec, normalize_payload, source_for, BcastState, BcastStatus, BcastStreamEntries, BcastStreamEvent,
    BcastStreamFocus, BcastStreamGroups, BcastStreamNearest, BcastStreamResultsIndv,
    BcastStreamResultsTeam, Event, FeedKind, Focus, Nearest, RETRY_INTERVAL_MS,
};
use tpvui::{BcastMethod, Facade};

#[test]
fn bom_is_stripped_only_when_present() {
    assert_eq!(strip_bom(b"\xEF\xBB\xBF[1]"), b"[1]".to_vec());
    assert_eq!(strip_bom(b"[1]"), b"[1]".to_vec());
    assert_eq!(strip_bom(b"\xEF\xBB"), b"\xEF\xBB".to_vec());
}

#[test]
fn replace_all_scans_left_to_right() {
    assert_eq!(replace_all(b"aaa", b"aa", b"b"), b"ba".to_vec());
    assert_eq!(replace_all(b"xyz", b"q", b"r"), b"xyz".to_vec());
    assert_eq!(replace_all(b"", b"q", b"r"), Vec::<u8>::new());
}

#[test]
fn payload_quirks_are_rewritten() {
    assert_eq!(
        rename_type_key(br#"[{"name": "x", "type": "race"}]"#),
        br#"[{"name": "x", "type_": "race"}]"#.to_vec()
    );
    assert_eq!(
        null_to_empty_string(br#"[{"leader": null, "size": 3}]"#),
        br#"[{"leader": "", "size": 3}]"#.to_vec()
    );
    let raw = b"\xEF\xBB\xBF[{\"team\": null, \"x\": 1}]";
    assert_eq!(
        normalize_payload(FeedKind::ResultsTeam, BcastMethod::File, raw),
        b"[{\"team\": \"\", \"x\": 1}]".to_vec()
    );
    assert_eq!(
        normalize_payload(FeedKind::Focus, BcastMethod::HttpClient, b"[{\"a\": null, \"type\":1}]"),
        b"[{\"a\": null, \"type\":1}]".to_vec()
    );
}

#[test]
fn sources_follow_the_address() {
    assert_eq!(source_for("file:///data", FeedKind::Focus), "/data/focus.json");
    assert_eq!(source_for("file:///data", FeedKind::ResultsIndv), "/data/resultsIndv.json");
    assert_eq!(source_for("http://host:8080", FeedKind::Groups), "http://host:8080/bcast/groups");
    assert_eq!(FeedKind::Focus.poll_interval_ms(), 250);
    assert_eq!(FeedKind::Nearest.poll_interval_ms(), 250);
    assert_eq!(FeedKind::Event.poll_interval_ms(), 1000);
}

#[test]
fn stream_constructors_hold_placeholders() {
    let s = BcastState::new();
    assert!(!s.started && s.stopped && s.status == BcastStatus::Unknown && s.frame == 0);
    assert_eq!(BcastStreamFocus::new().data().name, "--");
    assert_eq!(BcastStreamNearest::new().data().len(), 1);
    assert_eq!(BcastStreamEvent::new().data().type_, "--");
    assert_eq!(BcastStreamEntries::new().data()[0].bib_num, 0);
    assert_eq!(BcastStreamGroups::new().data()[0].leader, "--");
    assert_eq!(BcastStreamResultsIndv::new().state().frame, 0);
    assert_eq!(BcastStreamResultsTeam::new().data()[0].time_ms, 0);
}

#[test]
fn unreachable_source_scenario() {
    let mut w = BcastStreamFocusWorker::new();
    assert_eq!(w.url, "http://localhost:8080/bcast/focus");
    assert!(w.start(String::from("http://unreachable.invalid")));
    assert!(w.running());
    assert_eq!(w.stream.state().status, BcastStatus::Unknown);
    // a second start while running is refused
    assert!(!w.start(String::from("http://other")));
    assert_eq!(w.url, "http://unreachable.invalid/bcast/focus");
    for _ in 0..3 {
        assert_eq!(w.stream.take_fetch(None), RETRY_INTERVAL_MS);
        assert_eq!(w.stream.state().status, BcastStatus::Unhealthy);
        assert_eq!(w.stream.state().frame, 0);
    }
    w.stop();
    assert!(!w.running());
    w.stream.finish();
    assert_eq!(w.stream.state().status, BcastStatus::Unknown);
    assert!(!w.stream.state().started);
}

#[test]
fn successful_fetches_publish_and_count_frames() {
    let mut w = BcastStreamNearestWorker::new();
    assert!(w.start(String::from("file:///data")));
    assert_eq!(w.url, "/data/nearest.json");
    let mut n = Nearest::new();
    n.name = String::from("Rider");
    assert_eq!(w.stream.take_fetch(Some(vec![n.clone(), n])), 250);
    assert_eq!(w.stream.state().frame, 1);
    assert_eq!(w.stream.state().status, BcastStatus::Healthy);
    assert_eq!(w.stream.data().len(), 2);
    // an empty list keeps the records, a failure keeps them too
    w.stream.take_fetch(Some(vec![]));
    assert_eq!(w.stream.data().len(), 2);
    assert_eq!(w.stream.state().frame, 2);
    w.stream.take_fetch(None);
    assert_eq!(w.stream.data()[0].name, "Rider");
    assert_eq!(w.stream.state().frame, 2);

    let mut e = BcastStreamEventWorker::new();
    let mut ev = Event::new();
    ev.laps = 4;
    assert_eq!(e.stream.take_fetch(Some(vec![ev])), 1000);
    assert_eq!(e.stream.data().laps, 4);
    assert!(!e.running());
}

#[test]
fn focus_fetch_feeds_the_ride() {
    let mut s = BcastStreamFocus::new();
    let mut f = Focus::new();
    f.time = 12;
    f.power = 250;
    s.take_fetch(Some(vec![f]));
    assert_eq!(s.ride().total.time, 12);
    assert_eq!(s.ride().time_in_pwr_zones.zones[5], 12);
    s.take_fetch(Some(vec![]));
    assert_eq!(s.ride().total.time, 12);
    assert_eq!(s.data().time, 12);
}

#[test]
fn second_start_without_stop_is_ignored() {
    let mut fa = Facade::new();
    assert!(!fa.running());
    assert!(fa.start(String::from("file:///data")));
    assert!(fa.running());
    assert_eq!(fa.bcast_method, BcastMethod::File);
    assert!(!fa.start(String::from("http://host")));
    assert_eq!(fa.bcast_method, BcastMethod::File);
    assert_eq!(fa.focus.url, "/data/focus.json");
    assert_eq!(fa.results_team.url, "/data/resultsTeam.json");
}

#[test]
fn facade_switches_source_after_stop() {
    let mut fa = Facade::new();
    assert!(fa.start(String::from("file:///data")));
    let g1 = fa.generation;
    let mut f = Focus::new();
    f.time = 5;
    assert_eq!(fa.take_focus(g1, Some(vec![f])), Some(250));
    assert_eq!(fa.tpv_focus_state().frame, 1);
    assert_eq!(fa.ride().total.time, 5);
    fa.stop();
    assert!(!fa.running());
    assert!(fa.feed_active(FeedKind::Focus, g1) == false);
    assert!(fa.start(String::from("http://host")));
    let g2 = fa.generation;
    assert_ne!(g1, g2);
    assert_eq!(fa.bcast_method, BcastMethod::HttpClient);
    assert_eq!(fa.focus.url, "http://host/bcast/focus");
    // fresh workers: records and ride start over
    assert_eq!(fa.tpv_focus_state().frame, 0);
    assert_eq!(fa.ride().total.time, 0);
    // a loop of the earlier generation can no longer act
    assert_eq!(fa.take_focus(g1, None), None);
    fa.feed_finished(FeedKind::Focus, g1);
    assert!(fa.feed_active(FeedKind::Focus, g2));
    fa.feed_finished(FeedKind::Focus, g2);
    assert!(!fa.feed_active(FeedKind::Focus, g2));
    assert_eq!(fa.tpv_focus_state().status, BcastStatus::Unknown);
}

#[test]
fn same_source_kind_keeps_records() {
    let mut fa = Facade::new();
    assert!(fa.start(String::from("http://a")));
    let g = fa.generation;
    let mut n = Nearest::new();
    n.position = 3;
    fa.take_nearest(g, Some(vec![n]));
    fa.stop();
    assert!(fa.start(String::from("http://b")));
    assert_eq!(fa.tpv_nearest_data()[0].position, 3);
    assert_eq!(fa.nearest.url, "http://b/bcast/nearest");
    assert_eq!(fa.tpv_event_data().name, "--");
    assert_eq!(fa.tpv_groups_data().len(), 1);
    assert_eq!(fa.tpv_entries_data().len(), 1);
    assert_eq!(fa.tpv_results_indv_data().len(), 1);
    assert_eq!(fa.tpv_results_team_data().len(), 1);
    assert_eq!(fa.tpv_nearest_state().frame, 1);
    assert_eq!(fa.tpv_event_state().frame, 0);
    assert_eq!(fa.tpv_entries_state().frame, 0);
    assert_eq!(fa.tpv_groups_state().frame, 0);
    assert_eq!(fa.tpv_results_indv_state().frame, 0);
    assert_eq!(fa.tpv_results_team_state().frame, 0);
    assert_eq!(fa.tpv_focus_data().name, "--");
}

#[test]
fn file_scheme_detection() {
    assert!(is_file_address_exec("file:///data"));
    assert!(is_file_address_exec("file://"));
    assert!(!is_file_address_exec("file:/"));
    assert!(!is_file_address_exec("http://file://"));
    assert!(!is_file_address_exec(""));
}

#[test]
fn lifecycle_flags_and_frames() {
    let mut s = BcastState::new();
    s.set_started(true);
    assert!(s.started && !s.stopped);
    s.update_state(BcastStatus::Healthy);
    s.update_state(BcastStatus::Healthy);
    assert_eq!(s.frame, 2);
    s.update_state(BcastStatus::Unhealthy);
    assert_eq!(s.frame, 2);
    s.frame = u64::MAX;
    s.update_state(BcastStatus::Healthy);
    assert_eq!(s.frame, 0);
    s.set_started(false);
    assert!(!s.started && s.stopped);
}
