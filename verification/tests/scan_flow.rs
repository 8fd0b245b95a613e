use continuum::cli::model::{ActiveStateInfo, DiskInfo, RootInfo};
use continuum::cli::probe::{probe_summary, ProbeOutput};
use continuum::cli::scan_flow::{scan_step, ScanAction, ScanEvent, ScanFailure, ScanState};
use continuum::cli::scanner::{EventFolder, ScanEventsResult};

fn s(x: &str) -> String {
    x.to_string()
}

fn active(d: Option<&str>, r: Option<&str>) -> ScanEvent {
    ScanEvent::State(Ok(ActiveStateInfo { disk_id: d.map(s), root_id: r.map(s) }))
}

fn usb() -> DiskInfo {
    DiskInfo { disk_id: s("d1"), label: s("USB"), mount_path: s("/mnt/usb"), disk_type: s("removable"), is_available: true }
}

fn folder(name: &str) -> EventFolder {
    EventFolder { folder_name: s(name), event_date: None, description: None, full_path: format!("/mnt/usb/Video/{}", name) }
}

#[test]
fn scan_walks_through_its_steps() {
    let (st, a) = scan_step(ScanState::AwaitState, active(Some("d1"), Some("r2")), false);
    assert!(matches!(a, ScanAction::SearchDisks(ref q) if q == "d1"));
    let (st, a) = scan_step(st, ScanEvent::Disks(Ok(vec![usb()])), false);
    assert!(matches!(a, ScanAction::ListRoots(ref q) if q == "d1"));
    let roots = vec![
        RootInfo { id: s("r1"), disk_id: s("d1"), relative_path: s("Photo") },
        RootInfo { id: s("r2"), disk_id: s("d1"), relative_path: s("Video") },
    ];
    let (st, a) = scan_step(st, ScanEvent::Roots(Ok(roots)), false);
    assert!(matches!(a, ScanAction::FindEvents(ref p) if p == "/mnt/usb/Video"));
    let found = ScanEventsResult { total: 3, new: 2, events: vec![folder("20240101 Party"), folder("20240202")] };
    let (st, a) = scan_step(st, ScanEvent::Events(Ok(found)), false);
    assert!(matches!(a, ScanAction::Found(3)));
    let (st, a) = scan_step(st, ScanEvent::Proceed, false);
    assert!(matches!(a, ScanAction::Ask(ref f) if f == "20240101 Party"));
    let (st, a) = scan_step(st, ScanEvent::Answer(true), false);
    assert!(matches!(a, ScanAction::CreateEvent { ref root_id, ref folder_name, .. } if root_id == "r2" && folder_name == "20240101 Party"));
    let (st, a) = scan_step(st, ScanEvent::Created(Ok(s(r#"{"id":"e1","is_new":true}"#))), false);
    match a {
        ScanAction::Stored { folder_name, is_new, cameras } => {
            assert_eq!(folder_name, "20240101 Party");
            assert!(is_new);
            assert_eq!(cameras, Some((s("/mnt/usb/Video/20240101 Party"), s("e1"))));
        }
        _ => panic!("expected a stored event"),
    }
    let (st, a) = scan_step(st, ScanEvent::Proceed, false);
    assert!(matches!(a, ScanAction::Ask(ref f) if f == "20240202"));
    let (st, a) = scan_step(st, ScanEvent::Answer(false), false);
    assert!(matches!(a, ScanAction::Skipped));
    let (st, a) = scan_step(st, ScanEvent::Proceed, false);
    assert!(matches!(a, ScanAction::Finish));
    assert!(matches!(st, ScanState::Done));
}

#[test]
fn scan_stops_where_the_command_stops() {
    let (_, a) = scan_step(ScanState::AwaitState, ScanEvent::State(Err(s("down"))), false);
    assert!(matches!(a, ScanAction::Fail(ScanFailure::Request(ref e)) if e == "down"));
    let (_, a) = scan_step(ScanState::AwaitState, active(Some("d1"), None), false);
    assert!(matches!(a, ScanAction::Fail(ScanFailure::NoActive)));
    let (st, _) = scan_step(ScanState::AwaitState, active(Some("d"), Some("r")), false);
    let (_, a) = scan_step(st, ScanEvent::Disks(Ok(vec![usb(), usb()])), false);
    assert!(matches!(a, ScanAction::Fail(ScanFailure::DiskNotFound)));
    let (st, _) = scan_step(ScanState::AwaitState, active(Some("d"), Some("r")), false);
    let (st, _) = scan_step(st, ScanEvent::Disks(Ok(vec![usb()])), false);
    let (_, a) = scan_step(st, ScanEvent::Roots(Ok(vec![])), false);
    assert!(matches!(a, ScanAction::Fail(ScanFailure::RootNotFound)));
    let (_, a) = scan_step(ScanState::Done, ScanEvent::Proceed, false);
    assert!(matches!(a, ScanAction::Finish));
}

#[test]
fn failed_store_goes_on_with_the_next_folder() {
    let st = ScanState::AwaitCreate { root_id: s("r"), events: vec![folder("a"), folder("b")], next: 0 };
    let (st, a) = scan_step(st, ScanEvent::Created(Err(s("500"))), false);
    assert!(matches!(a, ScanAction::CreateFailed { ref folder_name, ref error } if folder_name == "a" && error == "500"));
    let (_, a) = scan_step(st, ScanEvent::Proceed, false);
    assert!(matches!(a, ScanAction::Ask(ref f) if f == "b"));
    let st = ScanState::AwaitCreate { root_id: s("r"), events: vec![folder("a")], next: 0 };
    let (_, a) = scan_step(st, ScanEvent::Created(Ok(s("no json"))), false);
    assert!(matches!(a, ScanAction::Stored { is_new: false, cameras: None, .. }));
}

#[test]
fn bit_rates_read_like_str_parse() {
    for text in ["8000", "+8000", "-5", "9223372036854775807", "9223372036854775808", "-9223372036854775808",
        "-9223372036854775809", "+", "-", "", "12a", " 1", "007", "99999999999999999999999"] {
        let p = ProbeOutput { streams: None, duration: None, bit_rate: Some(s(text)) };
        assert_eq!(probe_summary(&p).bitrate, text.parse::<i64>().ok(), "{:?}", text);
    }
}
