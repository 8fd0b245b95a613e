use continuum::server::marker::{marker_disk_id, marker_text};
use continuum::server::records::like_pattern;
use continuum::server::api::{
    add_disk_on_insert, add_disk_on_lookup, add_disk_on_marker, add_disk_plan, add_root_on_disk_lookup,
    add_root_on_duplicate, add_root_on_insert, AddDiskNext, AddDiskPlan, AddDiskReply, AddRootNext,
    AddRootReply,
};
use continuum::server::disks::{has_marker, mount_search_roots, plan_disk_sync, scan_physical_disks, DiskUpdate};
use continuum::server::migrations::{migration_plan, registered_versions, Migration, V0001CreateTables, V0002Cameras};
use continuum::server::model::{AddDiskRequest, Camera, CameraInstance, Disk};
use continuum::server::paths::{join_path, marker_file_name, marker_path, normalize_path};
use continuum::server::records::{event_after_insert, resolve_camera, resolve_camera_instance, EventInsertNext, Resolution};
use continuum::server::scanner::ScanEventsResult;
use continuum::server::state::ActiveState;

fn s(x: &str) -> String {
    x.to_string()
}

fn disk(id: &str, path: &str, kind: &str) -> Disk {
    Disk { disk_id: s(id), label: s("L"), mount_path: s(path), disk_type: s(kind), is_available: false }
}

fn is_uuid_v4(id: &str) -> bool {
    let c: Vec<char> = id.chars().collect();
    c.len() == 36
        && (0..36).all(|i| {
            if i == 8 || i == 13 || i == 18 || i == 23 {
                c[i] == '-'
            } else {
                c[i].is_ascii_digit() || ('a'..='f').contains(&c[i])
            }
        })
        && c[14] == '4'
        && "89ab".contains(c[19])
}

#[test]
fn normalize_strips_trailing_separators() {
    assert_eq!(normalize_path("/mnt/disk/", false), "/mnt/disk");
    assert_eq!(normalize_path("/mnt/disk//\\", false), "/mnt/disk");
    assert_eq!(normalize_path("D:\\", false), "D:");
    assert_eq!(normalize_path("/mnt/disk", false), "/mnt/disk");
    assert_eq!(normalize_path("///", false), "");
    assert_eq!(normalize_path("", false), "");
}

#[test]
fn normalize_on_windows_completes_a_bare_drive_letter() {
    assert_eq!(normalize_path("e:/", true), "E:\\");
    assert_eq!(normalize_path("e:", true), "E:\\");
    assert_eq!(normalize_path("D:\\", true), "D:\\");
    assert_eq!(normalize_path("1:", true), "1:\\");
    assert_eq!(normalize_path("ж:", true), "ж:");
    assert_eq!(normalize_path("E:\\Video\\", true), "E:\\Video");
    assert_eq!(normalize_path("/mnt/disk/", true), "/mnt/disk");
    assert_eq!(normalize_path("e:/", false), "e:");
}

#[test]
fn normalize_is_idempotent() {
    for p in ["/a/b/", "x\\\\", "/", "plain", "a/b\\c/", "e:/", "c:", "Z:\\\\"] {
        for w in [false, true] {
            let once = normalize_path(p, w);
            assert_eq!(normalize_path(&once, w), once);
        }
    }
}

#[test]
fn join_follows_unix_path_join() {
    assert_eq!(join_path("/mnt", "usb", false), "/mnt/usb");
    assert_eq!(join_path("/mnt/", "usb", false), "/mnt/usb");
    assert_eq!(join_path("", "usb", false), "usb");
    assert_eq!(join_path("/mnt", "/abs", false), "/abs");
    for (b, p) in [("/mnt", "usb"), ("/mnt/", "usb"), ("", "x"), ("/a", "/b"), ("rel", "c/d")] {
        let expect = std::path::Path::new(b).join(p).to_string_lossy().to_string();
        assert_eq!(join_path(b, p, false), expect);
    }
}

#[test]
fn marker_lies_in_the_disk_root() {
    assert_eq!(marker_file_name(), ".continuum-disk");
    assert_eq!(marker_path("/mnt/usb", false), "/mnt/usb/.continuum-disk");
    assert_eq!(marker_path("/mnt/usb/", false), "/mnt/usb/.continuum-disk");
    assert_eq!(marker_path("", false), ".continuum-disk");
}

#[test]
fn marker_is_found_among_root_entries() {
    assert!(has_marker(&vec![s("DCIM"), s(".continuum-disk")]));
    assert!(!has_marker(&vec![s("DCIM"), s(".continuum-disk.bak")]));
    assert!(!has_marker(&vec![]));
}

#[test]
fn linux_mount_roots() {
    assert_eq!(mount_search_roots(), vec![s("/mnt"), s("/media")]);
}

#[test]
fn physical_disks_are_those_with_a_marker() {
    let found = scan_physical_disks(&vec![
        (s("/mnt/a"), Some(s("id-a"))),
        (s("/mnt/b"), None),
        (s("/media/c"), Some(s("id-c"))),
    ]);
    assert_eq!(found, vec![(s("id-a"), s("/mnt/a")), (s("id-c"), s("/media/c"))]);
    assert!(scan_physical_disks(&vec![]).is_empty());
}

fn view(u: &Option<DiskUpdate>) -> Option<(String, bool, Option<String>)> {
    u.as_ref().map(|u| (u.disk_id.clone(), u.available, u.new_path.clone()))
}

#[test]
fn sync_marks_removable_disks_by_their_markers() {
    let found = vec![(s("r1"), s("/media/new")), (s("r1"), s("/media/second"))];
    let disks = vec![disk("r1", "/old", "removable"), disk("r2", "/gone", "removable")];
    let plan = plan_disk_sync(&found, &disks, &vec![false, true]);
    assert_eq!(view(&plan[0]), Some((s("r1"), true, Some(s("/media/new")))));
    assert_eq!(view(&plan[1]), Some((s("r2"), false, None)));
}

#[test]
fn sync_marks_fixed_disks_by_their_paths() {
    let disks = vec![disk("f1", "/data", "fixed"), disk("f2", "/nope", "fixed"), disk("o", "/x", "network")];
    let plan = plan_disk_sync(&vec![(s("f2"), s("/media/f2"))], &disks, &vec![true, false, true]);
    assert_eq!(view(&plan[0]), Some((s("f1"), true, None)));
    assert_eq!(view(&plan[1]), Some((s("f2"), false, None)));
    assert_eq!(view(&plan[2]), None);
}

#[test]
fn active_state_choices() {
    let mut st = ActiveState::new();
    assert_eq!((st.disk_id.clone(), st.root_id.clone()), (None, None));
    st.set_root(s("d1"), s("r1"));
    assert_eq!((st.disk_id.clone(), st.root_id.clone()), (Some(s("d1")), Some(s("r1"))));
    st.set_disk(s("d2"));
    assert_eq!((st.disk_id.clone(), st.root_id.clone()), (Some(s("d2")), None));
}

#[test]
fn disk_plan_defaults_to_fixed_and_normalizes() {
    let p = add_disk_plan(&AddDiskRequest { label: s("Archive"), mount_path: s("/data/archive/"), disk_type: None }, false);
    assert_eq!((p.label.as_str(), p.mount_path.as_str(), p.disk_type.as_str()), ("Archive", "/data/archive", "fixed"));
    let q = add_disk_plan(&AddDiskRequest { label: s("USB"), mount_path: s("/mnt/usb"), disk_type: Some(s("removable")) }, false);
    assert_eq!(q.disk_type, "removable");
    let w = add_disk_plan(&AddDiskRequest { label: s("USB"), mount_path: s("f:/"), disk_type: None }, true);
    assert_eq!(w.mount_path, "F:\\");
}

fn plan(kind: &str) -> AddDiskPlan {
    AddDiskPlan { label: s("L"), mount_path: s("/mnt/x"), disk_type: s(kind) }
}

#[test]
fn registered_path_is_a_conflict() {
    assert!(matches!(add_disk_on_lookup(Ok(true)), AddDiskNext::Reply(AddDiskReply::Conflict)));
    assert!(matches!(add_disk_on_lookup(Ok(false)), AddDiskNext::Insert));
    assert!(matches!(add_disk_on_lookup(Err(s("db"))), AddDiskNext::Insert));
    assert_eq!(AddDiskReply::Conflict.status(), 409);
}

#[test]
fn removable_disk_gets_a_marker_before_it_is_created() {
    match add_disk_on_insert(&plan("removable"), Ok(s("id1"))) {
        AddDiskNext::WriteMarker { mount_path, disk_id } => {
            assert_eq!((mount_path.as_str(), disk_id.as_str()), ("/mnt/x", "id1"))
        }
        _ => panic!("expected a marker write"),
    }
    match add_disk_on_marker(s("id1"), Ok(())) {
        AddDiskReply::Created { disk_id } => assert_eq!(disk_id, "id1"),
        _ => panic!("expected created"),
    }
    let failed = add_disk_on_marker(s("id1"), Err(s("read-only")));
    assert_eq!(failed.status(), 500);
    assert!(matches!(failed, AddDiskReply::MarkerFailed { error } if error == "read-only"));
}

#[test]
fn fixed_disk_is_created_at_once() {
    let n = add_disk_on_insert(&plan("fixed"), Ok(s("id2")));
    match n {
        AddDiskNext::Reply(r) => {
            assert_eq!(r.status(), 201);
            assert!(matches!(r, AddDiskReply::Created { disk_id } if disk_id == "id2"));
        }
        _ => panic!("expected a reply"),
    }
    match add_disk_on_insert(&plan("fixed"), Err(s("UNIQUE"))) {
        AddDiskNext::Reply(r) => {
            assert_eq!(r.status(), 500);
            assert!(matches!(r, AddDiskReply::Failed { error } if error == "UNIQUE"));
        }
        _ => panic!("expected a reply"),
    }
}

#[test]
fn add_root_answers() {
    assert!(matches!(add_root_on_disk_lookup(Ok(true)), AddRootNext::CheckDuplicate));
    assert!(matches!(add_root_on_disk_lookup(Ok(false)), AddRootNext::Reply(AddRootReply::NotFound)));
    assert!(matches!(add_root_on_disk_lookup(Err(s("e"))), AddRootNext::Reply(AddRootReply::Failed { .. })));
    assert!(matches!(add_root_on_duplicate(Ok(true)), AddRootNext::Reply(AddRootReply::Conflict)));
    assert!(matches!(add_root_on_duplicate(Err(s("e"))), AddRootNext::Insert));
    assert_eq!(add_root_on_insert(Ok(s("r"))).status(), 201);
    assert_eq!(add_root_on_insert(Err(s("e"))).status(), 500);
    assert_eq!(AddRootReply::NotFound.status(), 404);
    assert_eq!(AddRootReply::Conflict.status(), 409);
}

#[test]
fn fresh_ids_are_random_v4_uuids() {
    let a = resolve_camera(None).outcome().0;
    let b = resolve_camera_instance(None).outcome().0;
    assert!(is_uuid_v4(&a) && is_uuid_v4(&b));
    assert_ne!(a, b);
}

#[test]
fn cameras_are_reused_or_created() {
    let found = Camera { id: s("cam1"), name: s("GoPro"), folder_name: s("GOPRO") };
    assert_eq!(resolve_camera(Some(found)).outcome(), (s("cam1"), false));
    match resolve_camera(None) {
        Resolution::Create { id } => assert!(is_uuid_v4(&id)),
        _ => panic!("expected create"),
    }
    let inst = CameraInstance { id: s("ci"), camera_id: s("c"), event_id: s("e"), folder_name: s("f") };
    assert_eq!(resolve_camera_instance(Some(inst)).outcome(), (s("ci"), false));
    let (id, created) = resolve_camera_instance(None).outcome();
    assert!(created && is_uuid_v4(&id));
}

#[test]
fn ignored_event_insert_looks_up_the_existing_event() {
    assert!(matches!(event_after_insert(&s("new"), 0), EventInsertNext::LookupExisting));
    assert!(matches!(event_after_insert(&s("new"), 1), EventInsertNext::Stored { id } if id == "new"));
}

#[test]
fn migrations_run_once() {
    assert_eq!(registered_versions(), vec![1]);
    assert_eq!(V0001CreateTables.version(), 1);
    assert_eq!(V0002Cameras.version(), 2);
    assert_eq!(migration_plan(0, &vec![1]), (vec![0], 1));
    assert_eq!(migration_plan(1, &vec![1]), (vec![], 1));
    assert_eq!(migration_plan(1, &vec![1, 2, 3]), (vec![1, 2], 3));
    assert_eq!(migration_plan(0, &vec![]), (vec![], 0));
    let (_, top) = migration_plan(0, &vec![2, 1, 3]);
    assert_eq!(migration_plan(top, &vec![2, 1, 3]).0, Vec::<usize>::new());
}

#[test]
fn scan_counts_every_folder_but_lists_only_stored_events() {
    let mut r = ScanEventsResult::new();
    r.record(s("20240101 Party"), Ok(s("e1")));
    r.record(s("Misc"), Err(s("db locked")));
    r.record(s("20240202"), Ok(String::new()));
    assert_eq!((r.total, r.new, r.events.len()), (3, 1, 2));
    assert_eq!(r.events[0].event_date.as_deref(), Some("2024-01-01"));
    assert_eq!(r.events[0].description.as_deref(), Some("Party"));
    assert!(r.events[0].is_new);
    assert_eq!(r.events[1].folder_name, "20240202");
    assert_eq!(r.events[1].description, None);
    assert!(!r.events[1].is_new);
}

#[test]
fn search_pattern_surrounds_the_query() {
    assert_eq!(like_pattern("GoPro"), "%GoPro%");
    assert_eq!(like_pattern(""), "%%");
}

#[test]
fn marker_gives_its_disk_id() {
    assert_eq!(marker_disk_id(r#"{"disk_id":"d-1","label":"USB"}"#), Some(s("d-1")));
    assert_eq!(marker_disk_id(r#"{"label":"USB"}"#), None);
    assert_eq!(marker_disk_id(r#"["disk_id"]"#), None);
    assert_eq!(marker_disk_id(r#"{"disk_id":5}"#), None);
    assert_eq!(marker_disk_id(""), None);
}

#[test]
fn marker_text_is_pretty_json_read_back_whole() {
    assert_eq!(marker_text("d-1"), "{\n  \"disk_id\": \"d-1\"\n}");
    for id in ["d-1", "", "qu\"ote\\back", "line\nbreak\u{1}", "диск"] {
        assert_eq!(marker_disk_id(&marker_text(id)), Some(s(id)));
    }
}

#[test]
fn join_on_windows() {
    assert_eq!(join_path("E:\\", "Video", true), "E:\\Video");
    assert_eq!(join_path("E:\\Video", "2024", true), "E:\\Video\\2024");
    assert_eq!(join_path("E:/Video/", "2024", true), "E:/Video/2024");
    assert_eq!(join_path("E:", "Video", true), "E:Video");
    assert_eq!(join_path("E:\\Video", "\\Other", true), "E:\\Other");
    assert_eq!(join_path("E:\\Video", "F:\\x", true), "F:\\x");
    assert_eq!(join_path("/mnt", "\\x", true), "\\x");
    assert_eq!(marker_path("E:\\", true), "E:\\.continuum-disk");
    assert_eq!(marker_path("E:\\Video", true), "E:\\Video\\.continuum-disk");
    assert_eq!(marker_path("E:\\Video", false), "E:\\Video/.continuum-disk");
}
