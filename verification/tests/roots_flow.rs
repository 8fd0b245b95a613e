use continuum::cli::model::{ActiveStateInfo, DiskInfo, RootInfo};
use continuum::cli::roots_flow::{roots_ls_start, roots_on_disks, roots_use_on_roots, roots_use_on_state, RootsFailure, RootsNext};

fn s(x: &str) -> String {
    x.to_string()
}

fn disk(id: &str) -> DiskInfo {
    DiskInfo { disk_id: s(id), label: s("L"), mount_path: s("/m"), disk_type: s("fixed"), is_available: true }
}

fn root(id: &str, path: &str) -> RootInfo {
    RootInfo { id: s(id), disk_id: s("d"), relative_path: s(path) }
}

#[test]
fn disk_search_decides_the_next_step() {
    assert!(matches!(roots_on_disks(&Ok(vec![disk("d1")]), true), RootsNext::AddRoot(ref id) if id == "d1"));
    assert!(matches!(roots_on_disks(&Ok(vec![disk("d1")]), false), RootsNext::ListRoots(ref id) if id == "d1"));
    assert!(matches!(roots_on_disks(&Ok(vec![]), true), RootsNext::Fail(RootsFailure::DiskNotFound)));
    assert!(matches!(roots_on_disks(&Ok(vec![disk("a"), disk("b")]), false), RootsNext::ManyDisks));
    assert!(matches!(roots_on_disks(&Err(s("down")), false), RootsNext::Fail(RootsFailure::Request(ref e)) if e == "down"));
}

#[test]
fn roots_ls_starts_from_the_typed_or_active_disk() {
    let active = Some(ActiveStateInfo { disk_id: Some(s("d7")), root_id: None });
    assert!(matches!(roots_ls_start(Some(s("usb")), &active), RootsNext::SearchDisks(ref c) if c == "usb"));
    assert!(matches!(roots_ls_start(None, &active), RootsNext::ListRoots(ref id) if id == "d7"));
    assert!(matches!(roots_ls_start(None, &None), RootsNext::Fail(RootsFailure::NoDisk)));
    let none = Some(ActiveStateInfo { disk_id: None, root_id: None });
    assert!(matches!(roots_ls_start(None, &none), RootsNext::Fail(RootsFailure::NoDisk)));
}

#[test]
fn roots_use_picks_one_matching_root() {
    assert!(matches!(roots_use_on_state(Err(s("x"))), RootsNext::Fail(RootsFailure::Request(_))));
    assert!(matches!(roots_use_on_state(Ok(ActiveStateInfo { disk_id: None, root_id: None })),
        RootsNext::Fail(RootsFailure::NoActiveDisk)));
    assert!(matches!(roots_use_on_state(Ok(ActiveStateInfo { disk_id: Some(s("d")), root_id: None })),
        RootsNext::ListRoots(ref d) if d == "d"));
    let roots = Ok(vec![root("a", "Video/2023"), root("b", "Photo"), root("c", "Video/2024")]);
    match roots_use_on_roots("d", &roots, "2024") {
        RootsNext::SetRoot { disk_id, root_id, relative_path } => {
            assert_eq!((disk_id.as_str(), root_id.as_str(), relative_path.as_str()), ("d", "c", "Video/2024"));
        }
        _ => panic!("expected one root"),
    }
    assert!(matches!(roots_use_on_roots("d", &roots, "Video"), RootsNext::ManyRoots(ref m) if m == &vec![0, 2]));
    assert!(matches!(roots_use_on_roots("d", &roots, "Music"), RootsNext::Fail(RootsFailure::RootNotFound)));
    assert!(matches!(roots_use_on_roots("d", &Err(s("e")), "x"), RootsNext::Fail(RootsFailure::Request(ref e)) if e == "e"));
}
