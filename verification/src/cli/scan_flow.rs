//! The order of the steps of `roots scan`: read the active disk and media root, find the
//! disk and the root, list the event folders under the root, and for each folder ask the
//! user, store the event and hand its cameras on. Each step is decided here from what the
//! previous request answered; the requests, prompts and printing are the caller's.
use vstd::prelude::*;
use crate::cli::commands::find_root;
use crate::cli::model::{ActiveStateInfo, DiskInfo, RootInfo};
use crate::cli::replies::{event_reply, is_new_marker, id_key};
use crate::cli::commands::contains_text;
use crate::cli::scanner::{EventFolder, ScanEventsResult};
use crate::folders::opt_view;
use crate::json::json_str_field;
use crate::server::paths::{join_path, join_spec};
use crate::text::copy_str;

verus! {

/// Where the scan stands.
pub enum ScanState {
    /// Waiting for the active disk and root.
    AwaitState,
    /// Waiting for the disks that match the active disk's id.
    AwaitDisk { disk_id: String, root_id: String },
    /// Waiting for the media roots of the disk mounted at `mount_path`.
    AwaitRoots { disk_id: String, root_id: String, mount_path: String },
    /// Waiting for the event folders under the root.
    AwaitEvents { root_id: String },
    /// About to take up folder `next`.
    Continue { root_id: String, events: Vec<EventFolder>, next: usize },
    /// Waiting for the user's answer about folder `next`.
    Asking { root_id: String, events: Vec<EventFolder>, next: usize },
    /// Waiting for the server to store the event of folder `next`.
    AwaitCreate { root_id: String, events: Vec<EventFolder>, next: usize },
    /// The scan is over.
    Done,
}

/// What the caller learnt.
pub enum ScanEvent {
    /// The active disk and root, or why they could not be read.
    State(Result<ActiveStateInfo, String>),
    /// The disks that match the active disk's id.
    Disks(Result<Vec<DiskInfo>, String>),
    /// The media roots of the disk.
    Roots(Result<Vec<RootInfo>, String>),
    /// The event folders found under the root.
    Events(Result<ScanEventsResult, String>),
    /// The user's answer: scan this folder or not.
    Answer(bool),
    /// The server's reply to storing the event.
    Created(Result<String, String>),
    /// The caller has done what the last action asked and the scan may go on.
    Proceed,
}

/// Why the scan stops early.
pub enum ScanFailure {
    /// A request failed with this message.
    Request(String),
    /// No active disk or no active root is chosen.
    NoActive,
    /// Not exactly one disk matches the active disk's id (or the search failed).
    DiskNotFound,
    /// The disk has no media root with the active root's id.
    RootNotFound,
}

/// What the caller is to do next.
pub enum ScanAction {
    /// Search the disks by this id.
    SearchDisks(String),
    /// List the media roots of this disk.
    ListRoots(String),
    /// Report and scan this folder for event folders.
    FindEvents(String),
    /// Report how many event folders were found, then proceed.
    Found(usize),
    /// Ask the user whether to scan this event folder.
    Ask(String),
    /// Report a skipped folder, then proceed.
    Skipped,
    /// Ask the server to store this event under the root.
    CreateEvent { root_id: String, folder_name: String, event_date: Option<String>, description: Option<String> },
    /// Report the stored event (new or already there); when the reply gave its id, scan
    /// the cameras in `full_path` for it; then proceed.
    Stored { folder_name: String, is_new: bool, cameras: Option<(String, String)> },
    /// Report that storing the event failed, then proceed.
    CreateFailed { folder_name: String, error: String },
    /// Report the failure; the scan is over.
    Fail(ScanFailure),
    /// The scan is over.
    Finish,
}

/// The position of the first root with this id.
pub open spec fn first_root(roots: Seq<RootInfo>, id: Seq<char>, i: int) -> bool {
    &&& 0 <= i < roots.len()
    &&& roots[i].id@ == id
    &&& forall|k: int| 0 <= k < i ==> #[trigger] roots[k].id@ != id
}

/// The state reached (`n`) and the action asked for (`a`) after `e` in state `s`, with
/// paths joined as on Windows when `w`. A reply that the state does not wait for ends
/// the scan.
pub open spec fn scan_next(s: ScanState, e: ScanEvent, w: bool, n: ScanState, a: ScanAction) -> bool {
    match (s, e) {
        (ScanState::AwaitState, ScanEvent::State(Err(msg))) => {
            &&& n is Done
            &&& a == ScanAction::Fail(ScanFailure::Request(msg))
        },
        (ScanState::AwaitState, ScanEvent::State(Ok(st))) => match (st.disk_id, st.root_id) {
            (Some(d), Some(r)) => {
                &&& n matches ScanState::AwaitDisk { disk_id, root_id } && disk_id@ == d@ && root_id@ == r@
                &&& a matches ScanAction::SearchDisks(q) && q@ == d@
            },
            _ => {
                &&& n is Done
                &&& a == ScanAction::Fail(ScanFailure::NoActive)
            },
        },
        (ScanState::AwaitDisk { disk_id: d, root_id: r }, ScanEvent::Disks(res)) => {
            if res is Ok && res->Ok_0@.len() == 1 {
                &&& n matches ScanState::AwaitRoots { disk_id, root_id, mount_path } && disk_id@ == d@
                    && root_id@ == r@ && mount_path@ == res->Ok_0@[0].mount_path@
                &&& a matches ScanAction::ListRoots(q) && q@ == d@
            } else {
                &&& n is Done
                &&& a == ScanAction::Fail(ScanFailure::DiskNotFound)
            }
        },
        (
            ScanState::AwaitRoots { disk_id: d, root_id: r, mount_path: m },
            ScanEvent::Roots(res),
        ) => match res {
            Err(msg) => {
                &&& n is Done
                &&& a == ScanAction::Fail(ScanFailure::Request(msg))
            },
            Ok(roots) => if exists|i: int| first_root(roots@, r@, i) {
                &&& n matches ScanState::AwaitEvents { root_id } && root_id@ == r@
                &&& a matches ScanAction::FindEvents(p) && exists|i: int|
                    first_root(roots@, r@, i) && p@ == join_spec(m@, roots@[i].relative_path@, w)
            } else {
                &&& n is Done
                &&& a == ScanAction::Fail(ScanFailure::RootNotFound)
            },
        },
        (ScanState::AwaitEvents { root_id: r }, ScanEvent::Events(res)) => match res {
            Err(msg) => {
                &&& n is Done
                &&& a == ScanAction::Fail(ScanFailure::Request(msg))
            },
            Ok(found) => {
                &&& n == ScanState::Continue { root_id: r, events: found.events, next: 0 }
                &&& a == ScanAction::Found(found.total)
            },
        },
        (ScanState::Continue { root_id: r, events: ev, next: k }, ScanEvent::Proceed) => {
            if k < ev@.len() {
                &&& n == ScanState::Asking { root_id: r, events: ev, next: k }
                &&& a matches ScanAction::Ask(q) && q@ == ev@[k as int].folder_name@
            } else {
                &&& n is Done
                &&& a == ScanAction::Finish
            }
        },
        (ScanState::Asking { root_id: r, events: ev, next: k }, ScanEvent::Answer(yes)) => {
            if k < ev@.len() && yes {
                &&& n == ScanState::AwaitCreate { root_id: r, events: ev, next: k }
                &&& a matches ScanAction::CreateEvent { root_id, folder_name, event_date, description }
                    && root_id@ == r@ && folder_name@ == ev@[k as int].folder_name@ && opt_view(
                    event_date,
                ) == opt_view(ev@[k as int].event_date) && opt_view(description) == opt_view(
                    ev@[k as int].description,
                )
            } else if k < ev@.len() {
                &&& n == ScanState::Continue { root_id: r, events: ev, next: (k + 1) as usize }
                &&& a == ScanAction::Skipped
            } else {
                &&& n is Done
                &&& a == ScanAction::Finish
            }
        },
        (ScanState::AwaitCreate { root_id: r, events: ev, next: k }, ScanEvent::Created(res)) => {
            if k < ev@.len() {
                &&& n == ScanState::Continue { root_id: r, events: ev, next: (k + 1) as usize }
                &&& match res {
                    Err(msg) => a matches ScanAction::CreateFailed { folder_name, error } && folder_name@
                        == ev@[k as int].folder_name@ && error == msg,
                    Ok(reply) => a matches ScanAction::Stored { folder_name, is_new, cameras }
                        && folder_name@ == ev@[k as int].folder_name@ && is_new == contains_text(
                        reply@,
                        is_new_marker(),
                    ) && match json_str_field(reply@, id_key()) {
                        Some(id) => cameras matches Some(c) && c.0@ == ev@[k as int].full_path@ && c.1@
                            == id,
                        None => cameras is None,
                    },
                }
            } else {
                &&& n is Done
                &&& a == ScanAction::Finish
            }
        },
        _ => {
            &&& n is Done
            &&& a == ScanAction::Finish
        },
    }
}

fn copy_opt(o: &Option<String>) -> (r: Option<String>)
    ensures
        opt_view(r) == opt_view(*o),
{
    match o {
        Some(s) => Some(copy_str(s.as_str())),
        None => None,
    }
}

/// The next step of the scan (see `scan_next`); `windows` says whether the client runs on
/// Windows.
pub fn scan_step(s: ScanState, e: ScanEvent, windows: bool) -> (r: (ScanState, ScanAction))
    ensures
        scan_next(s, e, windows, r.0, r.1),
{
    match (s, e) {
        (ScanState::AwaitState, ScanEvent::State(Err(msg))) => (ScanState::Done, ScanAction::Fail(ScanFailure::Request(msg))),
        (ScanState::AwaitState, ScanEvent::State(Ok(st))) => match (st.disk_id, st.root_id) {
            (Some(d), Some(r)) => {
                let q = copy_str(d.as_str());
                (ScanState::AwaitDisk { disk_id: d, root_id: r }, ScanAction::SearchDisks(q))
            },
            _ => (ScanState::Done, ScanAction::Fail(ScanFailure::NoActive)),
        },
        (ScanState::AwaitDisk { disk_id: d, root_id: r }, ScanEvent::Disks(res)) => match res {
            Ok(v) => {
                if v.len() == 1 {
                    let m = copy_str(v[0].mount_path.as_str());
                    let q = copy_str(d.as_str());
                    (ScanState::AwaitRoots { disk_id: d, root_id: r, mount_path: m }, ScanAction::ListRoots(q))
                } else {
                    (ScanState::Done, ScanAction::Fail(ScanFailure::DiskNotFound))
                }
            },
            Err(_) => (ScanState::Done, ScanAction::Fail(ScanFailure::DiskNotFound)),
        },
        (ScanState::AwaitRoots { disk_id: _, root_id: r, mount_path: m }, ScanEvent::Roots(res)) => match res {
            Err(msg) => (ScanState::Done, ScanAction::Fail(ScanFailure::Request(msg))),
            Ok(roots) => match find_root(&roots, r.as_str()) {
                Some(i) => {
                    let p = join_path(m.as_str(), roots[i].relative_path.as_str(), windows);
                    assert(first_root(roots@, r@, i as int));
                    (ScanState::AwaitEvents { root_id: r }, ScanAction::FindEvents(p))
                },
                None => {
                    proof {
                        if exists|i: int| first_root(roots@, r@, i) {
                            let i = choose|i: int| first_root(roots@, r@, i);
                            assert(roots@[i].id@ == r@);
                        }
                    }
                    (ScanState::Done, ScanAction::Fail(ScanFailure::RootNotFound))
                },
            },
        },
        (ScanState::AwaitEvents { root_id: r }, ScanEvent::Events(res)) => match res {
            Err(msg) => (ScanState::Done, ScanAction::Fail(ScanFailure::Request(msg))),
            Ok(found) => (
                ScanState::Continue { root_id: r, events: found.events, next: 0 },
                ScanAction::Found(found.total),
            ),
        },
        (ScanState::Continue { root_id: r, events: ev, next: k }, ScanEvent::Proceed) => {
            if k < ev.len() {
                let q = copy_str(ev[k].folder_name.as_str());
                (ScanState::Asking { root_id: r, events: ev, next: k }, ScanAction::Ask(q))
            } else {
                (ScanState::Done, ScanAction::Finish)
            }
        },
        (ScanState::Asking { root_id: r, events: ev, next: k }, ScanEvent::Answer(yes)) => {
            if k < ev.len() && yes {
                let a = ScanAction::CreateEvent {
                    root_id: copy_str(r.as_str()),
                    folder_name: copy_str(ev[k].folder_name.as_str()),
                    event_date: copy_opt(&ev[k].event_date),
                    description: copy_opt(&ev[k].description),
                };
                (ScanState::AwaitCreate { root_id: r, events: ev, next: k }, a)
            } else if k < ev.len() {
                (ScanState::Continue { root_id: r, events: ev, next: k + 1 }, ScanAction::Skipped)
            } else {
                (ScanState::Done, ScanAction::Finish)
            }
        },
        (ScanState::AwaitCreate { root_id: r, events: ev, next: k }, ScanEvent::Created(res)) => {
            if k < ev.len() {
                let folder_name = copy_str(ev[k].folder_name.as_str());
                let a = match res {
                    Err(msg) => ScanAction::CreateFailed { folder_name, error: msg },
                    Ok(reply) => {
                        let (is_new, id) = event_reply(reply.as_str());
                        let cameras = match id {
                            Some(id) => Some((copy_str(ev[k].full_path.as_str()), id)),
                            None => None,
                        };
                        ScanAction::Stored { folder_name, is_new, cameras }
                    },
                };
                (ScanState::Continue { root_id: r, events: ev, next: k + 1 }, a)
            } else {
                (ScanState::Done, ScanAction::Finish)
            }
        },
        _ => (ScanState::Done, ScanAction::Finish),
    }
}

/// When the user answers yes for folder `k`, the event stored is that folder's: the
/// request names the media root being scanned, the folder's name, and the date and
/// description recorded for the folder.
pub proof fn law_scan_stores_folder_as_found(
    r: String,
    ev: Vec<EventFolder>,
    k: usize,
    w: bool,
    n: ScanState,
    a: ScanAction,
)
    requires
        k < ev@.len(),
        scan_next((ScanState::Asking { root_id: r, events: ev, next: k }), ScanEvent::Answer(true), w, n, a),
    ensures
        match a {
            ScanAction::CreateEvent { root_id, folder_name, event_date, description } => {
                &&& root_id@ == r@
                &&& folder_name@ == ev@[k as int].folder_name@
                &&& opt_view(event_date) == opt_view(ev@[k as int].event_date)
                &&& opt_view(description) == opt_view(ev@[k as int].description)
            },
            _ => false,
        },
        n == (ScanState::AwaitCreate { root_id: r, events: ev, next: k }),
{
}

/// When the server answers the request to store folder `k`, the scan goes on with the
/// next folder, and what it reports is that folder's: on success, whether the reply says
/// the event is new and, when the reply gives the event's id, the folder's own path with
/// that id for the camera scan; on failure, the server's message.
pub proof fn law_scan_reports_stored_folder(
    r: String,
    ev: Vec<EventFolder>,
    k: usize,
    res: Result<String, String>,
    w: bool,
    n: ScanState,
    a: ScanAction,
)
    requires
        k < ev@.len(),
        scan_next((ScanState::AwaitCreate { root_id: r, events: ev, next: k }), ScanEvent::Created(res), w, n, a),
    ensures
        n == (ScanState::Continue { root_id: r, events: ev, next: (k + 1) as usize }),
        match (res, a) {
            (Ok(reply), ScanAction::Stored { folder_name, is_new, cameras }) => {
                &&& folder_name@ == ev@[k as int].folder_name@
                &&& is_new == contains_text(reply@, is_new_marker())
                &&& (cameras is Some) == (json_str_field(reply@, id_key()) is Some)
                &&& cameras is Some ==> cameras.unwrap().0@ == ev@[k as int].full_path@ && Some(cameras.unwrap().1@)
                    == json_str_field(reply@, id_key())
            },
            (Err(msg), ScanAction::CreateFailed { folder_name, error }) => {
                &&& folder_name@ == ev@[k as int].folder_name@
                &&& error == msg
            },
            _ => false,
        },
{
}

} // verus!
