//! The steps of the `roots` commands (`add`, `ls`, `use`): which request comes next, or
//! how the command ends, decided from what the previous request answered. The requests,
//! prompts and printing are the caller's.
use vstd::prelude::*;
use crate::cli::commands::{match_roots, matching_roots};
use crate::cli::model::{ActiveStateInfo, DiskInfo, RootInfo};
use crate::text::copy_str;

verus! {

/// Why a `roots` command stops early.
pub enum RootsFailure {
    /// A request failed with this message.
    Request(String),
    /// No disk matches what the user typed.
    DiskNotFound,
    /// `roots ls` was given no disk and no disk is active.
    NoDisk,
    /// `roots use` needs an active disk and there is none.
    NoActiveDisk,
    /// No media root of the active disk matches what the user typed.
    RootNotFound,
}

/// What a `roots` command does next.
pub enum RootsNext {
    /// Search the disks for this text.
    SearchDisks(String),
    /// List the media roots of this disk.
    ListRoots(String),
    /// Add the media root to this disk.
    AddRoot(String),
    /// Make this media root of this disk the active one.
    SetRoot { disk_id: String, root_id: String, relative_path: String },
    /// Several disks match: list them and stop.
    ManyDisks,
    /// Several media roots match (their positions): list them and stop.
    ManyRoots(Vec<usize>),
    /// Report the failure and stop.
    Fail(RootsFailure),
}

/// After searching the disks: exactly one match goes on with that disk (to add the root
/// when `adding`, else to list its roots); none, several, or a failed search end the
/// command.
pub fn roots_on_disks(disks: &Result<Vec<DiskInfo>, String>, adding: bool) -> (n: RootsNext)
    ensures
        match *disks {
            Err(e) => n matches RootsNext::Fail(RootsFailure::Request(m)) && m@ == e@,
            Ok(v) => if v@.len() == 1 {
                if adding {
                    n matches RootsNext::AddRoot(id) && id@ == v@[0].disk_id@
                } else {
                    n matches RootsNext::ListRoots(id) && id@ == v@[0].disk_id@
                }
            } else if v@.len() == 0 {
                n == RootsNext::Fail(RootsFailure::DiskNotFound)
            } else {
                n == RootsNext::ManyDisks
            },
        },
{
    match disks {
        Err(e) => RootsNext::Fail(RootsFailure::Request(copy_str(e.as_str()))),
        Ok(v) => {
            if v.len() == 1 {
                let id = copy_str(v[0].disk_id.as_str());
                if adding {
                    RootsNext::AddRoot(id)
                } else {
                    RootsNext::ListRoots(id)
                }
            } else if v.len() == 0 {
                RootsNext::Fail(RootsFailure::DiskNotFound)
            } else {
                RootsNext::ManyDisks
            }
        },
    }
}

/// The first step of `roots ls`: search the disks for `contains` when it is given,
/// otherwise list the roots of the active disk (`active` is the active state, when it
/// could be read).
pub fn roots_ls_start(contains: Option<String>, active: &Option<ActiveStateInfo>) -> (n: RootsNext)
    ensures
        match contains {
            Some(c) => n == RootsNext::SearchDisks(c),
            None => match active {
                Some(st) => match st.disk_id {
                    Some(d) => n matches RootsNext::ListRoots(id) && id@ == d@,
                    None => n == RootsNext::Fail(RootsFailure::NoDisk),
                },
                None => n == RootsNext::Fail(RootsFailure::NoDisk),
            },
        },
{
    match contains {
        Some(c) => RootsNext::SearchDisks(c),
        None => match active {
            Some(st) => match &st.disk_id {
                Some(d) => RootsNext::ListRoots(copy_str(d.as_str())),
                None => RootsNext::Fail(RootsFailure::NoDisk),
            },
            None => RootsNext::Fail(RootsFailure::NoDisk),
        },
    }
}

/// The first step of `roots use`, after reading the active state: list the roots of the
/// active disk.
pub fn roots_use_on_state(state: Result<ActiveStateInfo, String>) -> (n: RootsNext)
    ensures
        match state {
            Err(e) => n == RootsNext::Fail(RootsFailure::Request(e)),
            Ok(st) => match st.disk_id {
                Some(d) => n == RootsNext::ListRoots(d),
                None => n == RootsNext::Fail(RootsFailure::NoActiveDisk),
            },
        },
{
    match state {
        Err(e) => RootsNext::Fail(RootsFailure::Request(e)),
        Ok(st) => match st.disk_id {
            Some(d) => RootsNext::ListRoots(d),
            None => RootsNext::Fail(RootsFailure::NoActiveDisk),
        },
    }
}

proof fn lemma_matching_bounds(roots: Seq<RootInfo>, contains: Seq<char>)
    ensures
        forall|k: int|
            0 <= k < matching_roots(roots, contains).len() ==> 0 <= #[trigger] matching_roots(
                roots,
                contains,
            )[k] < roots.len(),
    decreases roots.len(),
{
    if roots.len() > 0 {
        lemma_matching_bounds(roots.drop_last(), contains);
        let p = matching_roots(roots.drop_last(), contains);
        let m = matching_roots(roots, contains);
        assert forall|k: int| 0 <= k < m.len() implies 0 <= #[trigger] m[k] < roots.len() by {
            if k < p.len() {
                assert(m[k] == p[k]);
            }
        }
    }
}

/// After listing the roots of the disk `disk_id` for `roots use`: exactly one root whose
/// path contains `contains` becomes the active root; none, several, or a failed listing
/// end the command.
pub fn roots_use_on_roots(disk_id: &str, roots: &Result<Vec<RootInfo>, String>, contains: &str) -> (n: RootsNext)
    ensures
        match *roots {
            Err(e) => n matches RootsNext::Fail(RootsFailure::Request(m)) && m@ == e@,
            Ok(v) => {
                let m = matching_roots(v@, contains@);
                if m.len() == 1 {
                    n matches RootsNext::SetRoot { disk_id: d, root_id, relative_path } && d@ == disk_id@
                        && root_id@ == v@[m[0]].id@ && relative_path@ == v@[m[0]].relative_path@
                } else if m.len() == 0 {
                    n == RootsNext::Fail(RootsFailure::RootNotFound)
                } else {
                    n matches RootsNext::ManyRoots(p) && p@.len() == m.len() && forall|k: int|
                        0 <= k < m.len() ==> #[trigger] p@[k] as int == m[k]
                }
            },
        },
{
    match roots {
        Err(e) => RootsNext::Fail(RootsFailure::Request(copy_str(e.as_str()))),
        Ok(v) => {
            let matched = match_roots(v, contains);
            proof {
                lemma_matching_bounds(v@, contains@);
            }
            if matched.len() == 1 {
                let i = matched[0];
                assert(i as int == matching_roots(v@, contains@)[0]);
                RootsNext::SetRoot {
                    disk_id: copy_str(disk_id),
                    root_id: copy_str(v[i].id.as_str()),
                    relative_path: copy_str(v[i].relative_path.as_str()),
                }
            } else if matched.len() == 0 {
                RootsNext::Fail(RootsFailure::RootNotFound)
            } else {
                RootsNext::ManyRoots(matched)
            }
        },
    }
}

} // verus!
