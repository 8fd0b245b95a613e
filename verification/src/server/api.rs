//! Decisions of the HTTP handlers for disks, media roots, events and cameras. The handlers
//! alternate database work with decisions: each function here takes what the last piece of
//! work gave and says what comes next.
use vstd::prelude::*;
use crate::text::{str_eq, copy_str, string_of};
use crate::server::paths::{normalize_path, normalized};
use crate::server::model::AddDiskRequest;

verus! {

/// `fixed`.
pub open spec fn fixed_type() -> Seq<char> {
    seq!['f', 'i', 'x', 'e', 'd']
}

/// `removable`.
pub open spec fn removable_type() -> Seq<char> {
    seq!['r', 'e', 'm', 'o', 'v', 'a', 'b', 'l', 'e']
}

/// The disk type `fixed`.
pub fn fixed_type_text() -> (r: String)
    ensures
        r@ == fixed_type(),
{
    let v = vec!['f', 'i', 'x', 'e', 'd'];
    assert(v@ =~= fixed_type());
    string_of(&v)
}

/// The disk type `removable`.
pub fn removable_type_text() -> (r: String)
    ensures
        r@ == removable_type(),
{
    let v = vec!['r', 'e', 'm', 'o', 'v', 'a', 'b', 'l', 'e'];
    assert(v@ =~= removable_type());
    string_of(&v)
}

/// The disk that a registration request describes, as it will be stored.
pub struct AddDiskPlan {
    pub label: String,
    pub mount_path: String,
    pub disk_type: String,
}

/// The answer to a disk registration.
pub enum AddDiskReply {
    /// A disk with the same mount path is already registered.
    Conflict,
    /// The disk was registered under this id.
    Created { disk_id: String },
    /// The disk was registered but its marker file could not be written.
    MarkerFailed { error: String },
    /// The disk could not be registered.
    Failed { error: String },
}

/// What the registration of a disk does next.
pub enum AddDiskNext {
    /// Store the planned disk.
    Insert,
    /// Write the marker file with this disk id at this mount path.
    WriteMarker { mount_path: String, disk_id: String },
    /// Answer.
    Reply(AddDiskReply),
}

/// The HTTP status of an answer to a disk registration.
pub open spec fn add_disk_status_spec(r: AddDiskReply) -> u16 {
    match r {
        AddDiskReply::Conflict => 409,
        AddDiskReply::Created { .. } => 201,
        AddDiskReply::MarkerFailed { .. } => 500,
        AddDiskReply::Failed { .. } => 500,
    }
}

impl AddDiskReply {
    /// The HTTP status of this answer.
    pub fn status(&self) -> (s: u16)
        ensures
            s == add_disk_status_spec(*self),
    {
        match self {
            AddDiskReply::Conflict => 409,
            AddDiskReply::Created { .. } => 201,
            AddDiskReply::MarkerFailed { .. } => 500,
            AddDiskReply::Failed { .. } => 500,
        }
    }
}

/// The disk that a registration request describes: its label, its mount path without
/// trailing separators (see `normalized`; `windows` says whether the server runs on
/// Windows), and its type (`fixed` unless the request names one).
pub fn add_disk_plan(req: &AddDiskRequest, windows: bool) -> (p: AddDiskPlan)
    ensures
        p.label@ == req.label@,
        p.mount_path@ == normalized(req.mount_path@, windows),
        p.disk_type@ == match req.disk_type {
            Some(t) => t@,
            None => fixed_type(),
        },
{
    let disk_type = match &req.disk_type {
        Some(t) => copy_str(t.as_str()),
        None => fixed_type_text(),
    };
    AddDiskPlan {
        label: copy_str(req.label.as_str()),
        mount_path: normalize_path(req.mount_path.as_str(), windows),
        disk_type,
    }
}

/// After looking up whether the mount path is registered: a registered path is a
/// conflict; otherwise (also when the lookup failed) the disk is stored.
pub fn add_disk_on_lookup(registered: Result<bool, String>) -> (n: AddDiskNext)
    ensures
        registered == Ok::<bool, String>(true) ==> n == AddDiskNext::Reply(AddDiskReply::Conflict),
        registered != Ok::<bool, String>(true) ==> n == AddDiskNext::Insert,
{
    match registered {
        Ok(true) => AddDiskNext::Reply(AddDiskReply::Conflict),
        _ => AddDiskNext::Insert,
    }
}

/// After storing the disk: a removable disk gets its marker file next; any other disk is
/// answered as created; a failure to store is answered as such.
pub fn add_disk_on_insert(plan: &AddDiskPlan, inserted: Result<String, String>) -> (n: AddDiskNext)
    ensures
        match inserted {
            Ok(id) => if plan.disk_type@ == removable_type() {
                n matches AddDiskNext::WriteMarker { mount_path, disk_id } && mount_path@
                    == plan.mount_path@ && disk_id@ == id@
            } else {
                n matches AddDiskNext::Reply(AddDiskReply::Created { disk_id }) && disk_id@ == id@
            },
            Err(e) => n matches AddDiskNext::Reply(AddDiskReply::Failed { error }) && error@ == e@,
        },
{
    match inserted {
        Ok(id) => {
            let removable = removable_type_text();
            if str_eq(plan.disk_type.as_str(), removable.as_str()) {
                AddDiskNext::WriteMarker { mount_path: copy_str(plan.mount_path.as_str()), disk_id: id }
            } else {
                AddDiskNext::Reply(AddDiskReply::Created { disk_id: id })
            }
        },
        Err(e) => AddDiskNext::Reply(AddDiskReply::Failed { error: e }),
    }
}

/// After writing the marker file of the disk `disk_id`.
pub fn add_disk_on_marker(disk_id: String, written: Result<(), String>) -> (r: AddDiskReply)
    ensures
        match written {
            Ok(_) => r matches AddDiskReply::Created { disk_id: d } && d@ == disk_id@,
            Err(e) => r matches AddDiskReply::MarkerFailed { error } && error@ == e@,
        },
{
    match written {
        Ok(_) => AddDiskReply::Created { disk_id },
        Err(e) => AddDiskReply::MarkerFailed { error: e },
    }
}

/// The answer to adding a media root to a disk.
pub enum AddRootReply {
    /// The disk is not registered.
    NotFound,
    /// The disk already has a media root with this relative path.
    Conflict,
    /// The media root was added under this id.
    Created { id: String },
    /// The work failed.
    Failed { error: String },
}

/// What adding a media root does next.
pub enum AddRootNext {
    /// Look up whether the disk already has this relative path.
    CheckDuplicate,
    /// Store the media root.
    Insert,
    /// Answer.
    Reply(AddRootReply),
}

/// The HTTP status of an answer to adding a media root.
pub open spec fn add_root_status_spec(r: AddRootReply) -> u16 {
    match r {
        AddRootReply::NotFound => 404,
        AddRootReply::Conflict => 409,
        AddRootReply::Created { .. } => 201,
        AddRootReply::Failed { .. } => 500,
    }
}

impl AddRootReply {
    /// The HTTP status of this answer.
    pub fn status(&self) -> (s: u16)
        ensures
            s == add_root_status_spec(*self),
    {
        match self {
            AddRootReply::NotFound => 404,
            AddRootReply::Conflict => 409,
            AddRootReply::Created { .. } => 201,
            AddRootReply::Failed { .. } => 500,
        }
    }
}

/// After looking up the disk by its id.
pub fn add_root_on_disk_lookup(found: Result<bool, String>) -> (n: AddRootNext)
    ensures
        match found {
            Ok(true) => n == AddRootNext::CheckDuplicate,
            Ok(false) => n == AddRootNext::Reply(AddRootReply::NotFound),
            Err(e) => n matches AddRootNext::Reply(AddRootReply::Failed { error }) && error@ == e@,
        },
{
    match found {
        Ok(true) => AddRootNext::CheckDuplicate,
        Ok(false) => AddRootNext::Reply(AddRootReply::NotFound),
        Err(e) => AddRootNext::Reply(AddRootReply::Failed { error: e }),
    }
}

/// After looking up whether the disk has the relative path already (a failed lookup
/// counts as "no").
pub fn add_root_on_duplicate(exists: Result<bool, String>) -> (n: AddRootNext)
    ensures
        exists == Ok::<bool, String>(true) ==> n == AddRootNext::Reply(AddRootReply::Conflict),
        exists != Ok::<bool, String>(true) ==> n == AddRootNext::Insert,
{
    match exists {
        Ok(true) => AddRootNext::Reply(AddRootReply::Conflict),
        _ => AddRootNext::Insert,
    }
}

/// After storing the media root.
pub fn add_root_on_insert(inserted: Result<String, String>) -> (r: AddRootReply)
    ensures
        match inserted {
            Ok(id) => r matches AddRootReply::Created { id: i } && i@ == id@,
            Err(e) => r matches AddRootReply::Failed { error } && error@ == e@,
        },
{
    match inserted {
        Ok(id) => AddRootReply::Created { id },
        Err(e) => AddRootReply::Failed { error: e },
    }
}

} // verus!
