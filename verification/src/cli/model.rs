//! What the command-line client receives from the server and finds on disk.
use vstd::prelude::*;

verus! {

/// The server's answer to a disk registration.
pub struct AddDiskResponse {
    pub disk_id: String,
    pub message: String,
}

/// A registered disk, as the server lists it.
pub struct DiskInfo {
    pub disk_id: String,
    pub label: String,
    pub mount_path: String,
    pub disk_type: String,
    pub is_available: bool,
}

/// A media root, as the server lists it.
pub struct RootInfo {
    pub id: String,
    pub disk_id: String,
    pub relative_path: String,
}

/// The active disk and media root, as the server reports them.
pub struct ActiveStateInfo {
    pub disk_id: Option<String>,
    pub root_id: Option<String>,
}

} // verus!
