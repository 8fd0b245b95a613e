//! The records that the catalogue keeps, and the requests that its HTTP interface takes.
use vstd::prelude::*;

verus! {

/// A registered disk (or folder) that holds footage.
pub struct Disk {
    pub disk_id: String,
    pub label: String,
    pub mount_path: String,
    /// `fixed` or `removable`.
    pub disk_type: String,
    pub is_available: bool,
}

/// A media root: a folder, given relative to its disk, whose subfolders are events.
pub struct Root {
    pub id: String,
    pub disk_id: String,
    pub relative_path: String,
}

/// An event: one subfolder of a media root.
pub struct Event {
    pub id: String,
    pub media_root_id: String,
    pub folder_name: String,
    pub event_date: Option<String>,
    pub description: Option<String>,
}

/// A camera, known by the name of the folders that hold its footage.
pub struct Camera {
    pub id: String,
    pub name: String,
    pub folder_name: String,
}

/// The footage of one camera at one event.
pub struct CameraInstance {
    pub id: String,
    pub camera_id: String,
    pub event_id: String,
    pub folder_name: String,
}

/// Registers a disk.
pub struct AddDiskRequest {
    pub label: String,
    pub mount_path: String,
    /// `fixed` when absent.
    pub disk_type: Option<String>,
}

/// Adds a media root to a disk.
pub struct AddRootRequest {
    pub disk_id: String,
    pub relative_path: String,
}

/// An optional search text.
pub struct SearchQuery {
    pub search: Option<String>,
}

/// Names the disk whose media roots are listed.
pub struct RootsQuery {
    pub disk_id: String,
}

/// Records an event folder of a media root.
pub struct CreateEventRequest {
    pub media_root_id: String,
    pub folder_name: String,
    pub event_date: Option<String>,
    pub description: Option<String>,
}

/// Records a camera.
pub struct CreateCameraRequest {
    pub name: String,
    pub folder_name: String,
}

/// Records the footage folder of a camera at an event.
pub struct CreateCameraInstanceRequest {
    pub camera_id: String,
    pub event_id: String,
    pub folder_name: String,
}

/// Chooses the active disk.
pub struct SetDiskRequest {
    pub disk_id: String,
}

/// Chooses the active media root (and its disk).
pub struct SetRootRequest {
    pub disk_id: String,
    pub root_id: String,
}

} // verus!
