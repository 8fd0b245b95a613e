//! The records that the desktop client reads from the server, and where it reads them.
use vstd::prelude::*;
use vstd::string::StringExecFns;

verus! {

/// A registered disk.
pub struct DiskInfo {
    pub disk_id: String,
    pub label: String,
    pub mount_path: String,
    pub disk_type: String,
    pub is_available: bool,
}

/// A media root of a disk.
pub struct RootInfo {
    pub id: String,
    pub disk_id: String,
    pub relative_path: String,
}

/// An event of a media root.
pub struct EventInfo {
    pub id: String,
    pub folder_name: String,
    pub event_date: Option<String>,
    pub description: Option<String>,
}

/// The footage of a camera at an event.
pub struct CameraInstanceInfo {
    pub id: String,
    pub camera_name: String,
    pub folder_name: String,
}

/// The address of the catalogue server.
pub open spec fn server_url_spec() -> Seq<char> {
    "http://127.0.0.1:9090"@
}

/// The address of the catalogue server, `http://127.0.0.1:9090`.
pub fn server_url() -> (r: String)
    ensures
        r@ == server_url_spec(),
{
    String::from_str("http://127.0.0.1:9090")
}

/// Where the disks are listed.
pub fn disks_url() -> (r: String)
    ensures
        r@ == server_url_spec() + "/api/admin/disks"@,
{
    server_url().concat("/api/admin/disks")
}

/// Where the media roots of the disk `disk_id` are listed.
pub fn roots_url(disk_id: &str) -> (r: String)
    ensures
        r@ == server_url_spec() + "/api/admin/roots?disk_id="@ + disk_id@,
{
    server_url().concat("/api/admin/roots?disk_id=").concat(disk_id)
}

/// Where the events of the media root `root_id` are listed.
pub fn events_url(root_id: &str) -> (r: String)
    ensures
        r@ == server_url_spec() + "/api/admin/roots/"@ + root_id@ + "/events"@,
{
    server_url().concat("/api/admin/roots/").concat(root_id).concat("/events")
}

/// Where the assets of the event `event_id` are listed.
pub fn assets_url(event_id: &str) -> (r: String)
    ensures
        r@ == server_url_spec() + "/api/admin/events/"@ + event_id@ + "/assets"@,
{
    server_url().concat("/api/admin/events/").concat(event_id).concat("/assets")
}

/// Where the camera instance `id` is read.
pub fn camera_instance_url(id: &str) -> (r: String)
    ensures
        r@ == server_url_spec() + "/api/admin/camera-instances/"@ + id@,
{
    server_url().concat("/api/admin/camera-instances/").concat(id)
}

/// Where the camera instances of the event `event_id` are listed.
pub fn camera_instances_url(event_id: &str) -> (r: String)
    ensures
        r@ == server_url_spec() + "/api/admin/events/"@ + event_id@ + "/camera-instances"@,
{
    server_url().concat("/api/admin/events/").concat(event_id).concat("/camera-instances")
}

} // verus!
