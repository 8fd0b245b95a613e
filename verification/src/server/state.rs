//! The server's choice of the active disk and media root.
use vstd::prelude::*;

verus! {

/// The disk and the media root (a folder on that disk) that the user works with.
pub struct ActiveState {
    pub disk_id: Option<String>,
    pub root_id: Option<String>,
}

impl ActiveState {
    /// Nothing is active.
    pub fn new() -> (s: Self)
        ensures
            s.disk_id is None,
            s.root_id is None,
    {
        ActiveState { disk_id: None, root_id: None }
    }

    /// Makes `disk_id` the active disk. A media root belongs to one disk, so the active
    /// root is cleared.
    pub fn set_disk(&mut self, disk_id: String)
        ensures
            final(self).disk_id == Some(disk_id),
            final(self).root_id is None,
    {
        self.disk_id = Some(disk_id);
        self.root_id = None;
    }

    /// Makes `root_id`, a media root of `disk_id`, the active root, and its disk the
    /// active disk.
    pub fn set_root(&mut self, disk_id: String, root_id: String)
        ensures
            final(self).disk_id == Some(disk_id),
            final(self).root_id == Some(root_id),
    {
        self.disk_id = Some(disk_id);
        self.root_id = Some(root_id);
    }
}

} // verus!
