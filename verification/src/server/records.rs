//! Finding or creating catalogue records: cameras are known by their folder name, the
//! footage of a camera at an event by the event and folder, and an event by its media root
//! and folder.
use vstd::prelude::*;
use crate::server::ids::{new_id, is_uuid_v4_text};
use crate::server::model::{Camera, CameraInstance};
use crate::text::{chars_of, string_of, copy_str};

verus! {

/// Whether a record was found or has to be created, with the id it goes by.
pub enum Resolution {
    /// The record exists under this id.
    Existing { id: String },
    /// The record is to be created under this fresh id.
    Create { id: String },
}

/// The id and "created" flag that a find-or-create answers with, once the record is stored
/// where it had to be created.
pub open spec fn resolution_outcome(r: Resolution) -> (Seq<char>, bool) {
    match r {
        Resolution::Existing { id } => (id@, false),
        Resolution::Create { id } => (id@, true),
    }
}

impl Resolution {
    /// The id and whether the record is new.
    pub fn outcome(self) -> (o: (String, bool))
        ensures
            (o.0@, o.1) == resolution_outcome(self),
    {
        match self {
            Resolution::Existing { id } => (id, false),
            Resolution::Create { id } => (id, true),
        }
    }
}

/// A camera is looked up by folder name: a camera found is reused, otherwise a new one is
/// created under a fresh id.
pub fn resolve_camera(found: Option<Camera>) -> (r: Resolution)
    ensures
        match found {
            Some(c) => r matches Resolution::Existing { id } && id@ == c.id@,
            None => r matches Resolution::Create { id } && is_uuid_v4_text(id@),
        },
{
    match found {
        Some(c) => Resolution::Existing { id: c.id },
        None => Resolution::Create { id: new_id() },
    }
}

/// The footage of a camera at an event is looked up by event and folder name: a record
/// found is reused, otherwise a new one is created under a fresh id.
pub fn resolve_camera_instance(found: Option<CameraInstance>) -> (r: Resolution)
    ensures
        match found {
            Some(c) => r matches Resolution::Existing { id } && id@ == c.id@,
            None => r matches Resolution::Create { id } && is_uuid_v4_text(id@),
        },
{
    match found {
        Some(c) => Resolution::Existing { id: c.id },
        None => Resolution::Create { id: new_id() },
    }
}

/// What storing an event (an insert that is ignored when the media root already has an
/// event for the folder) leads to.
pub enum EventInsertNext {
    /// The event was stored under this id.
    Stored { id: String },
    /// Nothing was stored: the existing event's id is looked up.
    LookupExisting,
}

/// After the insert of an event under `fresh_id` changed `changes` rows.
pub fn event_after_insert(fresh_id: &String, changes: u64) -> (n: EventInsertNext)
    ensures
        changes == 0 ==> n == EventInsertNext::LookupExisting,
        changes != 0 ==> (n matches EventInsertNext::Stored { id } && id@ == fresh_id@),
{
    if changes == 0 {
        EventInsertNext::LookupExisting
    } else {
        EventInsertNext::Stored { id: copy_str(fresh_id.as_str()) }
    }
}

/// The SQL `LIKE` pattern that finds `query` anywhere in a text: `%query%` (the query's
/// own `%` and `_` keep their pattern meaning).
pub fn like_pattern(query: &str) -> (r: String)
    ensures
        r@ == seq!['%'] + query@ + seq!['%'],
{
    let q = chars_of(query);
    let mut v: Vec<char> = Vec::new();
    v.push('%');
    let mut i: usize = 0;
    while i < q.len()
        invariant
            i <= q.len(),
            v@ == seq!['%'] + q@.take(i as int),
        decreases q.len() - i,
    {
        v.push(q[i]);
        assert(q@.take(i as int).push(q@[i as int]) =~= q@.take(i + 1));
        i = i + 1;
    }
    v.push('%');
    assert(q@.take(q.len() as int) =~= query@);
    string_of(&v)
}

} // verus!
