//! The marker file that names a removable disk: its text, and the disk id read from it.
use vstd::prelude::*;
use crate::folders::opt_view;
use crate::json::{json_object, json_object_of, json_str_field, json_str_field_of};
use crate::text::string_of;

verus! {

/// `disk_id`, the member of the marker that holds the disk's id.
pub open spec fn disk_id_key() -> Seq<char> {
    seq!['d', 'i', 's', 'k', '_', 'i', 'd']
}

fn disk_id_key_text() -> (s: String)
    ensures
        s@ == disk_id_key(),
{
    let mut v: Vec<char> = Vec::new();
    v.push('d');
    v.push('i');
    v.push('s');
    v.push('k');
    v.push('_');
    v.push('i');
    v.push('d');
    assert(v@ =~= disk_id_key());
    string_of(&v)
}

/// The marker of the disk `disk_id`: the pretty-printed JSON object `{"disk_id": ...}`.
pub open spec fn marker_json(disk_id: Seq<char>) -> Seq<char> {
    json_object(disk_id_key(), disk_id)
}

/// The disk id written in a marker file: its string member `disk_id`.
pub fn marker_disk_id(content: &str) -> (r: Option<String>)
    ensures
        opt_view(r) == json_str_field(content@, disk_id_key()),
{
    let key = disk_id_key_text();
    json_str_field_of(content, key.as_str())
}

/// The text of the marker of the disk `disk_id`. Reading it back gives the same id.
pub fn marker_text(disk_id: &str) -> (r: String)
    ensures
        r@ == marker_json(disk_id@),
        json_str_field(r@, disk_id_key()) == Some(disk_id@),
{
    let key = disk_id_key_text();
    json_object_of(key.as_str(), disk_id)
}

} // verus!
