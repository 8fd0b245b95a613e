//! What the command-line client reads out of the server's JSON replies.
use vstd::prelude::*;
use crate::cli::commands::{contains_text, text_contains};
use crate::folders::opt_view;
use crate::json::{json_str_field, json_str_field_of};
use crate::text::copy_str;

verus! {

/// The text that marks a newly stored event in the server's reply.
pub open spec fn is_new_marker() -> Seq<char> {
    seq!['"', 'i', 's', '_', 'n', 'e', 'w', '"', ':', 't', 'r', 'u', 'e']
}

fn is_new_marker_text() -> (s: String)
    ensures
        s@ == is_new_marker(),
{
    let mut v: Vec<char> = Vec::new();
    v.push('"');
    v.push('i');
    v.push('s');
    v.push('_');
    v.push('n');
    v.push('e');
    v.push('w');
    v.push('"');
    v.push(':');
    v.push('t');
    v.push('r');
    v.push('u');
    v.push('e');
    assert(v@ =~= is_new_marker());
    crate::text::string_of(&v)
}

/// `"id"` as text.
pub open spec fn id_key() -> Seq<char> {
    seq!['i', 'd']
}

fn id_key_text() -> (s: String)
    ensures
        s@ == id_key(),
{
    let mut v: Vec<char> = Vec::new();
    v.push('i');
    v.push('d');
    assert(v@ =~= id_key());
    crate::text::string_of(&v)
}

/// The reply to storing an event: whether it says the event is new (the reply's text
/// holds `"is_new":true`), and the event's id (the string member `id`).
pub fn event_reply(response: &str) -> (r: (bool, Option<String>))
    ensures
        r.0 == contains_text(response@, is_new_marker()),
        opt_view(r.1) == json_str_field(response@, id_key()),
{
    let marker = is_new_marker_text();
    let key = id_key_text();
    (text_contains(response, marker.as_str()), json_str_field_of(response, key.as_str()))
}

/// The id in the reply to creating a camera: its string member `id`, or the empty text
/// when the reply is not JSON or has none.
pub fn camera_reply_id(response: &str) -> (r: String)
    ensures
        r@ == match json_str_field(response@, id_key()) {
            Some(id) => id,
            None => Seq::empty(),
        },
{
    let key = id_key_text();
    match json_str_field_of(response, key.as_str()) {
        Some(id) => id,
        None => String::new(),
    }
}

/// `"message"` as text.
pub open spec fn message_key() -> Seq<char> {
    seq!['m', 'e', 's', 's', 'a', 'g', 'e']
}

/// What a reply says: its string member `message`, or else the whole reply.
pub fn reply_message(text: &str) -> (r: String)
    ensures
        r@ == match json_str_field(text@, message_key()) {
            Some(m) => m,
            None => text@,
        },
{
    let mut v: Vec<char> = Vec::new();
    v.push('m');
    v.push('e');
    v.push('s');
    v.push('s');
    v.push('a');
    v.push('g');
    v.push('e');
    assert(v@ =~= message_key());
    let key = crate::text::string_of(&v);
    match json_str_field_of(text, key.as_str()) {
        Some(m) => m,
        None => copy_str(text),
    }
}

} // verus!
