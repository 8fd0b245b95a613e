//! Event folders found under a media root, and the video files of a camera folder.
use vstd::prelude::*;
use crate::folders::{event_folder_parts, opt_view, parse_event_folder};
use crate::text::{chars_of, string_of};

verus! {

/// An event folder found under a media root.
pub struct EventFolder {
    pub folder_name: String,
    pub event_date: Option<String>,
    pub description: Option<String>,
    pub full_path: String,
}

/// The event folders found under a media root.
pub struct ScanEventsResult {
    pub total: usize,
    pub new: usize,
    pub events: Vec<EventFolder>,
}

impl ScanEventsResult {
    /// Every folder seen is listed, and none is counted as new.
    pub open spec fn wf(&self) -> bool {
        self.total == self.events.len() && self.new == 0
    }

    /// Nothing found yet.
    pub fn new() -> (r: Self)
        ensures
            r.wf(),
            r.events.len() == 0,
    {
        ScanEventsResult { total: 0, new: 0, events: Vec::new() }
    }

    /// Adds the event folder `folder_name` found at `full_path`, with the date and
    /// description that its name gives.
    pub fn record(&mut self, folder_name: String, full_path: String)
        requires
            old(self).wf(),
            old(self).total < usize::MAX,
        ensures
            final(self).wf(),
            final(self).events@.drop_last() == old(self).events@,
            final(self).events.len() == old(self).events.len() + 1,
            final(self).events@.last().folder_name@ == folder_name@,
            final(self).events@.last().full_path@ == full_path@,
            (opt_view(final(self).events@.last().event_date), opt_view(
                final(self).events@.last().description,
            )) == event_folder_parts(folder_name@),
    {
        let (event_date, description) = parse_event_folder(folder_name.as_str());
        self.total = self.total + 1;
        let ghost before = self.events@;
        self.events.push(EventFolder { folder_name, event_date, description, full_path });
        assert(self.events@.drop_last() =~= before);
    }
}

/// The extensions (in lowercase) of the video files that a camera folder may hold.
pub open spec fn video_extensions() -> Seq<Seq<char>> {
    seq![
        seq!['m', 'p', '4'],
        seq!['m', 'o', 'v'],
        seq!['a', 'v', 'i'],
        seq!['m', 'k', 'v'],
        seq!['m', 't', 's'],
        seq!['m', '2', 't', 's'],
        seq!['w', 'e', 'b', 'm'],
        seq!['i', 'n', 's', 'v'],
        seq!['l', 'r', 'v'],
        seq!['3', '6', '0'],
    ]
}

/// `str::to_lowercase` applied to a text.
pub uninterp spec fn lowercase(s: Seq<char>) -> Seq<char>;

/// `str::to_lowercase`: the text with every character mapped to its lowercase form by
/// the Unicode tables of the standard library. The result is named, not spelled out.
#[verifier::external_body]
fn to_lowercase(s: &str) -> (r: String)
    ensures
        r@ == lowercase(s@),
{
    s.to_lowercase()
}

fn extension_list() -> (v: Vec<Vec<char>>)
    ensures
        v.len() == video_extensions().len(),
        forall|i: int| 0 <= i < v.len() ==> (#[trigger] v@[i])@ == video_extensions()[i],
{
    let v = vec![
        vec!['m', 'p', '4'],
        vec!['m', 'o', 'v'],
        vec!['a', 'v', 'i'],
        vec!['m', 'k', 'v'],
        vec!['m', 't', 's'],
        vec!['m', '2', 't', 's'],
        vec!['w', 'e', 'b', 'm'],
        vec!['i', 'n', 's', 'v'],
        vec!['l', 'r', 'v'],
        vec!['3', '6', '0'],
    ];
    assert(v@[0]@ =~= video_extensions()[0]);
    assert(v@[1]@ =~= video_extensions()[1]);
    assert(v@[2]@ =~= video_extensions()[2]);
    assert(v@[3]@ =~= video_extensions()[3]);
    assert(v@[4]@ =~= video_extensions()[4]);
    assert(v@[5]@ =~= video_extensions()[5]);
    assert(v@[6]@ =~= video_extensions()[6]);
    assert(v@[7]@ =~= video_extensions()[7]);
    assert(v@[8]@ =~= video_extensions()[8]);
    assert(v@[9]@ =~= video_extensions()[9]);
    v
}

fn chars_eq(a: &Vec<char>, b: &Vec<char>) -> (r: bool)
    ensures
        r == (a@ == b@),
{
    if a.len() != b.len() {
        return false;
    }
    let mut i: usize = 0;
    while i < a.len()
        invariant
            a.len() == b.len(),
            i <= a.len(),
            forall|k: int| 0 <= k < i ==> a@[k] == b@[k],
        decreases a.len() - i,
    {
        if a[i] != b[i] {
            return false;
        }
        i = i + 1;
    }
    assert(a@ =~= b@);
    true
}

/// Whether `lower` is one of the known video extensions (compared as it stands).
pub fn is_known_extension(lower: &str) -> (b: bool)
    ensures
        b == video_extensions().contains(lower@),
{
    let lc = chars_of(lower);
    let list = extension_list();
    let mut i: usize = 0;
    while i < list.len()
        invariant
            i <= list.len(),
            list.len() == video_extensions().len(),
            forall|j: int| 0 <= j < list.len() ==> (#[trigger] list@[j])@ == video_extensions()[j],
            lc@ == lower@,
            forall|k: int| 0 <= k < i ==> video_extensions()[k] != lower@,
        decreases list.len() - i,
    {
        if chars_eq(&list[i], &lc) {
            assert(video_extensions()[i as int] == lower@);
            return true;
        }
        i = i + 1;
    }
    proof {
        if video_extensions().contains(lower@) {
            let k = choose|k: int| 0 <= k < video_extensions().len() && video_extensions()[k] == lower@;
            assert(video_extensions()[k] != lower@);
        }
    }
    false
}

/// Whether a file with extension `ext` is a video file: its lowercase form is one of the
/// known video extensions.
pub fn is_video_extension(ext: &str) -> (b: bool)
    ensures
        b == video_extensions().contains(lowercase(ext@)),
{
    let low = to_lowercase(ext);
    is_known_extension(low.as_str())
}

/// The position of the last `.` in `s` (−1 when there is none).
pub open spec fn last_dot(s: Seq<char>) -> int
    decreases s.len(),
{
    if s.len() == 0 {
        -1
    } else if s.last() == '.' {
        s.len() - 1
    } else {
        last_dot(s.drop_last())
    }
}

/// The extension of a file name as `Path::extension` gives it: the text after the last
/// `.`, unless there is no `.`, the only `.` starts the name, or the name is `..`.
pub open spec fn extension_spec(name: Seq<char>) -> Option<Seq<char>> {
    if name == seq!['.', '.'] || last_dot(name) <= 0 {
        None
    } else {
        Some(name.skip(last_dot(name) + 1))
    }
}

/// The extension of the file name `file_name` (see `extension_spec`).
pub fn extension_of(file_name: &str) -> (r: Option<String>)
    ensures
        opt_view(r) == extension_spec(file_name@),
{
    let c = chars_of(file_name);
    let mut k: usize = c.len();
    assert(c@.take(k as int) =~= c@);
    while k > 0 && c[k - 1] != '.'
        invariant
            k <= c.len(),
            c@ == file_name@,
            last_dot(c@) == last_dot(c@.take(k as int)),
        decreases k,
    {
        assert(c@.take(k as int).drop_last() =~= c@.take(k - 1));
        k = k - 1;
    }
    proof {
        if k > 0 {
            assert(c@.take(k as int).last() == '.');
        } else {
            assert(c@.take(0) =~= Seq::<char>::empty());
        }
    }
    if k <= 1 || (c.len() == 2 && c[0] == '.' && c[1] == '.') {
        proof {
            if c.len() == 2 && c@[0] == '.' && c@[1] == '.' {
                assert(c@ =~= seq!['.', '.']);
            }
        }
        return None;
    }
    proof {
        if c@ == seq!['.', '.'] {
            assert(c@[0] == '.' && c@[1] == '.');
        }
    }
    let mut v: Vec<char> = Vec::new();
    let mut i: usize = k;
    while i < c.len()
        invariant
            k <= i <= c.len(),
            v@ == c@.subrange(k as int, i as int),
        decreases c.len() - i,
    {
        v.push(c[i]);
        assert(c@.subrange(k as int, i as int).push(c@[i as int]) =~= c@.subrange(k as int, i + 1));
        i = i + 1;
    }
    assert(c@.skip(k as int) =~= c@.subrange(k as int, c.len() as int));
    Some(string_of(&v))
}

/// The media type recorded for a video file: always `video`.
pub fn media_type_of(ext: &str) -> (r: String)
    ensures
        r@ == seq!['v', 'i', 'd', 'e', 'o'],
{
    let v = vec!['v', 'i', 'd', 'e', 'o'];
    assert(v@ =~= seq!['v', 'i', 'd', 'e', 'o']);
    string_of(&v)
}

/// The video extensions are exactly mp4, mov, avi, mkv, mts, m2ts, webm, insv, lrv and
/// 360 (compared in lowercase): each of them is known, and no other text is.
pub proof fn law_video_extensions(t: Seq<char>)
    ensures
        video_extensions().contains(t) <==> (t == seq!['m', 'p', '4'] || t == seq!['m', 'o', 'v'] || t
            == seq!['a', 'v', 'i'] || t == seq!['m', 'k', 'v'] || t == seq!['m', 't', 's'] || t == seq![
            'm',
            '2',
            't',
            's',
        ] || t == seq!['w', 'e', 'b', 'm'] || t == seq!['i', 'n', 's', 'v'] || t == seq!['l', 'r', 'v']
            || t == seq!['3', '6', '0']),
{
    let v = video_extensions();
    assert(v[0] == seq!['m', 'p', '4']);
    assert(v[1] == seq!['m', 'o', 'v']);
    assert(v[2] == seq!['a', 'v', 'i']);
    assert(v[3] == seq!['m', 'k', 'v']);
    assert(v[4] == seq!['m', 't', 's']);
    assert(v[5] == seq!['m', '2', 't', 's']);
    assert(v[6] == seq!['w', 'e', 'b', 'm']);
    assert(v[7] == seq!['i', 'n', 's', 'v']);
    assert(v[8] == seq!['l', 'r', 'v']);
    assert(v[9] == seq!['3', '6', '0']);
    if v.contains(t) {
        let i = choose|i: int| 0 <= i < v.len() && v[i] == t;
        assert(0 <= i < 10);
    }
}

proof fn lemma_last_dot(s: Seq<char>)
    ensures
        -1 <= last_dot(s) < s.len(),
        last_dot(s) >= 0 ==> s[last_dot(s)] == '.',
        forall|j: int| last_dot(s) < j < s.len() ==> s[j] != '.',
    decreases s.len(),
{
    if s.len() > 0 && s.last() != '.' {
        lemma_last_dot(s.drop_last());
        assert forall|j: int| last_dot(s) < j < s.len() implies s[j] != '.' by {
            if j < s.len() - 1 {
                assert(s.drop_last()[j] == s[j]);
            }
        }
    }
}

/// A file name has an extension exactly when it holds a `.` after its first character
/// and is not `..`; the extension is then what follows the last `.`, and holds no `.`.
pub proof fn law_extension_after_last_dot(name: Seq<char>)
    ensures
        match extension_spec(name) {
            Some(e) => {
                &&& e.len() + 1 < name.len()
                &&& name == name.take(name.len() - e.len() - 1) + seq!['.'] + e
                &&& forall|j: int| 0 <= j < e.len() ==> e[j] != '.'
            },
            None => name == seq!['.', '.'] || forall|j: int| 1 <= j < name.len() ==> name[j] != '.',
        },
{
    lemma_last_dot(name);
    let k = last_dot(name);
    if !(name == seq!['.', '.'] || k <= 0) {
        let e = name.skip(k + 1);
        assert(name =~= name.take(name.len() - e.len() - 1) + seq!['.'] + e);
        assert forall|j: int| 0 <= j < e.len() implies e[j] != '.' by {
            assert(e[j] == name[k + 1 + j]);
        }
    }
}

} // verus!
