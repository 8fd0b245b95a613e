//! How the command-line client chooses among the disks and media roots that match what
//! the user typed.
use vstd::prelude::*;
use crate::cli::model::{DiskInfo, RootInfo};
use crate::server::paths::{drive_prefix, sep};
use crate::text::{chars_of, copy_str, str_eq};

verus! {

/// How many entries matched: none, exactly one, or several (then the user is asked to be
/// more precise).
pub enum Pick {
    NoMatch,
    One,
    Many,
}

/// Which case `n` matches fall under.
pub fn pick(n: usize) -> (p: Pick)
    ensures
        n == 0 ==> p == Pick::NoMatch,
        n == 1 ==> p == Pick::One,
        n > 1 ==> p == Pick::Many,
{
    if n == 0 {
        Pick::NoMatch
    } else if n == 1 {
        Pick::One
    } else {
        Pick::Many
    }
}

/// `needle` occurs in `hay` (`str::contains`; the empty text occurs everywhere).
pub open spec fn contains_text(hay: Seq<char>, needle: Seq<char>) -> bool {
    exists|i: int|
        0 <= i && i + needle.len() <= hay.len() && #[trigger] hay.subrange(i, i + needle.len()) == needle
}

/// `hay` starts with `prefix` (`str::starts_with`).
pub open spec fn starts_with_text(hay: Seq<char>, prefix: Seq<char>) -> bool {
    prefix.len() <= hay.len() && hay.subrange(0, prefix.len() as int) == prefix
}

fn matches_at(h: &Vec<char>, n: &Vec<char>, i: usize) -> (b: bool)
    requires
        i + n.len() <= h.len(),
    ensures
        b == (h@.subrange(i as int, i + n.len()) == n@),
{
    let mut k: usize = 0;
    while k < n.len()
        invariant
            i + n.len() <= h.len(),
            k <= n.len(),
            forall|j: int| 0 <= j < k ==> h@[i + j] == n@[j],
        decreases n.len() - k,
    {
        if h[i + k] != n[k] {
            assert(h@.subrange(i as int, i + n.len())[k as int] != n@[k as int]);
            return false;
        }
        k = k + 1;
    }
    assert(h@.subrange(i as int, i + n.len()) =~= n@);
    true
}

/// Whether `needle` occurs in `hay`.
pub fn text_contains(hay: &str, needle: &str) -> (b: bool)
    ensures
        b == contains_text(hay@, needle@),
{
    let h = chars_of(hay);
    let n = chars_of(needle);
    if n.len() > h.len() {
        return false;
    }
    let last = h.len() - n.len();
    let mut i: usize = 0;
    loop
        invariant
            h@ == hay@,
            n@ == needle@,
            last == h.len() - n.len(),
            i <= last,
            forall|j: int| 0 <= j < i ==> #[trigger] hay@.subrange(j, j + needle@.len()) != needle@,
        decreases last - i,
    {
        if matches_at(&h, &n, i) {
            return true;
        }
        if i == last {
            return false;
        }
        i = i + 1;
    }
}

/// Whether `hay` starts with `prefix`.
pub fn text_starts_with(hay: &str, prefix: &str) -> (b: bool)
    ensures
        b == starts_with_text(hay@, prefix@),
{
    let h = chars_of(hay);
    let p = chars_of(prefix);
    if p.len() > h.len() {
        return false;
    }
    matches_at(&h, &p, 0)
}

/// The media roots whose relative path contains `contains`, in their order.
pub open spec fn matching_roots(roots: Seq<RootInfo>, contains: Seq<char>) -> Seq<int>
    decreases roots.len(),
{
    if roots.len() == 0 {
        Seq::empty()
    } else {
        let p = matching_roots(roots.drop_last(), contains);
        if contains_text(roots.last().relative_path@, contains) {
            p.push(roots.len() - 1)
        } else {
            p
        }
    }
}

/// The positions of the media roots whose relative path contains `contains`
/// (the roots among which `roots use` chooses).
pub fn match_roots(roots: &Vec<RootInfo>, contains: &str) -> (r: Vec<usize>)
    ensures
        r@.len() == matching_roots(roots@, contains@).len(),
        forall|k: int| 0 <= k < r.len() ==> #[trigger] r@[k] as int == matching_roots(roots@, contains@)[k],
{
    let mut r: Vec<usize> = Vec::new();
    let mut i: usize = 0;
    while i < roots.len()
        invariant
            i <= roots.len(),
            r@.len() == matching_roots(roots@.take(i as int), contains@).len(),
            forall|k: int|
                0 <= k < r.len() ==> #[trigger] r@[k] as int == matching_roots(
                    roots@.take(i as int),
                    contains@,
                )[k],
        decreases roots.len() - i,
    {
        assert(roots@.take(i + 1).drop_last() =~= roots@.take(i as int));
        if text_contains(roots[i].relative_path.as_str(), contains) {
            r.push(i);
        }
        i = i + 1;
    }
    assert(roots@.take(roots.len() as int) =~= roots@);
    r
}

/// The first media root with the id `id`.
pub fn find_root(roots: &Vec<RootInfo>, id: &str) -> (r: Option<usize>)
    ensures
        match r {
            Some(i) => i < roots.len() && roots@[i as int].id@ == id@ && forall|k: int|
                0 <= k < i ==> #[trigger] roots@[k].id@ != id@,
            None => forall|k: int| 0 <= k < roots.len() ==> #[trigger] roots@[k].id@ != id@,
        },
{
    let mut i: usize = 0;
    while i < roots.len()
        invariant
            i <= roots.len(),
            forall|k: int| 0 <= k < i ==> #[trigger] roots@[k].id@ != id@,
        decreases roots.len() - i,
    {
        if str_eq(roots[i].id.as_str(), id) {
            return Some(i);
        }
        i = i + 1;
    }
    None
}

/// A disk can hold the current folder as a media root when it is fixed, available and
/// its mount path starts the current folder's path.
pub open spec fn is_candidate(d: DiskInfo, current_dir: Seq<char>) -> bool {
    &&& d.disk_type@ == seq!['f', 'i', 'x', 'e', 'd']
    &&& d.is_available
    &&& starts_with_text(current_dir, d.mount_path@)
}

/// The disks that can hold the current folder, in their order.
pub open spec fn candidates(disks: Seq<DiskInfo>, current_dir: Seq<char>) -> Seq<int>
    decreases disks.len(),
{
    if disks.len() == 0 {
        Seq::empty()
    } else {
        let p = candidates(disks.drop_last(), current_dir);
        if is_candidate(disks.last(), current_dir) {
            p.push(disks.len() - 1)
        } else {
            p
        }
    }
}

/// The positions of the disks on which the current folder can become a media root.
pub fn candidate_disks(disks: &Vec<DiskInfo>, current_dir: &str) -> (r: Vec<usize>)
    ensures
        r@.len() == candidates(disks@, current_dir@).len(),
        forall|k: int| 0 <= k < r.len() ==> #[trigger] r@[k] as int == candidates(disks@, current_dir@)[k],
{
    let fixed = crate::server::api::fixed_type_text();
    let mut r: Vec<usize> = Vec::new();
    let mut i: usize = 0;
    while i < disks.len()
        invariant
            i <= disks.len(),
            fixed@ == seq!['f', 'i', 'x', 'e', 'd'],
            r@.len() == candidates(disks@.take(i as int), current_dir@).len(),
            forall|k: int|
                0 <= k < r.len() ==> #[trigger] r@[k] as int == candidates(
                    disks@.take(i as int),
                    current_dir@,
                )[k],
        decreases disks.len() - i,
    {
        assert(disks@.take(i + 1).drop_last() =~= disks@.take(i as int));
        let d = &disks[i];
        if str_eq(d.disk_type.as_str(), fixed.as_str()) && d.is_available && text_starts_with(
            current_dir,
            d.mount_path.as_str(),
        ) {
            r.push(i);
        }
        i = i + 1;
    }
    assert(disks@.take(disks.len() as int) =~= disks@);
    r
}

/// The disk type that the registration wizard proposes, as a position in
/// `[fixed, removable]`: removable (1) for a drive letter path ending in `:` or a path
/// under `/mnt/`, fixed (0) otherwise.
pub fn default_disk_type_index(mount_path: &str) -> (i: usize)
    ensures
        i == if (mount_path@.len() > 0 && mount_path@.last() == ':') || starts_with_text(
            mount_path@,
            seq!['/', 'm', 'n', 't', '/'],
        ) {
            1usize
        } else {
            0usize
        },
{
    let v = chars_of(mount_path);
    let mnt = vec!['/', 'm', 'n', 't', '/'];
    let under_mnt = mnt.len() <= v.len() && matches_at(&v, &mnt, 0);
    proof {
        assert(mnt@ =~= seq!['/', 'm', 'n', 't', '/']);
    }
    if (v.len() > 0 && v[v.len() - 1] == ':') || under_mnt {
        1
    } else {
        0
    }
}

/// The last component of a path as `Path::file_name` gives it: on Windows (`w`) after a
/// drive prefix, with both separators (see `file_name`). A Windows path that begins with
/// two separators (a UNC, verbatim or device prefix) is read here as ordinary
/// separators and pieces.
pub open spec fn file_name_on(p: Seq<char>, w: bool) -> Option<Seq<char>> {
    if w && drive_prefix(p) {
        file_name(p.skip(2), w)
    } else {
        file_name(p, w)
    }
}

/// The last component of a path without a prefix: the last segment between separators
/// that is neither empty nor `.`; none when there is no such segment
/// or it is `..`.
pub open spec fn file_name(p: Seq<char>, w: bool) -> Option<Seq<char>>
    decreases p.len(),
{
    let e = last_segment_end(p, w);
    if e <= 0 {
        None
    } else {
        proof {
            lemma_segment_bounds(p, e, w);
        }
        let s = last_segment_start(p, e, w);
        let seg = p.subrange(s, e);
        if seg == seq!['.'] {
            file_name(p.subrange(0, s), w)
        } else if seg == seq!['.', '.'] {
            None
        } else {
            Some(seg)
        }
    }
}

/// One past the last character of `p` that is not `/` (0 when there is none).
pub open spec fn last_segment_end(p: Seq<char>, w: bool) -> int
    decreases p.len(),
{
    if p.len() == 0 {
        0
    } else if sep(p.last(), w) {
        last_segment_end(p.drop_last(), w)
    } else {
        p.len() as int
    }
}

/// Where the segment that ends at `e` starts: just after the last `/` before `e`.
pub open spec fn last_segment_start(p: Seq<char>, e: int, w: bool) -> int
    decreases e,
{
    if e <= 0 {
        0
    } else if sep(p[e - 1], w) {
        e
    } else {
        last_segment_start(p, e - 1, w)
    }
}

proof fn lemma_segment_end_bound(p: Seq<char>, w: bool)
    ensures
        0 <= last_segment_end(p, w) <= p.len(),
        last_segment_end(p, w) > 0 ==> !sep(p[last_segment_end(p, w) - 1], w),
    decreases p.len(),
{
    if p.len() > 0 && sep(p.last(), w) {
        lemma_segment_end_bound(p.drop_last(), w);
    }
}

proof fn lemma_segment_start_bound(p: Seq<char>, e: int, w: bool)
    ensures
        e >= 0 ==> 0 <= last_segment_start(p, e, w) <= e,
    decreases e,
{
    if e > 0 && !sep(p[e - 1], w) {
        lemma_segment_start_bound(p, e - 1, w);
    }
}

/// The segment that `file_name` looks at lies inside the path.
pub proof fn lemma_segment_bounds(p: Seq<char>, e: int, w: bool)
    requires
        e == last_segment_end(p, w),
        e > 0,
    ensures
        0 <= last_segment_start(p, e, w) < e <= p.len(),
{
    lemma_segment_end_bound(p, w);
    lemma_segment_start_bound(p, e - 1, w);
}

fn file_name_in(v: &Vec<char>, w: bool) -> (r: Option<String>)
    ensures
        crate::folders::opt_view(r) == file_name(v@, w),
{
    let ghost path = v@;
    let mut end: usize = v.len();
    assert(v@.take(end as int) =~= v@);
    loop
        invariant
            end <= v.len(),
            v@ == path,
            file_name(path, w) == file_name(v@.take(end as int), w),
        decreases end,
    {
        let ghost t = v@.take(end as int);
        let mut e = end;
        assert(t.take(e as int) =~= t);
        while e > 0 && (v[e - 1] == '/' || (w && v[e - 1] == '\\'))
            invariant
                e <= end <= v.len(),
                t == v@.take(end as int),
                last_segment_end(t, w) == last_segment_end(t.take(e as int), w),
            decreases e,
        {
            assert(t.take(e as int).drop_last() =~= t.take(e - 1));
            e = e - 1;
        }
        assert(last_segment_end(t.take(e as int), w) == e);
        if e == 0 {
            return None;
        }
        let mut s = e;
        while s > 0 && !(v[s - 1] == '/' || (w && v[s - 1] == '\\'))
            invariant
                s <= e <= end <= v.len(),
                t == v@.take(end as int),
                last_segment_start(t, e as int, w) == last_segment_start(t, s as int, w),
            decreases s,
        {
            s = s - 1;
        }
        proof {
            lemma_segment_bounds(t, e as int, w);
            assert(t.subrange(s as int, e as int) =~= v@.subrange(s as int, e as int));
            assert(t.subrange(0, s as int) =~= v@.take(s as int));
        }
        if e - s == 1 && v[s] == '.' {
            assert(v@.subrange(s as int, e as int) =~= seq!['.']);
            end = s;
        } else if e - s == 2 && v[s] == '.' && v[s + 1] == '.' {
            assert(v@.subrange(s as int, e as int) =~= seq!['.', '.']);
            return None;
        } else {
            proof {
                if e - s == 1 {
                    assert(v@.subrange(s as int, e as int)[0] != '.');
                }
                if e - s == 2 {
                    assert(v@.subrange(s as int, e as int)[0] != '.' || v@.subrange(s as int, e as int)[1] != '.');
                }
            }
            let mut seg: Vec<char> = Vec::new();
            let mut k = s;
            while k < e
                invariant
                    s <= k <= e <= v.len(),
                    seg@ == v@.subrange(s as int, k as int),
                decreases e - k,
            {
                seg.push(v[k]);
                assert(v@.subrange(s as int, k as int).push(v@[k as int]) =~= v@.subrange(s as int, k + 1));
                k = k + 1;
            }
            return Some(crate::text::string_of(&seg));
        }
    }
}

/// The last component of a path (`Path::file_name`; see `file_name_on`); `windows` says
/// whether the client runs on Windows.
pub fn file_name_of(path: &str, windows: bool) -> (r: Option<String>)
    ensures
        crate::folders::opt_view(r) == file_name_on(path@, windows),
{
    let v = chars_of(path);
    if windows && v.len() >= 2 && v[1] == ':' && (('a' <= v[0] && v[0] <= 'z') || ('A' <= v[0] && v[0] <= 'Z')) {
        let mut rest: Vec<char> = Vec::new();
        let mut i: usize = 2;
        while i < v.len()
            invariant
                2 <= i <= v.len(),
                rest@ == v@.subrange(2, i as int),
            decreases v.len() - i,
        {
            rest.push(v[i]);
            assert(v@.subrange(2, i as int).push(v@[i as int]) =~= v@.subrange(2, i + 1));
            i = i + 1;
        }
        assert(rest@ =~= path@.skip(2));
        file_name_in(&rest, windows)
    } else {
        file_name_in(&v, windows)
    }
}

/// The label that the registration wizard proposes for a disk: the last component of its
/// path, or `Disk` when the path has none.
pub fn default_label(mount_path: &str, windows: bool) -> (r: String)
    ensures
        r@ == match file_name_on(mount_path@, windows) {
            Some(n) => n,
            None => seq!['D', 'i', 's', 'k'],
        },
{
    match file_name_of(mount_path, windows) {
        Some(n) => n,
        None => {
            let v = vec!['D', 'i', 's', 'k'];
            assert(v@ =~= seq!['D', 'i', 's', 'k']);
            crate::text::string_of(&v)
        },
    }
}

} // verus!
