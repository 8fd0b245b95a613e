//! Finding removable disks by their marker files and keeping the availability of the
//! registered disks up to date.
use vstd::prelude::*;
use crate::text::{str_eq, copy_str};
use crate::server::paths::marker_name;
use crate::server::paths::marker_file_name;
use crate::server::model::Disk;

verus! {

/// Whether the root directory of a disk, whose entries are named `root_entries`, holds
/// the marker file `.continuum-disk`.
pub fn has_marker(root_entries: &Vec<String>) -> (b: bool)
    ensures
        b == exists|i: int| 0 <= i < root_entries.len() && #[trigger] root_entries@[i]@ == marker_name(),
{
    let m = marker_file_name();
    let mut i: usize = 0;
    while i < root_entries.len()
        invariant
            i <= root_entries.len(),
            m@ == marker_name(),
            forall|k: int| 0 <= k < i ==> #[trigger] root_entries@[k]@ != marker_name(),
        decreases root_entries.len() - i,
    {
        if str_eq(root_entries[i].as_str(), m.as_str()) {
            return true;
        }
        i = i + 1;
    }
    false
}

/// The directories under which removable disks are mounted on Linux.
pub fn mount_search_roots() -> (r: Vec<String>)
    ensures
        r.len() == 2,
        r@[0]@ == seq!['/', 'm', 'n', 't'],
        r@[1]@ == seq!['/', 'm', 'e', 'd', 'i', 'a'],
{
    let mut a: Vec<char> = Vec::new();
    a.push('/');
    a.push('m');
    a.push('n');
    a.push('t');
    let mut b: Vec<char> = Vec::new();
    b.push('/');
    b.push('m');
    b.push('e');
    b.push('d');
    b.push('i');
    b.push('a');
    let mut r: Vec<String> = Vec::new();
    r.push(crate::text::string_of(&a));
    r.push(crate::text::string_of(&b));
    proof {
        assert(a@ =~= seq!['/', 'm', 'n', 't']);
        assert(b@ =~= seq!['/', 'm', 'e', 'd', 'i', 'a']);
    }
    r
}

/// The disks found among candidate directories, each given as its path and the disk id
/// read from its marker file (`None` where there is none or it cannot be read), in the
/// order of the candidates, as `(disk_id, path)`.
pub open spec fn found_disks(c: Seq<(String, Option<String>)>) -> Seq<(Seq<char>, Seq<char>)>
    decreases c.len(),
{
    if c.len() == 0 {
        Seq::empty()
    } else {
        let rest = found_disks(c.drop_last());
        match c.last().1 {
            Some(id) => rest.push((id@, c.last().0@)),
            None => rest,
        }
    }
}

/// The disks that carry a marker, as `(disk_id, mount_path)`, from the candidate
/// directories under the mount roots and what their marker files hold.
pub fn scan_physical_disks(candidates: &Vec<(String, Option<String>)>) -> (r: Vec<(String, String)>)
    ensures
        r.len() == found_disks(candidates@).len(),
        forall|i: int|
            0 <= i < r.len() ==> (#[trigger] r@[i]).0@ == found_disks(candidates@)[i].0 && r@[i].1@
                == found_disks(candidates@)[i].1,
{
    let mut r: Vec<(String, String)> = Vec::new();
    let mut i: usize = 0;
    while i < candidates.len()
        invariant
            i <= candidates.len(),
            r.len() == found_disks(candidates@.take(i as int)).len(),
            forall|k: int|
                0 <= k < r.len() ==> (#[trigger] r@[k]).0@ == found_disks(candidates@.take(i as int))[k].0
                    && r@[k].1@ == found_disks(candidates@.take(i as int))[k].1,
        decreases candidates.len() - i,
    {
        assert(candidates@.take(i + 1).drop_last() =~= candidates@.take(i as int));
        match &candidates[i].1 {
            Some(id) => {
                r.push((copy_str(id.as_str()), copy_str(candidates[i].0.as_str())));
            },
            None => {},
        }
        i = i + 1;
    }
    assert(candidates@.take(candidates.len() as int) =~= candidates@);
    r
}

/// The mount path under which the disk `id` was first found, if it was.
pub open spec fn first_found_path(found: Seq<(String, String)>, id: Seq<char>) -> Option<Seq<char>>
    decreases found.len(),
{
    if found.len() == 0 {
        None
    } else if found[0].0@ == id {
        Some(found[0].1@)
    } else {
        first_found_path(found.drop_first(), id)
    }
}

/// A change of a disk record: its availability and, where given, its new mount path.
pub struct DiskUpdate {
    pub disk_id: String,
    pub available: bool,
    pub new_path: Option<String>,
}

/// What a disk update says, as plain values.
pub open spec fn update_view(u: DiskUpdate) -> (Seq<char>, bool, Option<Seq<char>>) {
    (u.disk_id@, u.available, match u.new_path {
        Some(p) => Some(p@),
        None => None,
    })
}

/// The update that synchronization makes to one disk record: a removable disk is
/// available, at the path where it was found, exactly when its marker was found; a fixed
/// disk is available exactly when its mount path exists; other records are left alone.
pub open spec fn planned_update(d: Disk, found: Seq<(String, String)>, path_exists: bool) -> Option<
    (Seq<char>, bool, Option<Seq<char>>),
> {
    if d.disk_type@ == seq!['r', 'e', 'm', 'o', 'v', 'a', 'b', 'l', 'e'] {
        match first_found_path(found, d.disk_id@) {
            Some(p) => Some((d.disk_id@, true, Some(p))),
            None => Some((d.disk_id@, false, None)),
        }
    } else if d.disk_type@ == seq!['f', 'i', 'x', 'e', 'd'] {
        Some((d.disk_id@, path_exists, None))
    } else {
        None
    }
}

fn find_found_path(found: &Vec<(String, String)>, id: &str) -> (r: Option<String>)
    ensures
        match r {
            Some(p) => first_found_path(found@, id@) == Some(p@),
            None => first_found_path(found@, id@) is None,
        },
{
    let mut i: usize = 0;
    assert(found@.skip(0) =~= found@);
    while i < found.len()
        invariant
            i <= found.len(),
            first_found_path(found@, id@) == first_found_path(found@.skip(i as int), id@),
        decreases found.len() - i,
    {
        assert(found@.skip(i as int).drop_first() =~= found@.skip(i + 1));
        if str_eq(found[i].0.as_str(), id) {
            return Some(copy_str(found[i].1.as_str()));
        }
        i = i + 1;
    }
    None
}

/// The update of every registered disk (in the order of `disks`), from the disks found
/// by their markers and, for each registered disk, whether its mount path exists.
pub fn plan_disk_sync(
    found: &Vec<(String, String)>,
    disks: &Vec<Disk>,
    path_exists: &Vec<bool>,
) -> (r: Vec<Option<DiskUpdate>>)
    requires
        disks.len() == path_exists.len(),
    ensures
        r.len() == disks.len(),
        forall|i: int|
            0 <= i < r.len() ==> match #[trigger] r@[i] {
                Some(u) => planned_update(disks@[i], found@, path_exists@[i]) == Some(update_view(u)),
                None => planned_update(disks@[i], found@, path_exists@[i]) is None,
            },
{
    let removable = crate::text::string_of(&removable_chars());
    let fixed = crate::text::string_of(&fixed_chars());
    let mut r: Vec<Option<DiskUpdate>> = Vec::new();
    let mut i: usize = 0;
    while i < disks.len()
        invariant
            i <= disks.len(),
            disks.len() == path_exists.len(),
            removable@ == seq!['r', 'e', 'm', 'o', 'v', 'a', 'b', 'l', 'e'],
            fixed@ == seq!['f', 'i', 'x', 'e', 'd'],
            r.len() == i,
            forall|k: int|
                0 <= k < i ==> match #[trigger] r@[k] {
                    Some(u) => planned_update(disks@[k], found@, path_exists@[k]) == Some(update_view(u)),
                    None => planned_update(disks@[k], found@, path_exists@[k]) is None,
                },
        decreases disks.len() - i,
    {
        let d = &disks[i];
        let u = if str_eq(d.disk_type.as_str(), removable.as_str()) {
            match find_found_path(found, d.disk_id.as_str()) {
                Some(p) => Some(DiskUpdate { disk_id: copy_str(d.disk_id.as_str()), available: true, new_path: Some(p) }),
                None => Some(DiskUpdate { disk_id: copy_str(d.disk_id.as_str()), available: false, new_path: None }),
            }
        } else if str_eq(d.disk_type.as_str(), fixed.as_str()) {
            Some(DiskUpdate { disk_id: copy_str(d.disk_id.as_str()), available: path_exists[i], new_path: None })
        } else {
            None
        };
        r.push(u);
        i = i + 1;
    }
    r
}

fn removable_chars() -> (v: Vec<char>)
    ensures
        v@ == seq!['r', 'e', 'm', 'o', 'v', 'a', 'b', 'l', 'e'],
{
    let v = vec!['r', 'e', 'm', 'o', 'v', 'a', 'b', 'l', 'e'];
    assert(v@ =~= seq!['r', 'e', 'm', 'o', 'v', 'a', 'b', 'l', 'e']);
    v
}

fn fixed_chars() -> (v: Vec<char>)
    ensures
        v@ == seq!['f', 'i', 'x', 'e', 'd'],
{
    let v = vec!['f', 'i', 'x', 'e', 'd'];
    assert(v@ =~= seq!['f', 'i', 'x', 'e', 'd']);
    v
}

} // verus!
