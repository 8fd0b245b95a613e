//! The tables in which the command-line client lists disks and media roots.
use vstd::prelude::*;
use crate::cli::model::{DiskInfo, RootInfo};
use crate::text::{chars_of, string_of, str_eq};

verus! {

/// `n` spaces.
pub open spec fn spaces(n: nat) -> Seq<char> {
    Seq::new(n, |i: int| ' ')
}

/// The text left-aligned in a field of `width` characters (`{:<width}`): followed by
/// spaces up to the width, unchanged when it is already as wide.
pub open spec fn pad(s: Seq<char>, width: nat) -> Seq<char> {
    if s.len() >= width {
        s
    } else {
        s + spaces((width - s.len()) as nat)
    }
}

/// `n` dashes.
pub open spec fn rule(n: nat) -> Seq<char> {
    Seq::new(n, |i: int| '-')
}

/// The mark of the active entry: `*` for the active one, a space for the others.
pub open spec fn mark(active: bool) -> Seq<char> {
    if active {
        seq!['*']
    } else {
        seq![' ']
    }
}

/// Whether `id` is the active id.
pub open spec fn is_active(id: Seq<char>, active: Option<Seq<char>>) -> bool {
    active == Some(id)
}

/// The header line of the disk table.
pub open spec fn disk_header() -> Seq<char> {
    pad(seq![], 1) + seq![' '] + pad("ID"@, 36) + seq![' '] + pad("LABEL"@, 20) + seq![' '] + pad(
        "PATH"@,
        30,
    ) + seq![' '] + pad("TYPE"@, 10) + seq![' '] + pad("AVAILABLE"@, 10)
}

/// The line of one disk in the disk table.
pub open spec fn disk_row(d: DiskInfo, active: Option<Seq<char>>) -> Seq<char> {
    pad(mark(is_active(d.disk_id@, active)), 1) + seq![' '] + pad(d.disk_id@, 36) + seq![' '] + pad(
        d.label@,
        20,
    ) + seq![' '] + pad(d.mount_path@, 30) + seq![' '] + pad(d.disk_type@, 10) + seq![' '] + pad(
        if d.is_available {
            "[OK]"@
        } else {
            "[--]"@
        },
        10,
    )
}

/// The lines that list the disks: a note when there are none, else the header, a rule of
/// 108 dashes and one line per disk, the active one marked with `*`.
pub open spec fn disk_table(disks: Seq<DiskInfo>, active: Option<Seq<char>>) -> Seq<Seq<char>> {
    if disks.len() == 0 {
        seq!["Нет зарегистрированных дисков"@]
    } else {
        seq![disk_header(), rule(108)] + Seq::new(disks.len(), |i: int| disk_row(disks[i], active))
    }
}

/// The header line of the media root table.
pub open spec fn root_header() -> Seq<char> {
    pad(seq![' '], 1) + seq![' '] + pad("ID"@, 36) + seq![' '] + pad("PATH"@, 30)
}

/// The line of one media root in the media root table.
pub open spec fn root_row(r: RootInfo, active: Option<Seq<char>>) -> Seq<char> {
    pad(mark(is_active(r.id@, active)), 1) + seq![' '] + pad(r.id@, 36) + seq![' '] + pad(
        r.relative_path@,
        30,
    )
}

/// The lines that list the media roots of a disk: a note when there are none, else the
/// header, a rule of 68 dashes and one line per root, the active one marked with `*`.
pub open spec fn root_table(roots: Seq<RootInfo>, active: Option<Seq<char>>) -> Seq<Seq<char>> {
    if roots.len() == 0 {
        seq!["Нет медиа-папок для диска"@]
    } else {
        seq![root_header(), rule(68)] + Seq::new(roots.len(), |i: int| root_row(roots[i], active))
    }
}

/// The view of an optional text given by reference.
pub open spec fn opt_str_view(o: Option<&str>) -> Option<Seq<char>> {
    match o {
        Some(s) => Some(s@),
        None => None,
    }
}

fn push_seq(buf: &mut Vec<char>, s: &Vec<char>)
    ensures
        final(buf)@ == old(buf)@ + s@,
{
    let ghost start = buf@;
    let mut i: usize = 0;
    while i < s.len()
        invariant
            i <= s.len(),
            buf@ == start + s@.take(i as int),
        decreases s.len() - i,
    {
        buf.push(s[i]);
        assert(s@.take(i as int).push(s@[i as int]) =~= s@.take(i + 1));
        i = i + 1;
    }
    assert(s@.take(s.len() as int) =~= s@);
}

fn push_repeat(buf: &mut Vec<char>, c: char, n: usize)
    ensures
        final(buf)@ == old(buf)@ + Seq::new(n as nat, |i: int| c),
{
    let ghost start = buf@;
    let mut i: usize = 0;
    while i < n
        invariant
            i <= n,
            buf@ == start + Seq::new(i as nat, |k: int| c),
        decreases n - i,
    {
        buf.push(c);
        assert(Seq::new(i as nat, |k: int| c).push(c) =~= Seq::new((i + 1) as nat, |k: int| c));
        i = i + 1;
    }
}

fn push_padded(buf: &mut Vec<char>, s: &str, width: usize)
    ensures
        final(buf)@ == old(buf)@ + pad(s@, width as nat),
{
    let v = chars_of(s);
    push_seq(buf, &v);
    if v.len() < width {
        push_repeat(buf, ' ', width - v.len());
        assert(spaces((width - v.len()) as nat) =~= Seq::new((width - v.len()) as nat, |i: int| ' '));
    }
}

fn text_mark(active: bool) -> (r: &'static str)
    ensures
        r@ == mark(active),
{
    proof {
        reveal_strlit("*");
        reveal_strlit(" ");
    }
    if active {
        "*"
    } else {
        " "
    }
}

fn id_is_active(id: &String, active: Option<&str>) -> (b: bool)
    ensures
        b == is_active(id@, opt_str_view(active)),
{
    match active {
        Some(a) => str_eq(id.as_str(), a),
        None => false,
    }
}

/// The line of one disk in the disk table.
pub fn disk_line(d: &DiskInfo, active_disk_id: Option<&str>) -> (r: String)
    ensures
        r@ == disk_row(*d, opt_str_view(active_disk_id)),
{
    let mut b: Vec<char> = Vec::new();
    push_padded(&mut b, text_mark(id_is_active(&d.disk_id, active_disk_id)), 1);
    b.push(' ');
    push_padded(&mut b, d.disk_id.as_str(), 36);
    b.push(' ');
    push_padded(&mut b, d.label.as_str(), 20);
    b.push(' ');
    push_padded(&mut b, d.mount_path.as_str(), 30);
    b.push(' ');
    push_padded(&mut b, d.disk_type.as_str(), 10);
    b.push(' ');
    push_padded(&mut b, if d.is_available { "[OK]" } else { "[--]" }, 10);
    string_of(&b)
}

fn disk_header_line() -> (r: String)
    ensures
        r@ == disk_header(),
{
    let mut b: Vec<char> = Vec::new();
    push_padded(&mut b, "", 1);
    b.push(' ');
    push_padded(&mut b, "ID", 36);
    b.push(' ');
    push_padded(&mut b, "LABEL", 20);
    b.push(' ');
    push_padded(&mut b, "PATH", 30);
    b.push(' ');
    push_padded(&mut b, "TYPE", 10);
    b.push(' ');
    push_padded(&mut b, "AVAILABLE", 10);
    proof {
        reveal_strlit("");
        assert(""@ =~= Seq::<char>::empty());
    }
    string_of(&b)
}

fn rule_line(n: usize) -> (r: String)
    ensures
        r@ == rule(n as nat),
{
    let mut b: Vec<char> = Vec::new();
    push_repeat(&mut b, '-', n);
    assert(b@ =~= rule(n as nat));
    string_of(&b)
}

/// The lines that `print_disks` writes for the disks, the active one marked.
pub fn disk_lines(disks: &Vec<DiskInfo>, active_disk_id: Option<&str>) -> (r: Vec<String>)
    ensures
        r.len() == disk_table(disks@, opt_str_view(active_disk_id)).len(),
        forall|i: int|
            0 <= i < r.len() ==> (#[trigger] r@[i])@ == disk_table(disks@, opt_str_view(active_disk_id))[i],
{
    let ghost t = disk_table(disks@, opt_str_view(active_disk_id));
    let mut r: Vec<String> = Vec::new();
    if disks.len() == 0 {
        r.push(crate::text::copy_str("Нет зарегистрированных дисков"));
        return r;
    }
    r.push(disk_header_line());
    r.push(rule_line(108));
    let mut i: usize = 0;
    while i < disks.len()
        invariant
            i <= disks.len(),
            disks.len() > 0,
            t == disk_table(disks@, opt_str_view(active_disk_id)),
            r.len() == i + 2,
            forall|k: int| 0 <= k < r.len() ==> (#[trigger] r@[k])@ == t[k],
        decreases disks.len() - i,
    {
        r.push(disk_line(&disks[i], active_disk_id));
        i = i + 1;
    }
    r
}

/// The line of one media root in the media root table.
pub fn root_line(root: &RootInfo, active_root_id: Option<&str>) -> (r: String)
    ensures
        r@ == root_row(*root, opt_str_view(active_root_id)),
{
    let mut b: Vec<char> = Vec::new();
    push_padded(&mut b, text_mark(id_is_active(&root.id, active_root_id)), 1);
    b.push(' ');
    push_padded(&mut b, root.id.as_str(), 36);
    b.push(' ');
    push_padded(&mut b, root.relative_path.as_str(), 30);
    string_of(&b)
}

fn root_header_line() -> (r: String)
    ensures
        r@ == root_header(),
{
    let mut b: Vec<char> = Vec::new();
    push_padded(&mut b, " ", 1);
    b.push(' ');
    push_padded(&mut b, "ID", 36);
    b.push(' ');
    push_padded(&mut b, "PATH", 30);
    proof {
        reveal_strlit(" ");
    }
    string_of(&b)
}

/// The lines that `print_roots` writes for the media roots, the active one marked.
pub fn root_lines(roots: &Vec<RootInfo>, active_root_id: Option<&str>) -> (r: Vec<String>)
    ensures
        r.len() == root_table(roots@, opt_str_view(active_root_id)).len(),
        forall|i: int|
            0 <= i < r.len() ==> (#[trigger] r@[i])@ == root_table(roots@, opt_str_view(active_root_id))[i],
{
    let ghost t = root_table(roots@, opt_str_view(active_root_id));
    let mut r: Vec<String> = Vec::new();
    if roots.len() == 0 {
        r.push(crate::text::copy_str("Нет медиа-папок для диска"));
        return r;
    }
    r.push(root_header_line());
    r.push(rule_line(68));
    let mut i: usize = 0;
    while i < roots.len()
        invariant
            i <= roots.len(),
            roots.len() > 0,
            t == root_table(roots@, opt_str_view(active_root_id)),
            r.len() == i + 2,
            forall|k: int| 0 <= k < r.len() ==> (#[trigger] r@[k])@ == t[k],
        decreases roots.len() - i,
    {
        r.push(root_line(&roots[i], active_root_id));
        i = i + 1;
    }
    r
}

/// The columns of the disk table line up: when each field fits its column, a disk's line
/// is exactly as wide as the header (112 characters).
pub proof fn law_disk_rows_align(d: DiskInfo, active: Option<Seq<char>>)
    requires
        d.disk_id@.len() <= 36,
        d.label@.len() <= 20,
        d.mount_path@.len() <= 30,
        d.disk_type@.len() <= 10,
    ensures
        disk_row(d, active).len() == 112,
        disk_header().len() == 112,
{
    reveal_strlit("ID");
    reveal_strlit("LABEL");
    reveal_strlit("PATH");
    reveal_strlit("TYPE");
    reveal_strlit("AVAILABLE");
    reveal_strlit("[OK]");
    reveal_strlit("[--]");
}

/// The columns of the media root table line up: when id and path fit their columns, a
/// root's line is exactly as wide as the header (69 characters).
pub proof fn law_root_rows_align(r: RootInfo, active: Option<Seq<char>>)
    requires
        r.id@.len() <= 36,
        r.relative_path@.len() <= 30,
    ensures
        root_row(r, active).len() == 69,
        root_header().len() == 69,
{
    reveal_strlit("ID");
    reveal_strlit("PATH");
}

/// The width a field of `width` columns takes for a text of length `len`: the width, or
/// the text's length when it is longer (fields are padded, never cut).
pub open spec fn field_width(len: nat, width: nat) -> nat {
    if len >= width {
        len
    } else {
        width
    }
}

proof fn lemma_pad(s: Seq<char>, width: nat)
    ensures
        pad(s, width).len() == field_width(s.len(), width),
        pad(s, width).subrange(0, s.len() as int) == s,
        forall|j: int| s.len() <= j < pad(s, width).len() ==> pad(s, width)[j] == ' ',
{
    if s.len() < width {
        assert(pad(s, width).subrange(0, s.len() as int) =~= s);
    } else {
        assert(s.subrange(0, s.len() as int) =~= s);
    }
}

/// A field `f` stands in `line` from `at` on: its full text, then spaces up to the
/// field's width.
pub open spec fn field_at(line: Seq<char>, at: int, f: Seq<char>, width: nat) -> bool {
    &&& at + field_width(f.len(), width) <= line.len()
    &&& line.subrange(at, at + f.len()) == f
    &&& forall|j: int| at + f.len() <= j < at + field_width(f.len(), width) ==> line[j] == ' '
}

proof fn lemma_field_in(pre: Seq<char>, s: Seq<char>, width: nat, post: Seq<char>)
    ensures
        field_at(pre + pad(s, width) + post, pre.len() as int, s, width),
{
    lemma_pad(s, width);
    let line = pre + pad(s, width) + post;
    let at = pre.len() as int;
    assert(line.subrange(at, at + s.len()) =~= pad(s, width).subrange(0, s.len() as int));
    assert forall|j: int| at + s.len() <= j < at + field_width(s.len(), width) implies line[j] == ' ' by {
        assert(line[j] == pad(s, width)[j - at]);
    }
}

/// A disk's line shows each of its fields whole, in its column: the id after the mark,
/// then the label, then the mount path, then the type, each only padded with spaces to
/// its width and separated by one space, never shortened, whatever its length.
pub proof fn law_disk_row_fields_whole(d: DiskInfo, active: Option<Seq<char>>)
    ensures
        ({
            let line = disk_row(d, active);
            let id_at = 2int;
            let label_at = id_at + field_width(d.disk_id@.len(), 36) + 1;
            let path_at = label_at + field_width(d.label@.len(), 20) + 1;
            let type_at = path_at + field_width(d.mount_path@.len(), 30) + 1;
            &&& field_at(line, id_at, d.disk_id@, 36)
            &&& field_at(line, label_at, d.label@, 20)
            &&& field_at(line, path_at, d.mount_path@, 30)
            &&& field_at(line, type_at, d.disk_type@, 10)
        }),
{
    let m = pad(mark(is_active(d.disk_id@, active)), 1);
    let avail = pad(
        if d.is_available {
            "[OK]"@
        } else {
            "[--]"@
        },
        10,
    );
    let pid = pad(d.disk_id@, 36);
    let plabel = pad(d.label@, 20);
    let ppath = pad(d.mount_path@, 30);
    let ptype = pad(d.disk_type@, 10);
    lemma_pad(mark(is_active(d.disk_id@, active)), 1);
    lemma_pad(d.disk_id@, 36);
    lemma_pad(d.label@, 20);
    lemma_pad(d.mount_path@, 30);
    lemma_pad(d.disk_type@, 10);
    let sp = seq![' '];
    let line = disk_row(d, active);
    assert(m.len() == 1);
    lemma_field_in(m + sp, d.disk_id@, 36, sp + plabel + sp + ppath + sp + ptype + sp + avail);
    assert(line =~= (m + sp) + pid + (sp + plabel + sp + ppath + sp + ptype + sp + avail));
    lemma_field_in(m + sp + pid + sp, d.label@, 20, sp + ppath + sp + ptype + sp + avail);
    assert(line =~= (m + sp + pid + sp) + plabel + (sp + ppath + sp + ptype + sp + avail));
    lemma_field_in(m + sp + pid + sp + plabel + sp, d.mount_path@, 30, sp + ptype + sp + avail);
    assert(line =~= (m + sp + pid + sp + plabel + sp) + ppath + (sp + ptype + sp + avail));
    lemma_field_in(m + sp + pid + sp + plabel + sp + ppath + sp, d.disk_type@, 10, sp + avail);
    assert(line =~= (m + sp + pid + sp + plabel + sp + ppath + sp) + ptype + (sp + avail));
}

/// A media root's line shows its id and its relative path whole, each only padded with
/// spaces to its column width, never shortened.
pub proof fn law_root_row_fields_whole(r: RootInfo, active: Option<Seq<char>>)
    ensures
        ({
            let line = root_row(r, active);
            let path_at = 2int + field_width(r.id@.len(), 36) + 1;
            &&& field_at(line, 2, r.id@, 36)
            &&& field_at(line, path_at, r.relative_path@, 30)
        }),
{
    let m = pad(mark(is_active(r.id@, active)), 1);
    let sp = seq![' '];
    let pid = pad(r.id@, 36);
    let ppath = pad(r.relative_path@, 30);
    lemma_pad(mark(is_active(r.id@, active)), 1);
    lemma_pad(r.id@, 36);
    lemma_pad(r.relative_path@, 30);
    let line = root_row(r, active);
    lemma_field_in(m + sp, r.id@, 36, sp + ppath);
    assert(line =~= (m + sp) + pid + (sp + ppath));
    lemma_field_in(m + sp + pid + sp, r.relative_path@, 30, Seq::empty());
    assert(line =~= (m + sp + pid + sp) + ppath + Seq::<char>::empty());
}

} // verus!
