//! Mount paths of disks and the files placed on them.
use vstd::prelude::*;
use crate::text::{chars_of, string_of};

verus! {

/// A path separator: `/` or `\`.
pub open spec fn is_separator(c: char) -> bool {
    c == '/' || c == '\\'
}

/// The path without its trailing separators (`str::trim_end_matches(['\\', '/'])`).
pub open spec fn trim_separators(s: Seq<char>) -> Seq<char>
    decreases s.len(),
{
    if s.len() > 0 && is_separator(s.last()) {
        trim_separators(s.drop_last())
    } else {
        s
    }
}

/// A separator: `/`, and on Windows (`w`) also `\`.
pub open spec fn sep(c: char, w: bool) -> bool {
    c == '/' || (w && c == '\\')
}

/// A Windows drive prefix such as `D:` (an ASCII letter and `:`) begins the path.
pub open spec fn drive_prefix(p: Seq<char>) -> bool {
    p.len() >= 2 && p[1] == ':' && (('a' <= p[0] && p[0] <= 'z') || ('A' <= p[0] && p[0] <= 'Z'))
}

/// The separator that joining puts in: `\` on Windows, `/` elsewhere.
pub open spec fn main_sep(w: bool) -> char {
    if w {
        '\\'
    } else {
        '/'
    }
}

/// `base` joined with `p` as `Path::join` does (on Windows when `w`): a `p` with a drive
/// prefix replaces `base`; a `p` that starts with a separator replaces all of `base` but
/// its drive prefix; otherwise the main separator is put between them unless `base` is
/// empty, already ends with a separator or is a bare drive prefix. (A Windows path that
/// begins with two separators, a UNC, verbatim or device prefix, is read here as a root.)
pub open spec fn join_spec(base: Seq<char>, p: Seq<char>, w: bool) -> Seq<char> {
    if w && drive_prefix(p) {
        p
    } else if p.len() > 0 && sep(p[0], w) {
        if w && drive_prefix(base) {
            base.take(2) + p
        } else {
            p
        }
    } else if base.len() > 0 && !sep(base.last(), w) && !(w && drive_prefix(base) && base.len() == 2) {
        base + seq![main_sep(w)] + p
    } else {
        base + p
    }
}

/// The name of the file that marks a removable disk as one of the catalogue's disks.
pub open spec fn marker_name() -> Seq<char> {
    seq!['.', 'c', 'o', 'n', 't', 'i', 'n', 'u', 'u', 'm', '-', 'd', 'i', 's', 'k']
}

proof fn lemma_trim_separators_end(s: Seq<char>)
    ensures
        trim_separators(s).len() <= s.len(),
        trim_separators(s) == s.take(trim_separators(s).len() as int),
        trim_separators(s).len() == 0 || !is_separator(trim_separators(s).last()),
        forall|i: int|
            trim_separators(s).len() <= i < s.len() ==> is_separator(#[trigger] s[i]),
    decreases s.len(),
{
    if s.len() > 0 && is_separator(s.last()) {
        lemma_trim_separators_end(s.drop_last());
        assert forall|i: int| trim_separators(s).len() <= i < s.len() implies is_separator(
            #[trigger] s[i],
        ) by {
            if i < s.len() - 1 {
                assert(s.drop_last()[i] == s[i]);
            }
        }
        assert(s.drop_last().take(trim_separators(s).len() as int) =~= s.take(
            trim_separators(s).len() as int,
        ));
    } else {
        assert(s.take(s.len() as int) =~= s);
    }
}

/// `char::to_uppercase` on an ASCII character: `a`–`z` become `A`–`Z`, the rest stay.
pub open spec fn ascii_upper(c: char) -> char {
    if 'a' <= c && c <= 'z' {
        ((c as u32) - 32) as char
    } else {
        c
    }
}

/// A bare drive letter such as `e:`: two characters, the first ASCII, the second `:`
/// (in bytes: two bytes ending with `:`).
pub open spec fn drive_letter(t: Seq<char>) -> bool {
    t.len() == 2 && t[0] <= '\u{7f}' && t[1] == ':'
}

/// A mount path as the catalogue stores it: without trailing `/` or `\`; on Windows a
/// bare drive letter is upper-cased and given one trailing `\` (`e:/` becomes `E:\`).
pub open spec fn normalized(path: Seq<char>, windows: bool) -> Seq<char> {
    let t = trim_separators(path);
    if windows && drive_letter(t) {
        seq![ascii_upper(t[0]), ':', '\\']
    } else {
        t
    }
}

/// Normalizing a normalized path changes nothing, on either platform.
pub proof fn law_normalize_idempotent(s: Seq<char>, windows: bool)
    ensures
        normalized(normalized(s, windows), windows) == normalized(s, windows),
{
    lemma_trim_separators_end(s);
    let t = trim_separators(s);
    assert(trim_separators(t) == t);
    if windows && drive_letter(t) {
        let n = seq![ascii_upper(t[0]), ':', '\\'];
        assert(n.drop_last() =~= seq![ascii_upper(t[0]), ':']);
        assert(trim_separators(seq![ascii_upper(t[0]), ':']) == seq![ascii_upper(t[0]), ':']);
        assert(trim_separators(n) =~= seq![ascii_upper(t[0]), ':']);
    }
}

pub(crate) fn ascii_upper_char(c: char) -> (u: char)
    ensures
        u == ascii_upper(c),
{
    if 'a' <= c && c <= 'z' {
        let b: u8 = c as u8;
        let x: u8 = b - 32;
        x as char
    } else {
        c
    }
}

/// A mount path as the catalogue stores it (see `normalized`); `windows` says whether the
/// server runs on Windows.
pub fn normalize_path(path: &str, windows: bool) -> (r: String)
    ensures
        r@ == normalized(path@, windows),
{
    let v = chars_of(path);
    let mut n = v.len();
    assert(v@.take(n as int) =~= v@);
    while n > 0 && (v[n - 1] == '/' || v[n - 1] == '\\')
        invariant
            n <= v.len(),
            v@ == path@,
            trim_separators(v@) == trim_separators(v@.take(n as int)),
        decreases n,
    {
        assert(v@.take(n as int).drop_last() =~= v@.take(n - 1));
        n = n - 1;
    }
    let mut t: Vec<char> = Vec::new();
    let mut i: usize = 0;
    while i < n
        invariant
            n <= v.len(),
            i <= n,
            t@ == v@.take(i as int),
        decreases n - i,
    {
        t.push(v[i]);
        assert(v@.take(i as int).push(v@[i as int]) =~= v@.take(i + 1));
        i = i + 1;
    }
    proof {
        let u = v@.take(n as int);
        assert(u.len() == 0 || !is_separator(u.last()));
        assert(trim_separators(u) == u);
        lemma_trim_separators_end(path@);
    }
    if windows && t.len() == 2 && t[0] <= '\u{7f}' && t[1] == ':' {
        let mut d: Vec<char> = Vec::new();
        d.push(ascii_upper_char(t[0]));
        d.push(':');
        d.push('\\');
        assert(d@ =~= normalized(path@, windows));
        return string_of(&d);
    }
    string_of(&t)
}

fn append_range(out: &mut Vec<char>, v: &Vec<char>, lo: usize, hi: usize)
    requires
        lo <= hi <= v.len(),
    ensures
        final(out)@ == old(out)@ + v@.subrange(lo as int, hi as int),
{
    let ghost start = out@;
    let mut i = lo;
    while i < hi
        invariant
            lo <= i <= hi <= v.len(),
            out@ == start + v@.subrange(lo as int, i as int),
        decreases hi - i,
    {
        out.push(v[i]);
        assert(v@.subrange(lo as int, i as int).push(v@[i as int]) =~= v@.subrange(lo as int, i + 1));
        i = i + 1;
    }
}

fn is_drive(v: &Vec<char>) -> (b: bool)
    ensures
        b == drive_prefix(v@),
{
    v.len() >= 2 && v[1] == ':' && (('a' <= v[0] && v[0] <= 'z') || ('A' <= v[0] && v[0] <= 'Z'))
}

/// `Path::new(base).join(p)` as text (see `join_spec`); `windows` says whether the
/// program runs on Windows.
pub fn join_path(base: &str, p: &str, windows: bool) -> (r: String)
    ensures
        r@ == join_spec(base@, p@, windows),
{
    let b = chars_of(base);
    let q = chars_of(p);
    let mut out: Vec<char> = Vec::new();
    assert(b@.subrange(0, b.len() as int) =~= b@);
    assert(q@.subrange(0, q.len() as int) =~= q@);
    if windows && is_drive(&q) {
        append_range(&mut out, &q, 0, q.len());
    } else if q.len() > 0 && (q[0] == '/' || (windows && q[0] == '\\')) {
        if windows && is_drive(&b) {
            append_range(&mut out, &b, 0, 2);
            assert(b@.subrange(0, 2) =~= b@.take(2));
        }
        append_range(&mut out, &q, 0, q.len());
    } else {
        append_range(&mut out, &b, 0, b.len());
        if b.len() > 0 && !(b[b.len() - 1] == '/' || (windows && b[b.len() - 1] == '\\')) && !(windows
            && is_drive(&b) && b.len() == 2) {
            out.push(if windows { '\\' } else { '/' });
        }
        append_range(&mut out, &q, 0, q.len());
    }
    assert(out@ =~= join_spec(base@, p@, windows));
    string_of(&out)
}

/// The name of the marker file, `.continuum-disk`.
pub fn marker_file_name() -> (r: String)
    ensures
        r@ == marker_name(),
{
    let mut v: Vec<char> = Vec::new();
    v.push('.');
    v.push('c');
    v.push('o');
    v.push('n');
    v.push('t');
    v.push('i');
    v.push('n');
    v.push('u');
    v.push('u');
    v.push('m');
    v.push('-');
    v.push('d');
    v.push('i');
    v.push('s');
    v.push('k');
    assert(v@ =~= marker_name());
    string_of(&v)
}

/// Where the marker file of a disk mounted at `mount_path` lies.
pub fn marker_path(mount_path: &str, windows: bool) -> (r: String)
    ensures
        r@ == join_spec(mount_path@, marker_name(), windows),
{
    let name = marker_file_name();
    join_path(mount_path, name.as_str(), windows)
}

} // verus!
