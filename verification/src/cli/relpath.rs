//! The part of a path below a disk's mount path, compared component by component as
//! `Path::strip_prefix` does.
use vstd::prelude::*;
use crate::server::paths::{ascii_upper, ascii_upper_char, drive_prefix, sep};
use crate::text::{chars_of, string_of};

verus! {

/// The first separator at or after `i` (the length of `s` when there is none).
pub open spec fn next_slash(s: Seq<char>, i: int, w: bool) -> int
    decreases s.len() - i,
{
    if i >= s.len() {
        s.len() as int
    } else if sep(s[i], w) {
        i
    } else {
        next_slash(s, i + 1, w)
    }
}

/// The spans of the named components from `i` on: the pieces between slashes, leaving
/// out empty pieces and `.`.
pub open spec fn segments_from(s: Seq<char>, i: int, w: bool) -> Seq<(int, int)>
    decreases s.len() - i,
{
    if i < 0 || i >= s.len() {
        Seq::empty()
    } else {
        let e = next_slash(s, i, w);
        proof {
            lemma_next_slash(s, i, w);
        }
        let rest = if e < s.len() {
            segments_from(s, e + 1, w)
        } else {
            Seq::empty()
        };
        if e == i || (e == i + 1 && s[i] == '.') {
            rest
        } else {
            seq![(i, e)] + rest
        }
    }
}

/// The spans of the components from `i` on: a root (a separator at `i`) or the current
/// directory (a `.` piece at `i`), then the named components.
pub open spec fn rooted_spans(s: Seq<char>, i: int, w: bool) -> Seq<(int, int)> {
    if 0 <= i < s.len() && (sep(s[i], w) || (s[i] == '.' && next_slash(s, i, w) == i + 1)) {
        seq![(i, i + 1)] + segments_from(s, i + 1, w)
    } else {
        segments_from(s, i, w)
    }
}

/// The spans of the components of a path: on Windows (`w`) a leading drive prefix such as
/// `D:`; then a root or the current directory, then the named components. (A Windows path
/// that begins with two separators, a UNC, verbatim or device prefix, is read here as a
/// root and pieces.)
pub open spec fn component_spans(s: Seq<char>, w: bool) -> Seq<(int, int)> {
    if w && drive_prefix(s) {
        seq![(0int, 2int)] + rooted_spans(s, 2, w)
    } else {
        rooted_spans(s, 0, w)
    }
}

/// The text of a span.
pub open spec fn span_text(s: Seq<char>, sp: (int, int)) -> Seq<char> {
    s.subrange(sp.0, sp.1)
}

/// The `j`-th components `a` and `b` of two paths are the same: two drive prefixes with
/// the same letter in either case, two roots (either separator), or the same text.
pub open spec fn same_component(a: Seq<char>, b: Seq<char>, j: int, w: bool) -> bool {
    if w && j == 0 && a.len() == 2 && b.len() == 2 && drive_prefix(a) && drive_prefix(b) {
        ascii_upper(a[0]) == ascii_upper(b[0])
    } else if a.len() == 1 && b.len() == 1 && sep(a[0], w) && sep(b[0], w) {
        true
    } else {
        a == b
    }
}

/// The components of `base` are the first components of `path`.
pub open spec fn has_component_prefix(path: Seq<char>, base: Seq<char>, w: bool) -> bool {
    let p = component_spans(path, w);
    let b = component_spans(base, w);
    &&& b.len() <= p.len()
    &&& forall|j: int|
        0 <= j < b.len() ==> same_component(span_text(path, #[trigger] p[j]), span_text(base, b[j]), j, w)
}

/// `path` relative to `base`: when the components of `base` begin `path`, the text of
/// `path` from its first remaining component to the end of its last (empty when none
/// remains); otherwise `path` itself.
pub open spec fn relative_text(path: Seq<char>, base: Seq<char>, w: bool) -> Seq<char> {
    let p = component_spans(path, w);
    let k = component_spans(base, w).len();
    if has_component_prefix(path, base, w) {
        if k < p.len() {
            path.subrange(p[k as int].0, p.last().1)
        } else {
            Seq::empty()
        }
    } else {
        path
    }
}

/// The first separator at or after `i` lies between `i` and the end, with no separator
/// before it.
pub proof fn lemma_next_slash(s: Seq<char>, i: int, w: bool)
    requires
        0 <= i,
    ensures
        i <= next_slash(s, i, w) || i > s.len(),
        next_slash(s, i, w) <= s.len() || i > s.len(),
        next_slash(s, i, w) < s.len() ==> sep(s[next_slash(s, i, w)], w),
        forall|j: int| i <= j < next_slash(s, i, w) ==> !sep(s[j], w),
    decreases s.len() - i,
{
    if i < s.len() && !sep(s[i], w) {
        lemma_next_slash(s, i + 1, w);
    }
}

/// The spans are inside `s`, from `i` on, in order.
pub open spec fn spans_within(g: Seq<(int, int)>, i: int, n: int) -> bool {
    &&& forall|k: int| 0 <= k < g.len() ==> i <= (#[trigger] g[k]).0 < g[k].1 <= n
    &&& forall|k: int, l: int| 0 <= k < l < g.len() ==> (#[trigger] g[k]).1 <= (#[trigger] g[l]).0
}

proof fn lemma_prepend_within(x: (int, int), g: Seq<(int, int)>, i: int, n: int)
    requires
        i <= x.0 < x.1 <= n,
        spans_within(g, x.1, n),
    ensures
        spans_within(seq![x] + g, i, n),
{
    let h = seq![x] + g;
    assert forall|k: int| 0 <= k < h.len() implies i <= (#[trigger] h[k]).0 < h[k].1 <= n by {
        if k > 0 {
            assert(h[k] == g[k - 1]);
        }
    }
    assert forall|k: int, l: int| 0 <= k < l < h.len() implies (#[trigger] h[k]).1 <= (#[trigger] h[l]).0 by {
        assert(h[l] == g[l - 1]);
        if k > 0 {
            assert(h[k] == g[k - 1]);
        }
    }
}

proof fn lemma_within_weaken(g: Seq<(int, int)>, i: int, j: int, n: int)
    requires
        j <= i,
        spans_within(g, i, n),
    ensures
        spans_within(g, j, n),
{
}

proof fn lemma_segments_bounds(s: Seq<char>, i: int, w: bool)
    requires
        0 <= i,
    ensures
        spans_within(segments_from(s, i, w), i, s.len() as int),
    decreases s.len() - i,
{
    if 0 <= i < s.len() {
        lemma_next_slash(s, i, w);
        let e = next_slash(s, i, w);
        let rest = if e < s.len() {
            segments_from(s, e + 1, w)
        } else {
            Seq::<(int, int)>::empty()
        };
        if e < s.len() {
            lemma_segments_bounds(s, e + 1, w);
        }
        assert(spans_within(rest, e, s.len() as int));
        if !(e == i || (e == i + 1 && s[i] == '.')) {
            lemma_prepend_within((i, e), rest, i, s.len() as int);
        } else {
            lemma_within_weaken(rest, e, i, s.len() as int);
        }
    }
}

proof fn lemma_spans_bounds(s: Seq<char>, w: bool)
    ensures
        spans_within(component_spans(s, w), 0, s.len() as int),
{
    let start: int = if w && drive_prefix(s) { 2 } else { 0 };
    lemma_segments_bounds(s, start, w);
    lemma_segments_bounds(s, start + 1, w);
    let r = rooted_spans(s, start, w);
    if 0 <= start < s.len() && (sep(s[start], w) || (s[start] == '.' && next_slash(s, start, w) == start + 1)) {
        lemma_prepend_within((start, start + 1), segments_from(s, start + 1, w), start, s.len() as int);
    }
    assert(spans_within(r, start, s.len() as int));
    if w && drive_prefix(s) {
        lemma_prepend_within((0, 2), r, 0, s.len() as int);
    } else {
        lemma_within_weaken(r, start, 0, s.len() as int);
    }
}

fn is_sep_char(c: char, w: bool) -> (b: bool)
    ensures
        b == sep(c, w),
{
    c == '/' || (w && c == '\\')
}

fn is_letter(c: char) -> (b: bool)
    ensures
        b == (('a' <= c && c <= 'z') || ('A' <= c && c <= 'Z')),
{
    ('a' <= c && c <= 'z') || ('A' <= c && c <= 'Z')
}

/// The spans of the components of `s` (see `component_spans`).
fn spans_of(s: &Vec<char>, w: bool) -> (r: Vec<(usize, usize)>)
    ensures
        r@.len() == component_spans(s@, w).len(),
        forall|k: int|
            0 <= k < r@.len() ==> (#[trigger] r@[k]).0 as int == component_spans(s@, w)[k].0 && r@[k].1
                as int == component_spans(s@, w)[k].1,
{
    let ghost full = component_spans(s@, w);
    let mut r: Vec<(usize, usize)> = Vec::new();
    let mut i: usize = 0;
    if w && s.len() >= 2 && s[1] == ':' && is_letter(s[0]) {
        r.push((0, 2));
        i = 2;
    }
    let ghost pre = r@.map_values(|p: (usize, usize)| (p.0 as int, p.1 as int));
    assert(pre + rooted_spans(s@, i as int, w) =~= full);
    if i < s.len() && (is_sep_char(s[i], w) || (s[i] == '.' && (i + 1 == s.len() || is_sep_char(s[i + 1], w)))) {
        proof {
            if !sep(s@[i as int], w) {
                assert(next_slash(s@, i as int, w) == next_slash(s@, i + 1, w));
                if i + 1 < s.len() {
                    assert(next_slash(s@, i + 1, w) == i + 1);
                }
            }
        }
        r.push((i, i + 1));
        i = i + 1;
        assert(r@.map_values(|p: (usize, usize)| (p.0 as int, p.1 as int)) =~= pre.push(((i - 1) as int, i as int)));
    } else {
        proof {
            if (i as int) < s.len() && s@[i as int] == '.' {
                assert(!sep(s@[i as int], w));
                assert(next_slash(s@, i as int, w) == next_slash(s@, i + 1, w));
                lemma_next_slash(s@, i + 1, w);
                assert(!sep(s@[i + 1], w));
                assert(next_slash(s@, i + 1, w) == next_slash(s@, i + 2, w));
                lemma_next_slash(s@, i + 2, w);
            }
        }
    }
    assert(r@.map_values(|p: (usize, usize)| (p.0 as int, p.1 as int)) + segments_from(s@, i as int, w) =~= full);
    while i < s.len()
        invariant
            i <= s.len(),
            r@.map_values(|p: (usize, usize)| (p.0 as int, p.1 as int)) + segments_from(s@, i as int, w)
                == full,
        decreases s.len() - i,
    {
        let start = i;
        let mut e = i;
        proof {
            lemma_next_slash(s@, i as int, w);
        }
        while e < s.len() && !is_sep_char(s[e], w)
            invariant
                start <= e <= s.len(),
                next_slash(s@, e as int, w) == next_slash(s@, start as int, w),
            decreases s.len() - e,
        {
            e = e + 1;
        }
        let ghost old_r = r@;
        let ghost rest = if e < s.len() {
            segments_from(s@, e + 1, w)
        } else {
            Seq::<(int, int)>::empty()
        };
        assert(segments_from(s@, start as int, w) == if e == start || (e == start + 1 && s@[start as int]
            == '.') {
            rest
        } else {
            seq![(start as int, e as int)] + rest
        });
        if !(e == start || (e == start + 1 && s[start] == '.')) {
            r.push((start, e));
            assert(r@.map_values(|p: (usize, usize)| (p.0 as int, p.1 as int)) =~= old_r.map_values(
                |p: (usize, usize)| (p.0 as int, p.1 as int),
            ).push((start as int, e as int)));
        }
        if e < s.len() {
            i = e + 1;
        } else {
            i = e;
        }
        assert(r@.map_values(|p: (usize, usize)| (p.0 as int, p.1 as int)) + segments_from(s@, i as int, w)
            =~= full);
    }
    assert(segments_from(s@, i as int, w) =~= Seq::<(int, int)>::empty());
    assert(r@.map_values(|p: (usize, usize)| (p.0 as int, p.1 as int)) =~= full);
    proof {
        assert forall|k: int| 0 <= k < r@.len() implies (#[trigger] r@[k]).0 as int == full[k].0
            && r@[k].1 as int == full[k].1 by {
            assert(r@.map_values(|p: (usize, usize)| (p.0 as int, p.1 as int))[k] == full[k]);
        }
    }
    r
}

fn same_text(a: &Vec<char>, asp: (usize, usize), b: &Vec<char>, bsp: (usize, usize)) -> (r: bool)
    requires
        asp.0 <= asp.1 <= a.len(),
        bsp.0 <= bsp.1 <= b.len(),
    ensures
        r == (a@.subrange(asp.0 as int, asp.1 as int) == b@.subrange(bsp.0 as int, bsp.1 as int)),
{
    if asp.1 - asp.0 != bsp.1 - bsp.0 {
        assert(a@.subrange(asp.0 as int, asp.1 as int).len() != b@.subrange(bsp.0 as int, bsp.1 as int).len());
        return false;
    }
    let n = asp.1 - asp.0;
    let mut k: usize = 0;
    while k < n
        invariant
            k <= n,
            n == asp.1 - asp.0,
            n == bsp.1 - bsp.0,
            asp.0 <= asp.1 <= a.len(),
            bsp.0 <= bsp.1 <= b.len(),
            a@.subrange(asp.0 as int, asp.0 + k) == b@.subrange(bsp.0 as int, bsp.0 + k),
        decreases n - k,
    {
        if a[asp.0 + k] != b[bsp.0 + k] {
            proof {
                assert(a@.subrange(asp.0 as int, asp.1 as int)[k as int] != b@.subrange(
                    bsp.0 as int,
                    bsp.1 as int,
                )[k as int]);
            }
            return false;
        }
        assert(a@.subrange(asp.0 as int, asp.0 + k + 1) =~= a@.subrange(asp.0 as int, asp.0 + k).push(
            a@[asp.0 + k],
        ));
        assert(b@.subrange(bsp.0 as int, bsp.0 + k + 1) =~= b@.subrange(bsp.0 as int, bsp.0 + k).push(
            b@[bsp.0 + k],
        ));
        k = k + 1;
    }
    true
}

fn same_comp(a: &Vec<char>, asp: (usize, usize), b: &Vec<char>, bsp: (usize, usize), j: usize, w: bool) -> (r: bool)
    requires
        asp.0 <= asp.1 <= a.len(),
        bsp.0 <= bsp.1 <= b.len(),
    ensures
        r == same_component(
            a@.subrange(asp.0 as int, asp.1 as int),
            b@.subrange(bsp.0 as int, bsp.1 as int),
            j as int,
            w,
        ),
{
    let ghost x = a@.subrange(asp.0 as int, asp.1 as int);
    let ghost y = b@.subrange(bsp.0 as int, bsp.1 as int);
    let la = asp.1 - asp.0;
    let lb = bsp.1 - bsp.0;
    if w && j == 0 && la == 2 && lb == 2 && a[asp.0 + 1] == ':' && is_letter(a[asp.0]) && b[bsp.0 + 1] == ':'
        && is_letter(b[bsp.0]) {
        assert(x[0] == a@[asp.0 as int] && x[1] == a@[asp.0 + 1]);
        assert(y[0] == b@[bsp.0 as int] && y[1] == b@[bsp.0 + 1]);
        ascii_upper_char(a[asp.0]) == ascii_upper_char(b[bsp.0])
    } else {
        proof {
            if la == 2 && lb == 2 {
                assert(x[0] == a@[asp.0 as int] && x[1] == a@[asp.0 + 1]);
                assert(y[0] == b@[bsp.0 as int] && y[1] == b@[bsp.0 + 1]);
            }
        }
        if la == 1 && lb == 1 && is_sep_char(a[asp.0], w) && is_sep_char(b[bsp.0], w) {
            assert(x[0] == a@[asp.0 as int]);
            assert(y[0] == b@[bsp.0 as int]);
            true
        } else {
            proof {
                if la == 1 && lb == 1 {
                    assert(x[0] == a@[asp.0 as int]);
                    assert(y[0] == b@[bsp.0 as int]);
                }
            }
            same_text(a, asp, b, bsp)
        }
    }
}

/// `Path::new(path).strip_prefix(base)` read back as text, or `path` itself when `base`
/// is not a prefix of it (see `relative_text`); `windows` says whether the client runs on
/// Windows.
pub fn relative_to(path: &str, base: &str, windows: bool) -> (r: String)
    ensures
        r@ == relative_text(path@, base@, windows),
{
    let p = chars_of(path);
    let b = chars_of(base);
    let ps = spans_of(&p, windows);
    let bs = spans_of(&b, windows);
    proof {
        lemma_spans_bounds(path@, windows);
        lemma_spans_bounds(base@, windows);
    }
    let ghost pc = component_spans(path@, windows);
    let ghost bc = component_spans(base@, windows);
    if bs.len() > ps.len() {
        return crate::text::copy_str(path);
    }
    let mut j: usize = 0;
    while j < bs.len()
        invariant
            j <= bs.len() <= ps.len(),
            p@ == path@,
            b@ == base@,
            pc == component_spans(path@, windows),
            bc == component_spans(base@, windows),
            ps@.len() == pc.len(),
            bs@.len() == bc.len(),
            forall|k: int| 0 <= k < ps@.len() ==> (#[trigger] ps@[k]).0 as int == pc[k].0 && ps@[k].1 as int == pc[k].1,
            forall|k: int| 0 <= k < bs@.len() ==> (#[trigger] bs@[k]).0 as int == bc[k].0 && bs@[k].1 as int == bc[k].1,
            spans_within(pc, 0, path@.len() as int),
            spans_within(bc, 0, base@.len() as int),
            forall|k: int|
                0 <= k < j ==> same_component(span_text(path@, #[trigger] pc[k]), span_text(base@, bc[k]), k, windows),
        decreases bs.len() - j,
    {
        assert(ps@[j as int].0 as int == pc[j as int].0 && ps@[j as int].1 as int == pc[j as int].1);
        assert(bs@[j as int].0 as int == bc[j as int].0 && bs@[j as int].1 as int == bc[j as int].1);
        assert(0 <= pc[j as int].0 < pc[j as int].1 <= path@.len());
        assert(0 <= bc[j as int].0 < bc[j as int].1 <= base@.len());
        let same = same_comp(&p, ps[j], &b, bs[j], j, windows);
        if !same {
            proof {
                if has_component_prefix(path@, base@, windows) {
                    assert(same_component(span_text(path@, pc[j as int]), span_text(base@, bc[j as int]), j as int, windows));
                }
            }
            return crate::text::copy_str(path);
        }
        j = j + 1;
    }
    assert(has_component_prefix(path@, base@, windows));
    if bs.len() < ps.len() {
        let lo = ps[bs.len()].0;
        let hi = ps[ps.len() - 1].1;
        proof {
            assert(0 <= pc[bc.len() as int].0 < pc[bc.len() as int].1 <= path@.len());
            assert(0 <= pc[pc.len() - 1].0 < pc[pc.len() - 1].1 <= path@.len());
            if bs.len() < ps.len() - 1 {
                assert(pc[bc.len() as int].1 <= pc[pc.len() - 1].0);
            }
        }
        let mut v: Vec<char> = Vec::new();
        let mut i: usize = lo;
        while i < hi
            invariant
                lo <= i <= hi <= p.len(),
                v@ == p@.subrange(lo as int, i as int),
            decreases hi - i,
        {
            v.push(p[i]);
            assert(p@.subrange(lo as int, i as int).push(p@[i as int]) =~= p@.subrange(lo as int, i + 1));
            i = i + 1;
        }
        string_of(&v)
    } else {
        String::new()
    }
}

} // verus!
