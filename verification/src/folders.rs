//! Event folders: a folder named `yyyyMMdd description` holds the footage of one event.
use vstd::prelude::*;
use crate::text::{chars_of, string_of, char_is_digit, char_is_space, is_digit, is_space, trim, trim_start, trim_end};

verus! {

/// The folder name starts with eight ASCII digits (a compact date).
pub open spec fn starts_with_date(name: Seq<char>) -> bool {
    name.len() >= 8 && forall|i: int| 0 <= i < 8 ==> is_digit(#[trigger] name[i])
}

/// `yyyyMMdd` written as `yyyy-MM-dd`.
pub open spec fn dashed_date(d: Seq<char>) -> Seq<char> {
    d.subrange(0, 4) + seq!['-'] + d.subrange(4, 6) + seq!['-'] + d.subrange(6, 8)
}

/// What a folder name says of its event: the date (when the name starts with eight digits)
/// and the description (the rest of the name, trimmed, when not empty; the whole name when
/// there is no date).
pub open spec fn event_folder_parts(name: Seq<char>) -> (Option<Seq<char>>, Option<Seq<char>>) {
    if starts_with_date(name) {
        let desc = trim(name.skip(8));
        (Some(dashed_date(name)), if desc.len() == 0 { None } else { Some(desc) })
    } else {
        (None, Some(name))
    }
}

/// The view of an optional text.
pub open spec fn opt_view(o: Option<String>) -> Option<Seq<char>> {
    match o {
        Some(s) => Some(s@),
        None => None,
    }
}

proof fn lemma_trim_start_skip(s: Seq<char>, a: int)
    requires
        0 <= a <= s.len(),
        forall|i: int| 0 <= i < a ==> is_space(#[trigger] s[i]),
    ensures
        trim_start(s) == trim_start(s.skip(a)),
    decreases a,
{
    if a > 0 {
        assert(s.drop_first().skip(a - 1) =~= s.skip(a));
        lemma_trim_start_skip(s.drop_first(), a - 1);
    } else {
        assert(s.skip(0) =~= s);
    }
}

proof fn lemma_trim_end_take(s: Seq<char>, b: int)
    requires
        0 <= b <= s.len(),
        forall|i: int| b <= i < s.len() ==> is_space(#[trigger] s[i]),
    ensures
        trim_end(s) == trim_end(s.take(b)),
    decreases s.len() - b,
{
    if b < s.len() {
        assert(s.drop_last().take(b) =~= s.take(b));
        lemma_trim_end_take(s.drop_last(), b);
    } else {
        assert(s.take(b) =~= s);
    }
}

/// The bounds of the trimmed part of `v[from..]`.
fn trim_bounds(v: &Vec<char>, from: usize) -> (r: (usize, usize))
    requires
        from <= v.len(),
    ensures
        from <= r.0 <= r.1 <= v.len(),
        v@.subrange(r.0 as int, r.1 as int) == trim(v@.skip(from as int)),
{
    let ghost s = v@.skip(from as int);
    let mut a = from;
    while a < v.len() && char_is_space(v[a])
        invariant
            from <= a <= v.len(),
            forall|i: int| from <= i < a ==> is_space(#[trigger] v@[i]),
        decreases v.len() - a,
    {
        a = a + 1;
    }
    proof {
        assert forall|i: int| 0 <= i < a - from implies is_space(#[trigger] s[i]) by {
            assert(s[i] == v@[i + from]);
        }
        lemma_trim_start_skip(s, a - from);
        assert(s.skip(a - from) =~= v@.skip(a as int));
    }
    let mut b = v.len();
    while b > a && char_is_space(v[b - 1])
        invariant
            a <= b <= v.len(),
            forall|i: int| b <= i < v.len() ==> is_space(#[trigger] v@[i]),
        decreases b,
    {
        b = b - 1;
    }
    proof {
        let t = v@.skip(a as int);
        assert(trim_start(t) == t);
        assert forall|i: int| b - a <= i < t.len() implies is_space(#[trigger] t[i]) by {
            assert(t[i] == v@[i + a]);
        }
        lemma_trim_end_take(t, b - a);
        let u = t.take(b - a);
        assert(u =~= v@.subrange(a as int, b as int));
        assert(trim_end(u) == u);
    }
    (a, b)
}

/// Splits an event folder name `yyyyMMdd description` into the date `yyyy-MM-dd` and the
/// description. A name that does not start with eight digits is all description.
pub fn parse_event_folder(name: &str) -> (r: (Option<String>, Option<String>))
    ensures
        (opt_view(r.0), opt_view(r.1)) == event_folder_parts(name@),
{
    let chars = chars_of(name);
    let mut dated = chars.len() >= 8;
    let mut i: usize = 0;
    while dated && i < 8
        invariant
            i <= 8,
            chars@ == name@,
            dated ==> chars.len() >= 8,
            dated ==> forall|k: int| 0 <= k < i ==> is_digit(#[trigger] chars@[k]),
            !dated ==> !starts_with_date(name@),
        decreases 8 - i,
    {
        if !char_is_digit(chars[i]) {
            dated = false;
        }
        i = i + 1;
    }
    if dated {
        let mut d: Vec<char> = Vec::new();
        d.push(chars[0]);
        d.push(chars[1]);
        d.push(chars[2]);
        d.push(chars[3]);
        d.push('-');
        d.push(chars[4]);
        d.push(chars[5]);
        d.push('-');
        d.push(chars[6]);
        d.push(chars[7]);
        assert(d@ =~= dashed_date(name@));
        let (a, b) = trim_bounds(&chars, 8);
        let desc = if a == b {
            None
        } else {
            let mut t: Vec<char> = Vec::new();
            let mut k = a;
            while k < b
                invariant
                    a <= k <= b <= chars.len(),
                    t@ == chars@.subrange(a as int, k as int),
                decreases b - k,
            {
                t.push(chars[k]);
                assert(chars@.subrange(a as int, k as int).push(chars@[k as int])
                    =~= chars@.subrange(a as int, k + 1));
                k = k + 1;
            }
            Some(string_of(&t))
        };
        (Some(string_of(&d)), desc)
    } else {
        (None, Some(string_of(&chars)))
    }
}

} // verus!
