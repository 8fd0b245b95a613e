//! What the command-line client keeps of a video file's metadata, read from the JSON that
//! `ffprobe -print_format json -show_format -show_streams` writes.
use vstd::prelude::*;
use crate::folders::opt_view;
use crate::text::{chars_of, is_digit, string_of};

verus! {

/// A stream as ffprobe lists it; each member is kept when it has the expected JSON type.
pub struct ProbeStream {
    pub codec_type: Option<String>,
    pub width: Option<i64>,
    pub height: Option<i64>,
    pub codec_name: Option<String>,
    pub r_frame_rate: Option<String>,
}

/// What ffprobe printed: the `streams` array (when there is one) and the `duration` and
/// `bit_rate` texts of `format`.
pub struct ProbeOutput {
    pub streams: Option<Vec<ProbeStream>>,
    pub duration: Option<String>,
    pub bit_rate: Option<String>,
}

/// A stream as text.
pub struct ProbeStreamView {
    pub codec_type: Option<Seq<char>>,
    pub width: Option<i64>,
    pub height: Option<i64>,
    pub codec_name: Option<Seq<char>>,
    pub r_frame_rate: Option<Seq<char>>,
}

/// ffprobe's output as text.
pub struct ProbeOutputView {
    pub streams: Option<Seq<ProbeStreamView>>,
    pub duration: Option<Seq<char>>,
    pub bit_rate: Option<Seq<char>>,
}

impl View for ProbeStream {
    type V = ProbeStreamView;

    open spec fn view(&self) -> ProbeStreamView {
        ProbeStreamView {
            codec_type: opt_view(self.codec_type),
            width: self.width,
            height: self.height,
            codec_name: opt_view(self.codec_name),
            r_frame_rate: opt_view(self.r_frame_rate),
        }
    }
}

impl View for ProbeOutput {
    type V = ProbeOutputView;

    open spec fn view(&self) -> ProbeOutputView {
        ProbeOutputView {
            streams: match self.streams {
                Some(v) => Some(v@.map_values(|s: ProbeStream| s@)),
                None => None,
            },
            duration: opt_view(self.duration),
            bit_rate: opt_view(self.bit_rate),
        }
    }
}

/// A parse result as text.
pub open spec fn probe_view(r: Option<ProbeOutput>) -> Option<ProbeOutputView> {
    match r {
        Some(p) => Some(p@),
        None => None,
    }
}

/// ffprobe's output `stdout` read as JSON (`None` when it is not JSON).
pub uninterp spec fn probe_json(stdout: Seq<u8>) -> Option<ProbeOutputView>;

/// `serde_json::from_slice::<serde_json::Value>(stdout)`, then for each element of the
/// `streams` array its `codec_type`, `codec_name` and `r_frame_rate` strings and its
/// `width` and `height` read with `Value::as_i64`, and the `duration` and `bit_rate`
/// strings of `format`. The parse is a function of the bytes alone; its result is named
/// `probe_json`, not spelled out.
#[verifier::external_body]
fn parse_probe_output(stdout: &[u8]) -> (r: Option<ProbeOutput>)
    ensures
        probe_view(r) == probe_json(stdout@),
{
    let v: serde_json::Value = serde_json::from_slice(stdout).ok()?;
    let text = |x: &serde_json::Value| x.as_str().map(|s| s.to_string());
    let streams = v["streams"].as_array().map(|a| a.iter().map(|x| ProbeStream {
        codec_type: text(&x["codec_type"]), width: x["width"].as_i64(), height: x["height"].as_i64(),
        codec_name: text(&x["codec_name"]), r_frame_rate: text(&x["r_frame_rate"]) }).collect());
    let f = &v["format"];
    Some(ProbeOutput { streams, duration: text(&f["duration"]), bit_rate: text(&f["bit_rate"]) })
}

/// The value of a run of decimal digits.
pub open spec fn digits_value(t: Seq<char>) -> int
    decreases t.len(),
{
    if t.len() == 0 {
        0
    } else {
        digits_value(t.drop_last()) * 10 + (t.last() as int - '0' as int)
    }
}

/// Every character is a decimal digit, and there is at least one.
pub open spec fn all_digits(s: Seq<char>) -> bool {
    s.len() > 0 && forall|i: int| 0 <= i < s.len() ==> is_digit(#[trigger] s[i])
}

/// The text after an optional leading `+` or `-`.
pub open spec fn unsigned_part(t: Seq<char>) -> Seq<char> {
    if t.len() > 0 && (t[0] == '-' || t[0] == '+') {
        t.skip(1)
    } else {
        t
    }
}

/// The signed value of the text (meaningful when `unsigned_part` is all digits).
pub open spec fn signed_value(t: Seq<char>) -> int {
    if t.len() > 0 && t[0] == '-' {
        -digits_value(unsigned_part(t))
    } else {
        digits_value(unsigned_part(t))
    }
}

/// What `str::parse::<i64>` gives: an optional `+` or `-` followed by at least one decimal
/// digit and nothing else, whose value fits in an `i64`.
pub open spec fn parsed_i64(t: Seq<char>) -> Option<int> {
    if all_digits(unsigned_part(t)) && i64::MIN <= signed_value(t) <= i64::MAX {
        Some(signed_value(t))
    } else {
        None
    }
}

proof fn lemma_digits_grow(s: Seq<char>, i: int)
    requires
        0 <= i <= s.len(),
        forall|j: int| 0 <= j < s.len() ==> is_digit(#[trigger] s[j]),
    ensures
        digits_value(s.take(i)) <= digits_value(s),
        0 <= digits_value(s.take(i)),
    decreases s.len() - i,
{
    if i < s.len() {
        lemma_digits_grow(s, i + 1);
        assert(s.take(i + 1).drop_last() =~= s.take(i));
    } else {
        assert(s.take(i) =~= s);
    }
    lemma_digits_nonneg(s.take(i));
}

proof fn lemma_digits_nonneg(s: Seq<char>)
    requires
        forall|j: int| 0 <= j < s.len() ==> is_digit(#[trigger] s[j]),
    ensures
        0 <= digits_value(s),
    decreases s.len(),
{
    if s.len() > 0 {
        lemma_digits_nonneg(s.drop_last());
        assert(is_digit(s[s.len() - 1]));
    }
}

/// `str::parse::<i64>`: decimal text with an optional sign (see `parsed_i64`).
fn parse_i64(t: &str) -> (r: Option<i64>)
    ensures
        match r {
            Some(x) => parsed_i64(t@) == Some(x as int),
            None => parsed_i64(t@) is None,
        },
{
    let c = chars_of(t);
    if c.len() == 0 {
        return None;
    }
    let neg = c[0] == '-';
    let start: usize = if c[0] == '-' || c[0] == '+' { 1 } else { 0 };
    let ghost body = if start == 1 { t@.skip(1) } else { t@ };
    assert(start == 0 ==> c@.skip(0) =~= c@);
    if start >= c.len() {
        return None;
    }
    let limit: u128 = 9223372036854775808;
    let mut acc: u128 = 0;
    let mut i: usize = start;
    assert(body.take(0) =~= Seq::<char>::empty());
    while i < c.len()
        invariant
            start <= i <= c.len(),
            c@ == t@,
            c@.len() > 0,
            limit == 9223372036854775808u128,
            neg == (c@[0] == '-'),
            (start == 1) == (c@[0] == '-' || c@[0] == '+'),
            start <= 1,
            body == if c@[0] == '-' || c@[0] == '+' { t@.skip(1) } else { t@ },
            body == c@.skip(start as int),
            acc <= limit,
            acc as int == digits_value(body.take(i - start)),
            forall|j: int| 0 <= j < i - start ==> is_digit(#[trigger] body[j]),
        decreases c.len() - i,
    {
        let ch = c[i];
        if !('0' <= ch && ch <= '9') {
            proof {
                assert(unsigned_part(t@) == body);
                assert(body[i - start] == ch);
                assert(!is_digit(body[i - start]));
                assert(!all_digits(body));
            }
            return None;
        }
        let d: u128 = ((ch as u32) - 48) as u128;
        assert(body.take(i - start + 1).drop_last() =~= body.take(i - start));
        assert(body.take(i - start + 1).last() == ch);
        acc = acc * 10 + d;
        i = i + 1;
        if acc > limit {
            proof {
                assert(unsigned_part(t@) == body);
                if all_digits(body) {
                    lemma_digits_grow(body, i - start);
                }
            }
            return None;
        }
    }
    assert(body.take(body.len() as int) =~= body);
    assert(unsigned_part(t@) == body);
    assert(all_digits(body));
    if neg {
        let v: i128 = -(acc as i128);
        Some(v as i64)
    } else if acc < limit {
        Some(acc as i64)
    } else {
        None
    }
}

/// `video`.
pub open spec fn video_kind() -> Seq<char> {
    seq!['v', 'i', 'd', 'e', 'o']
}

/// `audio`.
pub open spec fn audio_kind() -> Seq<char> {
    seq!['a', 'u', 'd', 'i', 'o']
}

/// The streams listed (none when there is no `streams` array).
pub open spec fn streams_of(p: ProbeOutputView) -> Seq<ProbeStreamView> {
    match p.streams {
        Some(s) => s,
        None => Seq::empty(),
    }
}

/// Whether some stream is an audio stream.
pub open spec fn any_audio(s: Seq<ProbeStreamView>) -> bool {
    exists|i: int| 0 <= i < s.len() && #[trigger] s[i].codec_type == Some(audio_kind())
}

/// The last video stream.
pub open spec fn last_video(s: Seq<ProbeStreamView>) -> Option<ProbeStreamView>
    decreases s.len(),
{
    if s.len() == 0 {
        None
    } else if s.last().codec_type == Some(video_kind()) {
        Some(s.last())
    } else {
        last_video(s.drop_last())
    }
}

/// `k` is the one `/` of `t`.
pub open spec fn one_slash_at(t: Seq<char>, k: int) -> bool {
    &&& 0 <= k < t.len()
    &&& t[k] == '/'
    &&& forall|j: int| 0 <= j < t.len() && j != k ==> t[j] != '/'
}

/// The two sides of a frame rate such as `30000/1001`: the text split at `/` when that
/// gives exactly two parts.
pub open spec fn frame_rate_parts(t: Seq<char>) -> Option<(Seq<char>, Seq<char>)> {
    if exists|k: int| one_slash_at(t, k) {
        let k = choose|k: int| one_slash_at(t, k);
        Some((t.take(k), t.skip(k + 1)))
    } else {
        None
    }
}

/// The frame-rate parts of the video streams, in order, for those whose rate splits in
/// two.
pub open spec fn video_rates(s: Seq<ProbeStreamView>) -> Seq<(Seq<char>, Seq<char>)>
    decreases s.len(),
{
    if s.len() == 0 {
        Seq::empty()
    } else {
        let r = video_rates(s.drop_last());
        let x = s.last();
        if x.codec_type == Some(video_kind()) {
            match x.r_frame_rate {
                Some(t) => match frame_rate_parts(t) {
                    Some(p) => r.push(p),
                    None => r,
                },
                None => r,
            }
        } else {
            r
        }
    }
}

/// A size narrowed to `i32` (`as i32`, which keeps the low 32 bits).
pub open spec fn narrow(o: Option<i64>) -> Option<i32> {
    match o {
        Some(w) => Some(w as i32),
        None => None,
    }
}

/// What the client records of a video file. The frame rate and the duration are left as
/// text: they are read as floating-point numbers by the caller.
pub struct ProbeSummary {
    pub has_audio: bool,
    pub width: Option<i32>,
    pub height: Option<i32>,
    pub codec: Option<String>,
    pub frame_rates: Vec<(String, String)>,
    pub duration: Option<String>,
    pub bitrate: Option<i64>,
}

/// `m` is what `p` says: whether there is an audio stream; the last video stream's
/// width, height (narrowed to `i32`) and codec; the frame-rate parts of the video streams
/// (the caller keeps the last one that reads as two numbers with a denominator other than
/// zero); the duration text; the bit rate read as an `i64`.
pub open spec fn summarizes(m: ProbeSummary, p: ProbeOutputView) -> bool {
    let s = streams_of(p);
    &&& m.has_audio == any_audio(s)
    &&& match last_video(s) {
        Some(v) => m.width == narrow(v.width) && m.height == narrow(v.height) && opt_view(m.codec)
            == v.codec_name,
        None => m.width is None && m.height is None && m.codec is None,
    }
    &&& m.frame_rates@.len() == video_rates(s).len()
    &&& forall|i: int|
        0 <= i < m.frame_rates@.len() ==> (#[trigger] m.frame_rates@[i].0@, m.frame_rates@[i].1@)
            == video_rates(s)[i]
    &&& opt_view(m.duration) == p.duration
    &&& match p.bit_rate {
        Some(t) => match m.bitrate {
            Some(b) => parsed_i64(t) == Some(b as int),
            None => parsed_i64(t) is None,
        },
        None => m.bitrate is None,
    }
}

/// Nothing is known of the file.
pub open spec fn empty_summary(m: ProbeSummary) -> bool {
    &&& !m.has_audio
    &&& m.width is None && m.height is None && m.codec is None
    &&& m.frame_rates@.len() == 0
    &&& m.duration is None && m.bitrate is None
}

fn is_kind(s: &Option<String>, video: bool) -> (b: bool)
    ensures
        b == (opt_view(*s) == Some(if video { video_kind() } else { audio_kind() })),
{
    match s {
        Some(x) => {
            let c = chars_of(x.as_str());
            let first = if video { 'v' } else { 'a' };
            let second = if video { 'i' } else { 'u' };
            let third = if video { 'd' } else { 'd' };
            let fourth = if video { 'e' } else { 'i' };
            let b = c.len() == 5 && c[0] == first && c[1] == second && c[2] == third && c[3] == fourth
                && c[4] == 'o';
            proof {
                let k = if video { video_kind() } else { audio_kind() };
                if b {
                    assert(c@ =~= k);
                } else if c@ == k {
                    assert(c@[0] == k[0] && c@[1] == k[1] && c@[2] == k[2] && c@[3] == k[3] && c@[4]
                        == k[4]);
                }
            }
            b
        },
        None => false,
    }
}

fn sub_string(c: &Vec<char>, lo: usize, hi: usize) -> (s: String)
    requires
        lo <= hi <= c.len(),
    ensures
        s@ == c@.subrange(lo as int, hi as int),
{
    let mut v: Vec<char> = Vec::new();
    let mut i: usize = lo;
    while i < hi
        invariant
            lo <= i <= hi <= c.len(),
            v@ == c@.subrange(lo as int, i as int),
        decreases hi - i,
    {
        v.push(c[i]);
        assert(c@.subrange(lo as int, i as int).push(c@[i as int]) =~= c@.subrange(
            lo as int,
            i + 1,
        ));
        i = i + 1;
    }
    string_of(&v)
}

fn split_rate(t: &str) -> (r: Option<(String, String)>)
    ensures
        match r {
            Some(p) => frame_rate_parts(t@) == Some((p.0@, p.1@)),
            None => frame_rate_parts(t@) is None,
        },
{
    let c = chars_of(t);
    let mut count: usize = 0;
    let mut pos: usize = 0;
    let mut i: usize = 0;
    while i < c.len()
        invariant
            i <= c.len(),
            c@ == t@,
            count <= 1,
            count == 0 ==> forall|j: int| 0 <= j < i ==> c@[j] != '/',
            count == 1 ==> pos < i && c@[pos as int] == '/' && forall|j: int|
                0 <= j < i && j != pos ==> c@[j] != '/',
        decreases c.len() - i,
    {
        if c[i] == '/' {
            if count == 1 {
                proof {
                    assert forall|k: int| !one_slash_at(t@, k) by {
                        if one_slash_at(t@, k) {
                            if k == pos {
                                assert(c@[i as int] == '/');
                            } else {
                                assert(c@[pos as int] == '/');
                            }
                        }
                    }
                }
                return None;
            }
            count = 1;
            pos = i;
        }
        i = i + 1;
    }
    if count == 0 {
        proof {
            assert forall|k: int| !one_slash_at(t@, k) by {
                if one_slash_at(t@, k) {
                    assert(c@[k] == '/');
                }
            }
        }
        return None;
    }
    proof {
        assert(one_slash_at(t@, pos as int));
        let k = choose|k: int| one_slash_at(t@, k);
        if k != pos {
            assert(c@[pos as int] == '/');
        }
        assert(t@.take(pos as int) =~= c@.subrange(0, pos as int));
        assert(t@.skip(pos + 1) =~= c@.subrange(pos + 1, c@.len() as int));
    }
    Some((sub_string(&c, 0, pos), sub_string(&c, pos + 1, c.len())))
}

fn copy_opt(o: &Option<String>) -> (r: Option<String>)
    ensures
        opt_view(r) == opt_view(*o),
{
    match o {
        Some(s) => Some(crate::text::copy_str(s.as_str())),
        None => None,
    }
}

fn narrow_exec(o: Option<i64>) -> (r: Option<i32>)
    ensures
        r == narrow(o),
{
    match o {
        Some(w) => Some(w as i32),
        None => None,
    }
}

/// What the client records of ffprobe's parsed output (see `summarizes`).
pub fn probe_summary(p: &ProbeOutput) -> (m: ProbeSummary)
    ensures
        summarizes(m, p@),
{
    let ghost s = streams_of(p@);
    let mut has_audio = false;
    let mut width: Option<i32> = None;
    let mut height: Option<i32> = None;
    let mut codec: Option<String> = None;
    let mut rates: Vec<(String, String)> = Vec::new();
    let empty: Vec<ProbeStream> = Vec::new();
    let v = match &p.streams {
        Some(v) => v,
        None => &empty,
    };
    assert(v@.map_values(|x: ProbeStream| x@) =~= s);
    let mut i: usize = 0;
    while i < v.len()
        invariant
            i <= v.len(),
            v@.len() == s.len(),
            forall|j: int| 0 <= j < v@.len() ==> (#[trigger] v@[j])@ == s[j],
            has_audio == any_audio(s.take(i as int)),
            match last_video(s.take(i as int)) {
                Some(x) => width == narrow(x.width) && height == narrow(x.height) && opt_view(codec)
                    == x.codec_name,
                None => width is None && height is None && codec is None,
            },
            rates@.len() == video_rates(s.take(i as int)).len(),
            forall|k: int|
                0 <= k < rates@.len() ==> (#[trigger] rates@[k].0@, rates@[k].1@) == video_rates(
                    s.take(i as int),
                )[k],
        decreases v.len() - i,
    {
        let x = &v[i];
        let ghost pre = s.take(i as int);
        let ghost next = s.take(i + 1);
        assert(next.drop_last() =~= pre);
        assert(next.last() == s[i as int]);
        assert(s[i as int] == x@);
        let is_audio = is_kind(&x.codec_type, false);
        proof {
            assert forall|j: int| 0 <= j < pre.len() implies next[j] == pre[j] by {}
            if any_audio(pre) {
                let j = choose|j: int| 0 <= j < pre.len() && #[trigger] pre[j].codec_type == Some(audio_kind());
                assert(next[j] == pre[j]);
            }
            if is_audio {
                assert(next[i as int].codec_type == Some(audio_kind()));
            }
            if any_audio(next) && !is_audio {
                let j = choose|j: int| 0 <= j < next.len() && #[trigger] next[j].codec_type == Some(audio_kind());
                assert(j < i);
                assert(pre[j] == next[j]);
            }
        }
        has_audio = has_audio || is_audio;
        if is_kind(&x.codec_type, true) {
            width = narrow_exec(x.width);
            height = narrow_exec(x.height);
            codec = copy_opt(&x.codec_name);
            match &x.r_frame_rate {
                Some(r) => match split_rate(r.as_str()) {
                    Some(parts) => {
                        rates.push(parts);
                        assert(video_rates(next) =~= video_rates(pre).push((parts.0@, parts.1@)));
                    },
                    None => {},
                },
                None => {},
            }
        }
        i = i + 1;
    }
    assert(s.take(v.len() as int) =~= s);
    let bitrate = match &p.bit_rate {
        Some(b) => parse_i64(b.as_str()),
        None => None,
    };
    ProbeSummary { has_audio, width, height, codec, frame_rates: rates, duration: copy_opt(&p.duration), bitrate }
}

/// Reads ffprobe's output `stdout`: what `probe_summary` keeps of it when it is JSON, and
/// nothing otherwise.
pub fn probe_metadata(stdout: &[u8]) -> (m: ProbeSummary)
    ensures
        match probe_json(stdout@) {
            Some(p) => summarizes(m, p),
            None => empty_summary(m),
        },
{
    match parse_probe_output(stdout) {
        Some(p) => probe_summary(&p),
        None => ProbeSummary {
            has_audio: false,
            width: None,
            height: None,
            codec: None,
            frame_rates: Vec::new(),
            duration: None,
            bitrate: None,
        },
    }
}

} // verus!
