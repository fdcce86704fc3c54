use vstd::prelude::*;
use crate::text::{chars_of, spec_trim, trim};
use crate::config::{all_digits, digits_value, is_digit};
use crate::download::{RunOutcome, utf8_lossy};
use crate::config::views;

verus! {

/// A video's length as yt-dlp reports it: whole seconds, and whether a
/// fraction of a second follows.
#[derive(Clone, Copy, Debug, PartialEq, Eq, Structural)]
pub struct VideoLength {
    pub whole_secs: u64,
    pub has_fraction: bool,
}

/// The position of the first `.` in `s`, if any.
pub open spec fn first_dot(s: Seq<char>) -> Option<int>
    decreases s.len(),
{
    if s.len() == 0 {
        None
    } else if s[0] == '.' {
        Some(0)
    } else {
        match first_dot(s.drop_first()) {
            Some(i) => Some(i + 1),
            None => None,
        }
    }
}

/// A fraction's digits hold something other than zeros.
pub open spec fn nonzero_fraction(digits: Seq<char>) -> bool {
    exists|i: int| 0 <= i < digits.len() && digits[i] != '0'
}

/// The length that yt-dlp's printed duration `s` (surrounding white space
/// aside) stands for: decimal digits, optionally a `.` and more digits; the
/// whole seconds must fit in a `u64`. Anything else (such as `NA`) tells no
/// length.
pub open spec fn spec_parse_length(text: Seq<char>) -> Option<VideoLength> {
    let s = spec_trim(text);
    let (whole, frac) = match first_dot(s) {
        Some(k) => (s.subrange(0, k), s.subrange(k + 1, s.len() as int)),
        None => (s, Seq::<char>::empty()),
    };
    if whole.len() > 0 && all_digits(whole) && all_digits(frac) && digits_value(whole) <= u64::MAX {
        Some(VideoLength { whole_secs: digits_value(whole) as u64, has_fraction: nonzero_fraction(frac) })
    } else {
        None
    }
}

/// Where no `.` comes before position `k`, and one stands at `k` (if `k` is
/// inside `s`), `first_dot` finds `k`; where `k` is the end, it finds none.
proof fn lemma_first_dot_unique(s: Seq<char>, k: int)
    requires
        0 <= k <= s.len(),
        forall|j: int| 0 <= j < k ==> s[j] != '.',
        k < s.len() ==> s[k] == '.',
    ensures
        first_dot(s) == (if k < s.len() { Some(k) } else { None::<int> }),
    decreases s.len(),
{
    if s.len() > 0 && s[0] != '.' {
        assert forall|j: int| 0 <= j < k - 1 implies s.drop_first()[j] != '.' by {
            assert(s.drop_first()[j] == s[j + 1]);
        }
        if k < s.len() {
            assert(s.drop_first()[k - 1] == s[k]);
        }
        lemma_first_dot_unique(s.drop_first(), k - 1);
    }
}

/// The value of the decimal digits `v[from..to]`, where it fits in a `u64`.
fn digits_u64(v: &Vec<char>, from: usize, to: usize) -> (r: Option<u64>)
    requires
        from <= to <= v@.len(),
        all_digits(v@.subrange(from as int, to as int)),
    ensures
        match r {
            Some(n) => n as nat == digits_value(v@.subrange(from as int, to as int)),
            None => digits_value(v@.subrange(from as int, to as int)) > u64::MAX,
        },
{
    let mut value: u64 = 0;
    let mut i: usize = from;
    while i < to
        invariant
            from <= i <= to <= v@.len(),
            all_digits(v@.subrange(from as int, to as int)),
            value as nat == digits_value(v@.subrange(from as int, i as int)),
        decreases to - i,
    {
        let ghost prefix = v@.subrange(from as int, i as int);
        let ghost next = v@.subrange(from as int, i + 1);
        assert(next.drop_last() =~= prefix);
        assert(v@.subrange(from as int, to as int)[i - from] == v@[i as int]);
        let d: u64 = (v[i] as u64) - ('0' as u64);
        if value > (u64::MAX - d) / 10 {
            proof {
                assert(value * 10 + d > u64::MAX) by (nonlinear_arith)
                    requires
                        value > (u64::MAX - d) / 10,
                        d <= 9,
                ;
                crate::config::lemma_digits_value_prefix_grows(v@.subrange(from as int, to as int), (i + 1 - from) as int);
                assert(v@.subrange(from as int, to as int).subrange(0, (i + 1 - from) as int) =~= next);
            }
            return None;
        }
        assert(value * 10 + d <= u64::MAX) by (nonlinear_arith)
            requires
                value <= (u64::MAX - d) / 10,
                d <= 9,
        ;
        value = value * 10 + d;
        i = i + 1;
    }
    Some(value)
}

/// Reads the length that yt-dlp printed (see `spec_parse_length`).
pub fn parse_length(text: &str) -> (r: Option<VideoLength>)
    ensures
        r == spec_parse_length(text@),
{
    let t = trim(text);
    let v = chars_of(t.as_str());
    let n = v.len();
    let ghost s = spec_trim(text@);
    // Find the first dot and check that every other character is a digit.
    let mut k: usize = 0;
    while k < n && v[k] != '.'
        invariant
            v@ == s,
            n == s.len(),
            k <= n,
            forall|j: int| 0 <= j < k ==> s[j] != '.',
        decreases n - k,
    {
        k = k + 1;
    }
    proof {
        lemma_first_dot_unique(s, k as int);
    }
    let frac_start: usize = if k < n { k + 1 } else { n };
    let ghost whole = s.subrange(0, k as int);
    let ghost frac = s.subrange(frac_start as int, n as int);
    assert(k == n ==> frac =~= Seq::<char>::empty());
    assert(k == n ==> whole =~= s);
    assert(spec_parse_length(text@) == (if whole.len() > 0 && all_digits(whole) && all_digits(frac)
        && digits_value(whole) <= u64::MAX {
        Some(VideoLength { whole_secs: digits_value(whole) as u64, has_fraction: nonzero_fraction(frac) })
    } else {
        None
    }));
    if k == 0 {
        return None;
    }
    if !all_digit_chars(&v, 0, k) {
        return None;
    }
    if !all_digit_chars(&v, frac_start, n) {
        return None;
    }
    let whole_value = match digits_u64(&v, 0, k) {
        Some(w) => w,
        None => {
            return None;
        },
    };
    let mut nonzero = false;
    let mut i: usize = frac_start;
    while i < n
        invariant
            v@ == s,
            n == s.len(),
            frac_start <= i <= n,
            frac == s.subrange(frac_start as int, n as int),
            nonzero <==> exists|j: int| 0 <= j < i - frac_start && frac[j] != '0',
        decreases n - i,
    {
        if v[i] != '0' {
            assert(frac[i - frac_start] != '0');
            nonzero = true;
        }
        i = i + 1;
    }
    assert(nonzero == nonzero_fraction(frac));
    Some(VideoLength { whole_secs: whole_value, has_fraction: nonzero })
}

/// Whether `v[from..to]` are all ASCII digits.
fn all_digit_chars(v: &Vec<char>, from: usize, to: usize) -> (r: bool)
    requires
        from <= to <= v@.len(),
    ensures
        r == all_digits(v@.subrange(from as int, to as int)),
{
    let mut i: usize = from;
    while i < to
        invariant
            from <= i <= to <= v@.len(),
            forall|j: int| from <= j < i ==> is_digit(v@[j]),
        decreases to - i,
    {
        if !('0' <= v[i] && v[i] <= '9') {
            assert(!is_digit(v@.subrange(from as int, to as int)[i - from]));
            return false;
        }
        i = i + 1;
    }
    assert forall|j: int| 0 <= j < to - from implies is_digit(#[trigger] v@.subrange(from as int, to as int)[j]) by {
        assert(v@.subrange(from as int, to as int)[j] == v@[from + j]);
    }
    true
}

} // verus!

verus! {

/// The arguments that make yt-dlp print a link's duration without
/// downloading anything, followed by the login arguments and the link.
pub open spec fn spec_length_probe_args(login: Seq<Seq<char>>, url: Seq<char>) -> Seq<Seq<char>> {
    crate::args::spec_ytdlp_argv(
        seq!["--print"@, "duration"@, "--skip-download"@, "--no-warnings"@],
        login,
        url,
    )
}

/// Builds `spec_length_probe_args`.
pub fn length_probe_args(login: &Vec<String>, url: &str) -> (v: Vec<String>)
    ensures
        views(v@) == spec_length_probe_args(views(login@), url@),
{
    let mut own: Vec<String> = Vec::new();
    own.push(String::from_str("--print"));
    own.push(String::from_str("duration"));
    own.push(String::from_str("--skip-download"));
    own.push(String::from_str("--no-warnings"));
    assert(views(own@) =~= seq!["--print"@, "duration"@, "--skip-download"@, "--no-warnings"@]);
    crate::args::ytdlp_argv(own, login, url)
}

/// The length a duration probe found: what a successful run printed; no
/// length where the run did not succeed.
pub open spec fn spec_probed_length(o: RunOutcome) -> Option<VideoLength> {
    match o {
        RunOutcome::Completed(out) => if out.success {
            spec_parse_length(utf8_lossy(out.stdout@))
        } else {
            None
        },
        _ => None,
    }
}

/// Reads the outcome of a duration probe (see `spec_probed_length`).
pub fn probed_length(o: RunOutcome) -> (r: Option<VideoLength>)
    ensures
        r == spec_probed_length(o),
{
    match o {
        RunOutcome::Completed(out) => {
            if out.success {
                let text = crate::download::lossy_stdout(&out);
                parse_length(text.as_str())
            } else {
                None
            }
        },
        _ => None,
    }
}

/// The video runs longer than `limit` seconds.
pub open spec fn spec_longer_than(len: VideoLength, limit: u64) -> bool {
    len.whole_secs > limit || (len.whole_secs == limit && len.has_fraction)
}

/// Whether the video runs longer than `limit` seconds.
pub fn longer_than(len: VideoLength, limit: u64) -> (r: bool)
    ensures
        r == spec_longer_than(len, limit),
{
    len.whole_secs > limit || (len.whole_secs == limit && len.has_fraction)
}

/// A video is longer than the limit exactly when its duration exceeds it: for
/// a duration of `n / k` seconds (so `n / k` whole seconds, with a fraction
/// where `k` does not divide `n`), that is `n > limit * k`. In particular a
/// video shorter than the limit by a whole second or more is never long,
/// whatever its fraction, and one a whole second or more over it always is.
pub proof fn law_longer_than_means_longer(len: VideoLength, limit: u64, n: nat, k: nat)
    requires
        k > 0,
        len.whole_secs == n / k,
        len.has_fraction == (n % k != 0),
    ensures
        spec_longer_than(len, limit) <==> n > limit * k,
        len.whole_secs < limit ==> !spec_longer_than(len, limit),
        len.whole_secs > limit ==> spec_longer_than(len, limit),
        !len.has_fraction ==> (spec_longer_than(len, limit) <==> len.whole_secs > limit),
{
    let w = n / k;
    let r = n % k;
    assert(n == k * w + r && 0 <= r < k) by (nonlinear_arith)
        requires k > 0, w == n / k, r == n % k;
    if w > limit {
        assert(n > limit * k) by (nonlinear_arith)
            requires n == k * w + r, r >= 0, w >= limit + 1, k > 0;
    } else if w == limit {
        assert(n == limit * k + r) by (nonlinear_arith)
            requires n == k * w + r, w == limit;
    } else {
        assert(n < limit * k) by (nonlinear_arith)
            requires n == k * w + r, r < k, w + 1 <= limit, k > 0;
    }
}

/// The length in minutes, rounded up: the fewest whole minutes that cover it.
pub open spec fn spec_minutes_rounded_up(len: VideoLength) -> nat {
    let secs = len.whole_secs + if len.has_fraction { 1int } else { 0 };
    ((secs + 59) / 60) as nat
}

/// Computes `spec_minutes_rounded_up`.
pub fn minutes_rounded_up(len: VideoLength) -> (m: u64)
    ensures
        m as nat == spec_minutes_rounded_up(len),
        m * 60 >= len.whole_secs + (if len.has_fraction { 1int } else { 0 }),
        m == 0 || (m - 1) * 60 < len.whole_secs + (if len.has_fraction { 1int } else { 0 }),
{
    let w = len.whole_secs;
    let q = w / 60;
    let r = w % 60;
    if len.has_fraction {
        assert((w + 1 + 59) / 60 == q + 1) by (nonlinear_arith)
            requires q == w / 60, r == w % 60, w >= 0;
        q + 1
    } else if r > 0 {
        assert((w + 59) / 60 == q + 1) by (nonlinear_arith)
            requires q == w / 60, r == w % 60, r > 0, w >= 0;
        q + 1
    } else {
        assert((w + 59) / 60 == q) by (nonlinear_arith)
            requires q == w / 60, r == w % 60, r == 0, w >= 0;
        q
    }
}

} // verus!

verus! {

/// The arguments that make ffprobe print one property (`width` or `height`)
/// of the first video stream of the file at `path`, as a bare number.
pub open spec fn spec_dimension_probe_args(path: Seq<char>, property: Seq<char>) -> Seq<Seq<char>> {
    seq![
        "-v"@, "error"@,
        "-select_streams"@, "v:0"@,
        "-show_entries"@, "stream="@ + property,
        "-of"@, "default=noprint_wrappers=1:nokey=1"@,
        path,
    ]
}

/// Builds `spec_dimension_probe_args`.
pub fn dimension_probe_args(path: &str, property: &str) -> (v: Vec<String>)
    ensures
        views(v@) == spec_dimension_probe_args(path@, property@),
{
    let mut v: Vec<String> = Vec::new();
    v.push(String::from_str("-v"));
    v.push(String::from_str("error"));
    v.push(String::from_str("-select_streams"));
    v.push(String::from_str("v:0"));
    v.push(String::from_str("-show_entries"));
    let mut entry = String::from_str("stream=");
    entry.append(property);
    v.push(entry);
    v.push(String::from_str("-of"));
    v.push(String::from_str("default=noprint_wrappers=1:nokey=1"));
    v.push(String::from_str(path));
    assert(views(v@) =~= spec_dimension_probe_args(path@, property@));
    v
}

/// The number ffprobe printed for a dimension, where it is one that fits a `u32`.
pub open spec fn spec_dimension(text: Seq<char>) -> Option<u32> {
    match crate::config::spec_parse_u64(spec_trim(text)) {
        Some(n) => if n <= u32::MAX { Some(n as u32) } else { None },
        None => None,
    }
}

/// Reads a dimension that ffprobe printed (see `spec_dimension`).
pub fn dimension(text: &str) -> (r: Option<u32>)
    ensures
        r == spec_dimension(text@),
{
    let t = trim(text);
    match crate::config::parse_u64(t.as_str()) {
        Some(n) => if n <= 0xffff_ffff { Some(n as u32) } else { None },
        None => None,
    }
}

/// The dimension a probe found: what a successful run printed; none otherwise.
pub open spec fn spec_probed_dimension(o: RunOutcome) -> Option<u32> {
    match o {
        RunOutcome::Completed(out) => if out.success {
            spec_dimension(utf8_lossy(out.stdout@))
        } else {
            None
        },
        _ => None,
    }
}

/// Reads the outcome of a dimension probe (see `spec_probed_dimension`).
pub fn probed_dimension(o: RunOutcome) -> (r: Option<u32>)
    ensures
        r == spec_probed_dimension(o),
{
    match o {
        RunOutcome::Completed(out) => {
            if out.success {
                let text = crate::download::lossy_stdout(&out);
                dimension(text.as_str())
            } else {
                None
            }
        },
        _ => None,
    }
}

} // verus!
