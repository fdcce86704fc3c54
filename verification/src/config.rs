use vstd::prelude::*;
use crate::text::chars_of;

verus! {

/// `c` is one of the ASCII digits `0`..`9`.
pub open spec fn is_digit(c: char) -> bool {
    '0' <= c && c <= '9'
}

/// Every character of `s` is an ASCII digit.
pub open spec fn all_digits(s: Seq<char>) -> bool {
    forall|i: int| 0 <= i < s.len() ==> is_digit(#[trigger] s[i])
}

/// The number that the decimal digits `s` denote (most significant first).
pub open spec fn digits_value(s: Seq<char>) -> nat
    decreases s.len(),
{
    if s.len() == 0 {
        0
    } else {
        digits_value(s.drop_last()) * 10 + ((s.last() as nat) - ('0' as nat)) as nat
    }
}

/// What `str::parse::<u64>` gives for `s`: an optional `+`, then one or more
/// ASCII digits and nothing else, whose value fits in a `u64`.
pub open spec fn spec_parse_u64(s: Seq<char>) -> Option<u64> {
    let body = if s.len() > 0 && s[0] == '+' { s.skip(1) } else { s };
    if body.len() > 0 && all_digits(body) && digits_value(body) <= u64::MAX {
        Some(digits_value(body) as u64)
    } else {
        None
    }
}

/// Parses a decimal unsigned 64-bit number the way `str::parse::<u64>` does.
pub fn parse_u64(s: &str) -> (r: Option<u64>)
    ensures
        r == spec_parse_u64(s@),
{
    let chars = chars_of(s);
    let n = chars.len();
    let start: usize = if n > 0 && chars[0] == '+' { 1 } else { 0 };
    let ghost body = if s@.len() > 0 && s@[0] == '+' { s@.skip(1) } else { s@ };
    assert(body =~= s@.subrange(start as int, n as int));
    if start == n {
        return None;
    }
    let mut value: u64 = 0;
    let mut i: usize = start;
    while i < n
        invariant
            chars@ == s@,
            n == chars@.len(),
            start <= i <= n,
            body =~= s@.subrange(start as int, n as int),
            body == (if s@.len() > 0 && s@[0] == '+' { s@.skip(1) } else { s@ }),
            all_digits(s@.subrange(start as int, i as int)),
            value as nat == digits_value(s@.subrange(start as int, i as int)),
        decreases n - i,
    {
        let c = chars[i];
        let ghost prefix = s@.subrange(start as int, i as int);
        let ghost next = s@.subrange(start as int, i + 1);
        assert(next.drop_last() =~= prefix);
        if !('0' <= c && c <= '9') {
            assert(body[i - start] == c);
            assert(!is_digit(body[i - start]));
            assert(!all_digits(body));
            return None;
        }
        let d: u64 = (c as u64) - ('0' as u64);
        if value > (u64::MAX - d) / 10 {
            proof {
                assert(body[i - start] == c);
                assert(all_digits(next));
                assert(digits_value(next) == value * 10 + d);
                assert(value * 10 + d > u64::MAX) by (nonlinear_arith)
                    requires
                        value > (u64::MAX - d) / 10,
                        d <= 9,
                ;
                if all_digits(body) {
                    assert(body.subrange(0, (i + 1 - start) as int) =~= next);
                    lemma_digits_value_prefix_grows(body, (i + 1 - start) as int);
                }
            }
            return None;
        }
        assert(value * 10 + d <= u64::MAX) by (nonlinear_arith)
            requires
                value <= (u64::MAX - d) / 10,
                d <= 9,
        ;
        value = value * 10 + d;
        proof {
            assert(body[i - start] == c);
            assert(all_digits(next));
        }
        i = i + 1;
    }
    assert(s@.subrange(start as int, n as int) =~= body);
    Some(value)
}

/// A longer run of digits never has a smaller value than a prefix of it.
pub proof fn lemma_digits_value_prefix_grows(s: Seq<char>, k: int)
    requires
        0 <= k <= s.len(),
        all_digits(s),
    ensures
        digits_value(s.subrange(0, k)) <= digits_value(s),
    decreases s.len() - k,
{
    if k < s.len() {
        lemma_digits_value_prefix_grows(s, k + 1);
        let t = s.subrange(0, k + 1);
        assert(t.drop_last() =~= s.subrange(0, k));
        assert(is_digit(t.last()));
    }
    else {
        assert(s.subrange(0, k) =~= s);
    }
}

} // verus!

verus! {

/// Seconds a single yt-dlp run may take before it is cancelled, when
/// `DOWNLOAD_TIMEOUT_SECS` is unset or unreadable.
pub const DEFAULT_DOWNLOAD_TIMEOUT_SECS: u64 = 30;

/// Videos longer than this many seconds trigger the audio/video prompt, when
/// `LONG_VIDEO_SECS` is unset or unreadable.
pub const DEFAULT_LONG_VIDEO_SECS: u64 = 300;

/// The number a setting holds: its value parsed as a `u64`, or `default`
/// where it is unset or does not parse.
pub open spec fn setting_or(value: Option<Seq<char>>, default: u64) -> u64 {
    match value {
        Some(v) => match spec_parse_u64(v) {
            Some(n) => n,
            None => default,
        },
        None => default,
    }
}

/// The view of an optional string slice.
pub open spec fn opt_view(value: Option<&str>) -> Option<Seq<char>> {
    match value {
        Some(v) => Some(v@),
        None => None,
    }
}

/// Reads a numeric setting: the parsed value, or `default`.
pub fn setting_u64_or(value: Option<&str>, default: u64) -> (r: u64)
    ensures
        r == setting_or(opt_view(value), default),
{
    match value {
        Some(v) => match parse_u64(v) {
            Some(n) => n,
            None => default,
        },
        None => default,
    }
}

/// The bot's settings.
#[derive(Debug)]
pub struct Config {
    /// Seconds a single yt-dlp run may take.
    pub download_timeout_secs: u64,
    /// Length in seconds above which a video triggers the audio/video prompt.
    pub long_video_secs: u64,
    /// Path or name of the yt-dlp program.
    pub ytdlp_bin: String,
    /// Path or name of the ffmpeg program.
    pub ffmpeg_bin: String,
    /// Path or name of the ffprobe program.
    pub ffprobe_bin: String,
}

impl Config {
    /// Builds the settings from the values of `DOWNLOAD_TIMEOUT_SECS` and
    /// `LONG_VIDEO_SECS` (each absent where unset) and the resolved tools.
    pub fn from_env_values(
        download_timeout: Option<&str>,
        long_video: Option<&str>,
        ytdlp_bin: String,
        ffmpeg_bin: String,
        ffprobe_bin: String,
    ) -> (c: Config)
        ensures
            c.download_timeout_secs == setting_or(opt_view(download_timeout), DEFAULT_DOWNLOAD_TIMEOUT_SECS),
            c.long_video_secs == setting_or(opt_view(long_video), DEFAULT_LONG_VIDEO_SECS),
            c.ytdlp_bin@ == ytdlp_bin@,
            c.ffmpeg_bin@ == ffmpeg_bin@,
            c.ffprobe_bin@ == ffprobe_bin@,
    {
        Config {
            download_timeout_secs: setting_u64_or(download_timeout, DEFAULT_DOWNLOAD_TIMEOUT_SECS),
            long_video_secs: setting_u64_or(long_video, DEFAULT_LONG_VIDEO_SECS),
            ytdlp_bin,
            ffmpeg_bin,
            ffprobe_bin,
        }
    }
}

/// The places where a tool is looked for when no override is given, in order:
/// Homebrew's, the usual local one, and the user's own (where the home
/// directory is known).
pub open spec fn spec_tool_candidates(tool: Seq<char>, home: Option<Seq<char>>) -> Seq<Seq<char>> {
    let common = seq!["/opt/homebrew/bin/"@ + tool, "/usr/local/bin/"@ + tool];
    match home {
        Some(h) => common.push(h + "/.local/bin/"@ + tool),
        None => common,
    }
}

/// A new string holding `a` followed by `b`.
fn concat_strs(a: &str, b: &str) -> (r: String)
    ensures
        r@ == a@ + b@,
{
    let mut r = String::from_str(a);
    r.append(b);
    r
}

/// The candidate paths for `tool` (see `spec_tool_candidates`).
pub fn tool_candidates(tool: &str, home: Option<&str>) -> (r: Vec<String>)
    ensures
        r@.len() == spec_tool_candidates(tool@, opt_view(home)).len(),
        forall|i: int| 0 <= i < r@.len() ==> #[trigger] r@[i]@ == spec_tool_candidates(tool@, opt_view(home))[i],
{
    let mut r: Vec<String> = Vec::new();
    r.push(concat_strs("/opt/homebrew/bin/", tool));
    r.push(concat_strs("/usr/local/bin/", tool));
    match home {
        Some(h) => {
            let mut p = concat_strs(h, "/.local/bin/");
            p.append(tool);
            r.push(p);
        },
        None => {},
    }
    r
}

/// The first candidate that exists, or `fallback` where none does.
pub open spec fn first_found(candidates: Seq<Seq<char>>, exists: Seq<bool>, fallback: Seq<char>) -> Seq<char>
    decreases candidates.len(),
{
    if candidates.len() == 0 || exists.len() == 0 {
        fallback
    } else if exists[0] {
        candidates[0]
    } else {
        first_found(candidates.drop_first(), exists.drop_first(), fallback)
    }
}

/// The program to run for `tool`: the override where one is set, else the
/// first candidate path that exists, else the bare name (looked up on `PATH`
/// when it is started).
pub open spec fn spec_pick_tool(
    override_value: Option<Seq<char>>,
    tool: Seq<char>,
    candidates: Seq<Seq<char>>,
    exists: Seq<bool>,
) -> Seq<char> {
    match override_value {
        Some(o) => o,
        None => first_found(candidates, exists, tool),
    }
}

/// The views of a vector of strings.
pub open spec fn views(v: Seq<String>) -> Seq<Seq<char>> {
    v.map_values(|s: String| s@)
}

/// Chooses the program for `tool` (see `spec_pick_tool`); `exists[i]` tells
/// whether `candidates[i]` is present on disk.
pub fn pick_tool(override_value: Option<&str>, tool: &str, candidates: &Vec<String>, exists: &Vec<bool>) -> (r: String)
    requires
        candidates@.len() == exists@.len(),
    ensures
        r@ == spec_pick_tool(opt_view(override_value), tool@, views(candidates@), exists@),
{
    if let Some(o) = override_value {
        return String::from_str(o);
    }
    let mut i: usize = 0;
    assert(views(candidates@).skip(0) =~= views(candidates@));
    assert(exists@.skip(0) =~= exists@);
    while i < candidates.len()
        invariant
            override_value is None,
            candidates@.len() == exists@.len(),
            i <= candidates@.len(),
            first_found(views(candidates@), exists@, tool@)
                == first_found(views(candidates@).skip(i as int), exists@.skip(i as int), tool@),
        decreases candidates@.len() - i,
    {
        let ghost c = views(candidates@).skip(i as int);
        let ghost e = exists@.skip(i as int);
        assert(c.drop_first() =~= views(candidates@).skip(i + 1));
        assert(e.drop_first() =~= exists@.skip(i + 1));
        assert(c.len() > 0 && e.len() > 0);
        assert(c[0] == candidates@[i as int]@);
        assert(e[0] == exists@[i as int]);
        if exists[i] {
            let r = candidates[i].clone();
            assert(r@ == candidates@[i as int]@);
            assert(first_found(c, e, tool@) == c[0]);
            return r;
        }
        i = i + 1;
    }
    assert(views(candidates@).skip(i as int).len() == 0);
    String::from_str(tool)
}


/// A numeric setting takes the number it holds; where it is unset or does
/// not read as a number, the download limit is 30 seconds and the long-video
/// threshold 300 seconds.
pub proof fn law_setting_defaults(value: Option<Seq<char>>, default: u64)
    ensures
        value matches Some(v) ==> (spec_parse_u64(v) matches Some(n) ==> setting_or(value, default) == n),
        (value is None || spec_parse_u64(value->Some_0) is None) ==> {
            &&& setting_or(value, default) == default
            &&& setting_or(value, DEFAULT_DOWNLOAD_TIMEOUT_SECS) == 30
            &&& setting_or(value, DEFAULT_LONG_VIDEO_SECS) == 300
        },
{
}

/// Where `exists[i]` holds and no earlier candidate exists, the search gives
/// candidate `i`.
proof fn lemma_first_found_first(candidates: Seq<Seq<char>>, exists: Seq<bool>, fallback: Seq<char>, i: int)
    requires
        candidates.len() == exists.len(),
        0 <= i < exists.len(),
        exists[i],
        forall|j: int| 0 <= j < i ==> !exists[j],
    ensures
        first_found(candidates, exists, fallback) == candidates[i],
    decreases i,
{
    if i > 0 {
        assert(!exists[0]);
        assert forall|j: int| 0 <= j < i - 1 implies !exists.drop_first()[j] by {
            assert(exists.drop_first()[j] == exists[j + 1]);
        }
        lemma_first_found_first(candidates.drop_first(), exists.drop_first(), fallback, i - 1);
    }
}

/// Where no candidate exists, the search gives the fallback.
proof fn lemma_first_found_none(candidates: Seq<Seq<char>>, exists: Seq<bool>, fallback: Seq<char>)
    requires
        candidates.len() == exists.len(),
        forall|j: int| 0 <= j < exists.len() ==> !exists[j],
    ensures
        first_found(candidates, exists, fallback) == fallback,
    decreases candidates.len(),
{
    if candidates.len() > 0 {
        assert(!exists[0]);
        assert forall|j: int| 0 <= j < exists.drop_first().len() implies !exists.drop_first()[j] by {
            assert(exists.drop_first()[j] == exists[j + 1]);
        }
        lemma_first_found_none(candidates.drop_first(), exists.drop_first(), fallback);
    }
}

/// A tool is looked up in order: the override wherever one is set; else the
/// first candidate path that exists, earlier ones not existing; else the bare
/// tool name.
pub proof fn law_pick_tool_order(
    override_value: Option<Seq<char>>,
    tool: Seq<char>,
    candidates: Seq<Seq<char>>,
    exists: Seq<bool>,
    i: int,
)
    requires
        candidates.len() == exists.len(),
    ensures
        override_value matches Some(o) ==> spec_pick_tool(override_value, tool, candidates, exists) == o,
        (override_value is None && 0 <= i < exists.len() && exists[i] && forall|j: int| 0 <= j < i ==> !exists[j])
            ==> spec_pick_tool(override_value, tool, candidates, exists) == candidates[i],
        (override_value is None && forall|j: int| 0 <= j < exists.len() ==> !exists[j])
            ==> spec_pick_tool(override_value, tool, candidates, exists) == tool,
{
    if override_value is None && 0 <= i < exists.len() && exists[i] && forall|j: int| 0 <= j < i ==> !exists[j] {
        lemma_first_found_first(candidates, exists, tool, i);
    }
    if override_value is None && forall|j: int| 0 <= j < exists.len() ==> !exists[j] {
        lemma_first_found_none(candidates, exists, tool);
    }
}

/// The candidate paths, in order: Homebrew's `/opt/homebrew/bin`, then
/// `/usr/local/bin`, then `~/.local/bin` where the home directory is known.
pub proof fn law_tool_candidates(tool: Seq<char>, home: Option<Seq<char>>)
    ensures
        spec_tool_candidates(tool, home)[0] == "/opt/homebrew/bin/"@ + tool,
        spec_tool_candidates(tool, home)[1] == "/usr/local/bin/"@ + tool,
        home matches Some(h) ==> spec_tool_candidates(tool, home) == seq![
            "/opt/homebrew/bin/"@ + tool,
            "/usr/local/bin/"@ + tool,
            h + "/.local/bin/"@ + tool,
        ],
        home is None ==> spec_tool_candidates(tool, home).len() == 2,
{
    if let Some(h) = home {
        assert(spec_tool_candidates(tool, home) =~= seq![
            "/opt/homebrew/bin/"@ + tool,
            "/usr/local/bin/"@ + tool,
            h + "/.local/bin/"@ + tool,
        ]);
    }
}

} // verus!
