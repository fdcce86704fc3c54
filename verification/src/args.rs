use vstd::prelude::*;
use crate::text::{contains_str, has_substring};
use crate::config::views;

verus! {

/// Appends a copy of `lit` to `v`.
fn push_str(v: &mut Vec<String>, lit: &str)
    ensures
        views(final(v)@) == views(old(v)@).push(lit@),
{
    v.push(String::from_str(lit));
    assert(views(final(v)@) =~= views(old(v)@).push(lit@));
}

/// Appends copies of all of `items` to `v`.
fn push_all(v: &mut Vec<String>, items: &Vec<String>)
    ensures
        views(final(v)@) == views(old(v)@) + views(items@),
{
    let mut i: usize = 0;
    while i < items.len()
        invariant
            i <= items@.len(),
            views(v@) == views(old(v)@) + views(items@).subrange(0, i as int),
        decreases items@.len() - i,
    {
        let ghost before = views(v@);
        v.push(items[i].clone());
        i = i + 1;
        assert(views(v@) =~= before.push(items@[i - 1]@));
        assert(views(v@) =~= views(old(v)@) + views(items@).subrange(0, i as int));
    }
    assert(views(items@).subrange(0, items@.len() as int) =~= views(items@));
}

/// The arguments of the first, preferred video download: an MP4 of at most
/// 50 MB (video) plus 10 MB (audio), re-encoded for streaming, into `output`.
pub open spec fn spec_preferred_video_args(ffmpeg_dir: Seq<char>, output: Seq<char>) -> Seq<Seq<char>> {
    seq![
        "--ffmpeg-location"@, ffmpeg_dir,
        "-f"@, "bestvideo[filesize<50M][ext=mp4]+bestaudio[filesize<10M]/best[ext=mp4]/best"@,
        "--max-filesize"@, "50M"@,
        "-o"@, output,
        "--merge-output-format"@, "mp4"@,
        "--postprocessor-args"@, "-c:v libx264 -preset fast -crf 23 -c:a aac -movflags +faststart"@,
        "--no-progress"@,
    ]
}

/// Builds `spec_preferred_video_args`.
pub fn preferred_video_args(ffmpeg_dir: &str, output: &str) -> (v: Vec<String>)
    ensures
        views(v@) == spec_preferred_video_args(ffmpeg_dir@, output@),
{
    let mut v: Vec<String> = Vec::new();
    push_str(&mut v, "--ffmpeg-location");
    push_str(&mut v, ffmpeg_dir);
    push_str(&mut v, "-f");
    push_str(&mut v, "bestvideo[filesize<50M][ext=mp4]+bestaudio[filesize<10M]/best[ext=mp4]/best");
    push_str(&mut v, "--max-filesize");
    push_str(&mut v, "50M");
    push_str(&mut v, "-o");
    push_str(&mut v, output);
    push_str(&mut v, "--merge-output-format");
    push_str(&mut v, "mp4");
    push_str(&mut v, "--postprocessor-args");
    push_str(&mut v, "-c:v libx264 -preset fast -crf 23 -c:a aac -movflags +faststart");
    push_str(&mut v, "--no-progress");
    assert(views(v@) =~= spec_preferred_video_args(ffmpeg_dir@, output@));
    v
}

/// The arguments of the fallback video download: the best video and audio
/// streams, remuxed into MP4, into `output`.
pub open spec fn spec_fallback_video_args(ffmpeg_dir: Seq<char>, output: Seq<char>) -> Seq<Seq<char>> {
    seq![
        "--ffmpeg-location"@, ffmpeg_dir,
        "-f"@, "bestvideo+bestaudio"@,
        "-o"@, output,
        "--remux-video"@, "mp4"@,
        "--no-warnings"@, "--no-progress"@,
    ]
}

/// Builds `spec_fallback_video_args`.
pub fn fallback_video_args(ffmpeg_dir: &str, output: &str) -> (v: Vec<String>)
    ensures
        views(v@) == spec_fallback_video_args(ffmpeg_dir@, output@),
{
    let mut v: Vec<String> = Vec::new();
    push_str(&mut v, "--ffmpeg-location");
    push_str(&mut v, ffmpeg_dir);
    push_str(&mut v, "-f");
    push_str(&mut v, "bestvideo+bestaudio");
    push_str(&mut v, "-o");
    push_str(&mut v, output);
    push_str(&mut v, "--remux-video");
    push_str(&mut v, "mp4");
    push_str(&mut v, "--no-warnings");
    push_str(&mut v, "--no-progress");
    assert(views(v@) =~= spec_fallback_video_args(ffmpeg_dir@, output@));
    v
}

/// The arguments of the audio download: a small audio-only format into
/// `output`, with the title written to `title_file`.
pub open spec fn spec_audio_args(output: Seq<char>, title_file: Seq<char>) -> Seq<Seq<char>> {
    seq![
        "-f"@, "139/140/bestaudio[abr<=50]/bestaudio"@,
        "-o"@, output,
        "--print-to-file"@, "title"@, title_file,
        "--no-warnings"@, "--no-progress"@,
    ]
}

/// Builds `spec_audio_args`.
pub fn audio_args(output: &str, title_file: &str) -> (v: Vec<String>)
    ensures
        views(v@) == spec_audio_args(output@, title_file@),
{
    let mut v: Vec<String> = Vec::new();
    push_str(&mut v, "-f");
    push_str(&mut v, "139/140/bestaudio[abr<=50]/bestaudio");
    push_str(&mut v, "-o");
    push_str(&mut v, output);
    push_str(&mut v, "--print-to-file");
    push_str(&mut v, "title");
    push_str(&mut v, title_file);
    push_str(&mut v, "--no-warnings");
    push_str(&mut v, "--no-progress");
    assert(views(v@) =~= spec_audio_args(output@, title_file@));
    v
}

/// The arguments that make ffmpeg re-encode `input` into a streamable MP4 at
/// most 1280 pixels wide, written to `output` (overwriting it).
pub open spec fn spec_reencode_args(input: Seq<char>, output: Seq<char>) -> Seq<Seq<char>> {
    seq![
        "-y"@, "-i"@, input,
        "-c:v"@, "libx264"@,
        "-preset"@, "fast"@,
        "-crf"@, "24"@,
        "-vf"@, "scale=1280:-2"@,
        "-c:a"@, "aac"@,
        "-b:a"@, "128k"@,
        "-movflags"@, "+faststart"@,
        "-f"@, "mp4"@,
        output,
    ]
}

/// Builds `spec_reencode_args`.
pub fn reencode_args(input: &str, output: &str) -> (v: Vec<String>)
    ensures
        views(v@) == spec_reencode_args(input@, output@),
{
    let mut v: Vec<String> = Vec::new();
    push_str(&mut v, "-y");
    push_str(&mut v, "-i");
    push_str(&mut v, input);
    push_str(&mut v, "-c:v");
    push_str(&mut v, "libx264");
    push_str(&mut v, "-preset");
    push_str(&mut v, "fast");
    push_str(&mut v, "-crf");
    push_str(&mut v, "24");
    push_str(&mut v, "-vf");
    push_str(&mut v, "scale=1280:-2");
    push_str(&mut v, "-c:a");
    push_str(&mut v, "aac");
    push_str(&mut v, "-b:a");
    push_str(&mut v, "128k");
    push_str(&mut v, "-movflags");
    push_str(&mut v, "+faststart");
    push_str(&mut v, "-f");
    push_str(&mut v, "mp4");
    push_str(&mut v, output);
    assert(views(v@) =~= spec_reencode_args(input@, output@));
    v
}

/// The complete argument list of a yt-dlp run: the run's own arguments, then
/// the login arguments, then the link.
pub open spec fn spec_ytdlp_argv(args: Seq<Seq<char>>, auth: Seq<Seq<char>>, url: Seq<char>) -> Seq<Seq<char>> {
    args + auth + seq![url]
}

/// Builds `spec_ytdlp_argv`.
pub fn ytdlp_argv(args: Vec<String>, auth: &Vec<String>, url: &str) -> (v: Vec<String>)
    ensures
        views(v@) == spec_ytdlp_argv(views(args@), views(auth@), url@),
{
    let mut v = args;
    push_all(&mut v, auth);
    push_str(&mut v, url);
    v
}


/// Each flag that a download sets is followed by its value: the preferred
/// video download caps the file at 50 MB, picks an MP4 under 50 MB with audio
/// under 10 MB, merges into MP4 and writes to `output`; the fallback takes the
/// best video and audio, remuxed into MP4, into `output`; the audio download
/// writes the sound to `output` and the title to `title_file`; and both video
/// downloads give ffmpeg's location.
pub proof fn law_download_args(ffmpeg_dir: Seq<char>, output: Seq<char>, title_file: Seq<char>)
    ensures
        ({
            let a = spec_preferred_video_args(ffmpeg_dir, output);
            &&& exists|i: int| 0 <= i < a.len() - 1 && #[trigger] a[i] == "--max-filesize"@ && a[i + 1] == "50M"@
            &&& exists|i: int| 0 <= i < a.len() - 1 && #[trigger] a[i] == "-f"@
                && a[i + 1] == "bestvideo[filesize<50M][ext=mp4]+bestaudio[filesize<10M]/best[ext=mp4]/best"@
            &&& exists|i: int| 0 <= i < a.len() - 1 && #[trigger] a[i] == "-o"@ && a[i + 1] == output
            &&& exists|i: int| 0 <= i < a.len() - 1 && #[trigger] a[i] == "--merge-output-format"@ && a[i + 1] == "mp4"@
            &&& exists|i: int| 0 <= i < a.len() - 1 && #[trigger] a[i] == "--ffmpeg-location"@ && a[i + 1] == ffmpeg_dir
        }),
        ({
            let a = spec_fallback_video_args(ffmpeg_dir, output);
            &&& exists|i: int| 0 <= i < a.len() - 1 && #[trigger] a[i] == "-f"@ && a[i + 1] == "bestvideo+bestaudio"@
            &&& exists|i: int| 0 <= i < a.len() - 1 && #[trigger] a[i] == "-o"@ && a[i + 1] == output
            &&& exists|i: int| 0 <= i < a.len() - 1 && #[trigger] a[i] == "--remux-video"@ && a[i + 1] == "mp4"@
            &&& exists|i: int| 0 <= i < a.len() - 1 && #[trigger] a[i] == "--ffmpeg-location"@ && a[i + 1] == ffmpeg_dir
        }),
        ({
            let a = spec_audio_args(output, title_file);
            &&& exists|i: int| 0 <= i < a.len() - 1 && #[trigger] a[i] == "-o"@ && a[i + 1] == output
            &&& exists|i: int| 0 <= i < a.len() - 2 && #[trigger] a[i] == "--print-to-file"@ && a[i + 1] == "title"@
                && a[i + 2] == title_file
        }),
{
    let a = spec_preferred_video_args(ffmpeg_dir, output);
    assert(a[0] == "--ffmpeg-location"@ && a[1] == ffmpeg_dir);
    assert(a[2] == "-f"@);
    assert(a[3] == "bestvideo[filesize<50M][ext=mp4]+bestaudio[filesize<10M]/best[ext=mp4]/best"@);
    assert(a[4] == "--max-filesize"@ && a[5] == "50M"@);
    assert(a[6] == "-o"@ && a[7] == output);
    assert(a[8] == "--merge-output-format"@ && a[9] == "mp4"@);
    let b = spec_fallback_video_args(ffmpeg_dir, output);
    assert(b[0] == "--ffmpeg-location"@ && b[1] == ffmpeg_dir);
    assert(b[2] == "-f"@ && b[3] == "bestvideo+bestaudio"@);
    assert(b[4] == "-o"@ && b[5] == output);
    assert(b[6] == "--remux-video"@ && b[7] == "mp4"@);
    let c = spec_audio_args(output, title_file);
    assert(c[2] == "-o"@ && c[3] == output);
    assert(c[4] == "--print-to-file"@ && c[5] == "title"@ && c[6] == title_file);
}

} // verus!

verus! {

/// A site whose login yt-dlp can be given.
#[derive(Clone, Copy, Debug, PartialEq, Eq, Structural)]
pub enum LoginSite {
    Facebook,
    Instagram,
    Twitter,
    TikTok,
    Reddit,
    LinkedIn,
}

/// The site whose login applies to `url`, judged by the domain it mentions.
pub open spec fn spec_login_site(url: Seq<char>) -> Option<LoginSite> {
    if has_substring(url, "facebook.com"@) {
        Some(LoginSite::Facebook)
    } else if has_substring(url, "instagram.com"@) {
        Some(LoginSite::Instagram)
    } else if has_substring(url, "x.com"@) || has_substring(url, "twitter.com"@) {
        Some(LoginSite::Twitter)
    } else if has_substring(url, "tiktok.com"@) {
        Some(LoginSite::TikTok)
    } else if has_substring(url, "reddit.com"@) {
        Some(LoginSite::Reddit)
    } else if has_substring(url, "linkedin.com"@) {
        Some(LoginSite::LinkedIn)
    } else {
        None
    }
}

/// Each site's login applies to the links that mention its domain
/// (facebook.com; instagram.com; x.com or twitter.com; tiktok.com;
/// reddit.com; linkedin.com), a link that mentions several going to the one
/// listed first; a link that mentions none gets no login.
pub proof fn law_login_site_domains(url: Seq<char>)
    ensures
        has_substring(url, "facebook.com"@) ==> spec_login_site(url) == Some(LoginSite::Facebook),
        has_substring(url, "instagram.com"@) && !has_substring(url, "facebook.com"@)
            ==> spec_login_site(url) == Some(LoginSite::Instagram),
        (has_substring(url, "x.com"@) || has_substring(url, "twitter.com"@)) && !has_substring(url, "facebook.com"@)
            && !has_substring(url, "instagram.com"@) ==> spec_login_site(url) == Some(LoginSite::Twitter),
        has_substring(url, "tiktok.com"@) && !has_substring(url, "facebook.com"@) && !has_substring(url, "instagram.com"@)
            && !has_substring(url, "x.com"@) && !has_substring(url, "twitter.com"@)
            ==> spec_login_site(url) == Some(LoginSite::TikTok),
        has_substring(url, "reddit.com"@) && !has_substring(url, "facebook.com"@) && !has_substring(url, "instagram.com"@)
            && !has_substring(url, "x.com"@) && !has_substring(url, "twitter.com"@) && !has_substring(url, "tiktok.com"@)
            ==> spec_login_site(url) == Some(LoginSite::Reddit),
        has_substring(url, "linkedin.com"@) && !has_substring(url, "facebook.com"@) && !has_substring(url, "instagram.com"@)
            && !has_substring(url, "x.com"@) && !has_substring(url, "twitter.com"@) && !has_substring(url, "tiktok.com"@)
            && !has_substring(url, "reddit.com"@) ==> spec_login_site(url) == Some(LoginSite::LinkedIn),
        spec_login_site(url) == Some(LoginSite::Facebook) ==> has_substring(url, "facebook.com"@),
        spec_login_site(url) == Some(LoginSite::Instagram) ==> has_substring(url, "instagram.com"@),
        spec_login_site(url) == Some(LoginSite::Twitter) ==> has_substring(url, "x.com"@) || has_substring(url, "twitter.com"@),
        spec_login_site(url) == Some(LoginSite::TikTok) ==> has_substring(url, "tiktok.com"@),
        spec_login_site(url) == Some(LoginSite::Reddit) ==> has_substring(url, "reddit.com"@),
        spec_login_site(url) == Some(LoginSite::LinkedIn) ==> has_substring(url, "linkedin.com"@),
        spec_login_site(url) is None <==> !has_substring(url, "facebook.com"@) && !has_substring(url, "instagram.com"@)
            && !has_substring(url, "x.com"@) && !has_substring(url, "twitter.com"@) && !has_substring(url, "tiktok.com"@)
            && !has_substring(url, "reddit.com"@) && !has_substring(url, "linkedin.com"@),
{
}

/// Finds the site whose login applies to `url` (see `spec_login_site`).
pub fn login_site(url: &str) -> (r: Option<LoginSite>)
    ensures
        r == spec_login_site(url@),
{
    if contains_str(url, "facebook.com") {
        Some(LoginSite::Facebook)
    } else if contains_str(url, "instagram.com") {
        Some(LoginSite::Instagram)
    } else if contains_str(url, "x.com") || contains_str(url, "twitter.com") {
        Some(LoginSite::Twitter)
    } else if contains_str(url, "tiktok.com") {
        Some(LoginSite::TikTok)
    } else if contains_str(url, "reddit.com") {
        Some(LoginSite::Reddit)
    } else if contains_str(url, "linkedin.com") {
        Some(LoginSite::LinkedIn)
    } else {
        None
    }
}

/// The prefix of the environment variables that hold a site's login.
pub open spec fn spec_env_prefix(site: LoginSite) -> Seq<char> {
    match site {
        LoginSite::Facebook => "FACEBOOK"@,
        LoginSite::Instagram => "INSTAGRAM"@,
        LoginSite::Twitter => "TWITTER"@,
        LoginSite::TikTok => "TIKTOK"@,
        LoginSite::Reddit => "REDDIT"@,
        LoginSite::LinkedIn => "LINKEDIN"@,
    }
}

impl LoginSite {
    /// The names of the environment variables that hold this site's user name
    /// and password: the prefix followed by `_USERNAME` and `_PASSWORD`.
    pub fn credential_vars(self) -> (r: (String, String))
        ensures
            r.0@ == spec_env_prefix(self) + "_USERNAME"@,
            r.1@ == spec_env_prefix(self) + "_PASSWORD"@,
    {
        let prefix = match self {
            LoginSite::Facebook => "FACEBOOK",
            LoginSite::Instagram => "INSTAGRAM",
            LoginSite::Twitter => "TWITTER",
            LoginSite::TikTok => "TIKTOK",
            LoginSite::Reddit => "REDDIT",
            LoginSite::LinkedIn => "LINKEDIN",
        };
        let mut user = String::from_str(prefix);
        user.append("_USERNAME");
        let mut pass = String::from_str(prefix);
        pass.append("_PASSWORD");
        (user, pass)
    }
}

/// yt-dlp's login arguments: given both a user name and a password,
/// `--username <name> --password <password>`; otherwise none.
pub open spec fn spec_login_args(username: Option<Seq<char>>, password: Option<Seq<char>>) -> Seq<Seq<char>> {
    match (username, password) {
        (Some(u), Some(p)) => seq!["--username"@, u, "--password"@, p],
        _ => Seq::empty(),
    }
}

/// Builds `spec_login_args`.
pub fn login_args(username: Option<&str>, password: Option<&str>) -> (v: Vec<String>)
    ensures
        views(v@) == spec_login_args(crate::config::opt_view(username), crate::config::opt_view(password)),
{
    let mut v: Vec<String> = Vec::new();
    match (username, password) {
        (Some(u), Some(p)) => {
            push_str(&mut v, "--username");
            push_str(&mut v, u);
            push_str(&mut v, "--password");
            push_str(&mut v, p);
            assert(views(v@) =~= seq!["--username"@, u@, "--password"@, p@]);
        },
        _ => {
            assert(views(v@) =~= Seq::<Seq<char>>::empty());
        },
    }
    v
}

/// What `Path::parent` gives for a path, as a string.
pub uninterp spec fn path_parent(path: Seq<char>) -> Option<Seq<char>>;

/// Calls `Path::parent` and turns the result into a `String`. The result is
/// named `path_parent(path)`; the documentation states that the empty path
/// has no parent. Which directory is the parent of other paths is left unsaid.
#[verifier::external_body]
pub(crate) fn parent_of(path: &str) -> (r: Option<String>)
    ensures
        crate::session::opt_string_view(r) == path_parent(path@),
        path@.len() == 0 ==> r is None,
{
    std::path::Path::new(path).parent().map(|p| p.to_string_lossy().into_owned())
}

/// The directory handed to yt-dlp as `--ffmpeg-location`: the directory that
/// holds the ffmpeg program, or the program's path itself where it has none.
pub open spec fn spec_ffmpeg_location(ffmpeg_bin: Seq<char>) -> Seq<char> {
    match path_parent(ffmpeg_bin) {
        Some(dir) => dir,
        None => ffmpeg_bin,
    }
}

/// Computes `spec_ffmpeg_location`.
pub fn ffmpeg_location(ffmpeg_bin: &str) -> (r: String)
    ensures
        r@ == spec_ffmpeg_location(ffmpeg_bin@),
{
    match parent_of(ffmpeg_bin) {
        Some(dir) => dir,
        None => String::from_str(ffmpeg_bin),
    }
}


/// The login of each site is read from the variables the README names:
/// FACEBOOK_, INSTAGRAM_, TWITTER_, TIKTOK_, REDDIT_ and LINKEDIN_ followed by
/// USERNAME and PASSWORD.
pub proof fn law_env_prefixes(site: LoginSite)
    ensures
        site == LoginSite::Facebook ==> spec_env_prefix(site) == "FACEBOOK"@,
        site == LoginSite::Instagram ==> spec_env_prefix(site) == "INSTAGRAM"@,
        site == LoginSite::Twitter ==> spec_env_prefix(site) == "TWITTER"@,
        site == LoginSite::TikTok ==> spec_env_prefix(site) == "TIKTOK"@,
        site == LoginSite::Reddit ==> spec_env_prefix(site) == "REDDIT"@,
        site == LoginSite::LinkedIn ==> spec_env_prefix(site) == "LINKEDIN"@,
{
}

/// A login is passed only where both the user name and the password are set,
/// as `--username` with the name and `--password` with the password.
pub proof fn law_login_args_pair(username: Option<Seq<char>>, password: Option<Seq<char>>)
    ensures
        (username is None || password is None) ==> spec_login_args(username, password).len() == 0,
        (username is Some && password is Some) ==> {
            let a = spec_login_args(username, password);
            &&& a.len() == 4
            &&& a[0] == "--username"@ && a[1] == username->Some_0
            &&& a[2] == "--password"@ && a[3] == password->Some_0
        },
{
}

} // verus!
