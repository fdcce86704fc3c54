use vstd::prelude::*;
use crate::text::{chars_of, join_path, spec_join_path};
use crate::config::views;
use crate::session::opt_string_view;
use crate::download::{JobError, JobErrorView, RunOutcome, ProcessOutput, utf8_lossy, spec_ytdlp_result,
    ytdlp_result, spec_download_aborted, download_aborted, law_download_aborted_markers};
use crate::text::has_substring;
use crate::args::{spec_preferred_video_args, preferred_video_args, spec_fallback_video_args,
    fallback_video_args, spec_reencode_args, reencode_args, spec_audio_args, audio_args,
    spec_ytdlp_argv, ytdlp_argv, spec_ffmpeg_location, ffmpeg_location};

verus! {

// ---------------------------------------------------------------------------
// Files in the job's directory
// ---------------------------------------------------------------------------

/// A file found in a directory: its name and, where it could be read, its size.
#[derive(Debug)]
pub struct DirEntry {
    pub name: String,
    pub len: Option<u64>,
}

/// `prefix` is where `s` starts.
pub open spec fn starts_with(s: Seq<char>, prefix: Seq<char>) -> bool {
    prefix.len() <= s.len() && s.subrange(0, prefix.len() as int) == prefix
}

/// The names of `entries`, in order.
pub open spec fn entry_names(entries: Seq<DirEntry>) -> Seq<Seq<char>> {
    entries.map_values(|e: DirEntry| e.name@)
}

/// The position of the first of `names` that starts with `prefix`, if any.
pub open spec fn first_prefixed(names: Seq<Seq<char>>, prefix: Seq<char>) -> Option<int>
    decreases names.len(),
{
    if names.len() == 0 {
        None
    } else if starts_with(names[0], prefix) {
        Some(0)
    } else {
        match first_prefixed(names.drop_first(), prefix) {
            Some(i) => Some(i + 1),
            None => None,
        }
    }
}

/// `first_prefixed` gives a position inside the sequence.
pub proof fn lemma_first_prefixed_in_bounds(names: Seq<Seq<char>>, prefix: Seq<char>)
    ensures
        first_prefixed(names, prefix) matches Some(i) ==> 0 <= i < names.len()
            && starts_with(names[i], prefix),
    decreases names.len(),
{
    if names.len() > 0 && !starts_with(names[0], prefix) {
        lemma_first_prefixed_in_bounds(names.drop_first(), prefix);
    }
}

/// Whether `s` starts with `prefix`.
fn has_prefix(s: &str, prefix: &str) -> (r: bool)
    ensures
        r == starts_with(s@, prefix@),
{
    let a = chars_of(s);
    let p = chars_of(prefix);
    if p.len() > a.len() {
        return false;
    }
    let mut i: usize = 0;
    while i < p.len()
        invariant
            a@ == s@,
            p@ == prefix@,
            p@.len() <= a@.len(),
            i <= p@.len(),
            forall|k: int| 0 <= k < i ==> a@[k] == p@[k],
        decreases p@.len() - i,
    {
        if a[i] != p[i] {
            assert(s@.subrange(0, prefix@.len() as int)[i as int] != prefix@[i as int]);
            return false;
        }
        i = i + 1;
    }
    assert(s@.subrange(0, prefix@.len() as int) =~= prefix@);
    true
}

/// Finds the first entry whose name starts with `prefix` (see `first_prefixed`).
pub fn find_prefixed(entries: &Vec<DirEntry>, prefix: &str) -> (r: Option<usize>)
    ensures
        match r {
            Some(i) => first_prefixed(entry_names(entries@), prefix@) == Some(i as int),
            None => first_prefixed(entry_names(entries@), prefix@) is None,
        },
{
    let mut i: usize = 0;
    assert(entry_names(entries@).skip(0) =~= entry_names(entries@));
    while i < entries.len()
        invariant
            i <= entries@.len(),
            forall|k: int| 0 <= k < i ==> !starts_with(#[trigger] entry_names(entries@)[k], prefix@),
            first_prefixed(entry_names(entries@), prefix@) == match first_prefixed(entry_names(entries@).skip(i as int), prefix@) {
                Some(j) => Some(j + i),
                None => None::<int>,
            },
        decreases entries@.len() - i,
    {
        let ghost rest = entry_names(entries@).skip(i as int);
        assert(rest.drop_first() =~= entry_names(entries@).skip(i + 1));
        assert(rest[0] == entries@[i as int].name@);
        if has_prefix(entries[i].name.as_str(), prefix) {
            return Some(i);
        }
        i = i + 1;
    }
    assert(entry_names(entries@).skip(i as int).len() == 0);
    None
}

/// The position of the last `.` in `s`, if any.
pub open spec fn last_dot(s: Seq<char>) -> Option<int>
    decreases s.len(),
{
    if s.len() == 0 {
        None
    } else if s.last() == '.' {
        Some(s.len() - 1)
    } else {
        last_dot(s.drop_last())
    }
}

/// A file name's extension, as `Path::extension` gives it: what follows the
/// last `.`, unless there is no `.` or the only one begins the name.
pub open spec fn spec_extension(name: Seq<char>) -> Option<Seq<char>> {
    match last_dot(name) {
        Some(k) => if k == 0 { None } else { Some(name.subrange(k + 1, name.len() as int)) },
        None => None,
    }
}

/// Computes `spec_extension`.
pub fn extension(name: &str) -> (r: Option<String>)
    ensures
        opt_string_view(r) == spec_extension(name@),
{
    let v = chars_of(name);
    let mut j: usize = v.len();
    assert(name@.subrange(0, j as int) =~= name@);
    while j > 0 && v[j - 1] != '.'
        invariant
            v@ == name@,
            j <= v@.len(),
            last_dot(name@) == last_dot(name@.subrange(0, j as int)),
        decreases j,
    {
        assert(name@.subrange(0, j as int).drop_last() =~= name@.subrange(0, j - 1));
        j = j - 1;
    }
    if j <= 1 {
        return None;
    }
    let rest = crate::text::slice_chars(&v, j, v.len());
    Some(crate::text::string_from_chars(&rest))
}

/// The extension given to the audio file: its own, or `m4a` where it has none.
pub open spec fn spec_audio_extension(name: Seq<char>) -> Seq<char> {
    match spec_extension(name) {
        Some(e) => e,
        None => "m4a"@,
    }
}

// ---------------------------------------------------------------------------
// Requests, events and actions
// ---------------------------------------------------------------------------

/// What a download job works on.
#[derive(Debug)]
pub struct JobRequest {
    /// The link to download.
    pub url: String,
    /// The message to reply to (none in private chats).
    pub reply_to: Option<i32>,
    /// yt-dlp's login arguments for the link's site.
    pub login: Vec<String>,
    /// The ffmpeg program.
    pub ffmpeg_bin: String,
    /// Seconds each yt-dlp run may take.
    pub timeout_secs: u64,
}

/// The message a download answers: none in private chats, where the bot does
/// not quote; the user's message elsewhere.
pub open spec fn spec_reply_target(is_private: bool, message_id: i32) -> Option<i32> {
    if is_private { None } else { Some(message_id) }
}

/// Computes `spec_reply_target`.
pub fn reply_target(is_private: bool, message_id: i32) -> (r: Option<i32>)
    ensures
        r == spec_reply_target(is_private, message_id),
{
    if is_private { None } else { Some(message_id) }
}

/// What the outside world reports back to a job.
#[derive(Debug)]
pub enum JobEvent {
    /// A temporary directory was made (its path), or could not be (the system's text).
    TempDir(Result<String, String>),
    /// A yt-dlp run ended.
    Ytdlp(RunOutcome),
    /// The files of the job's directory.
    Listed(Vec<DirEntry>),
    /// ffmpeg ran to its end, or could not be run (the system's text).
    Ffmpeg(Result<ProcessOutput, String>),
    /// The size of a file, where it exists and could be read.
    Size(Option<u64>),
    /// The width and height of a video, where ffprobe could tell them.
    Dimensions(Option<u32>, Option<u32>),
    /// The contents of the title file (empty where it could not be read).
    Title(String),
    /// A rename was attempted (its outcome does not matter).
    Renamed,
    /// An upload went through, or failed (the client library's text).
    Sent(Result<(), String>),
}

/// What a job asks the outside world to do next.
#[derive(Debug)]
pub enum JobAction {
    /// Make a temporary directory for the job.
    CreateTempDir,
    /// Run yt-dlp with these arguments, stopping it after `timeout_secs`.
    RunYtdlp { args: Vec<String>, timeout_secs: u64 },
    /// List the files of this directory.
    ListDir { dir: String },
    /// Run ffmpeg with these arguments.
    RunFfmpeg { args: Vec<String> },
    /// Tell the size of this file.
    FileSize { path: String },
    /// Ask ffprobe for this video's width and height.
    ProbeDimensions { path: String },
    /// Upload this video (streamable), replying to `reply_to` where given.
    SendVideo { path: String, reply_to: Option<i32>, width: Option<u32>, height: Option<u32> },
    /// Read this file.
    ReadTitle { path: String },
    /// Rename this file.
    Rename { from: String, to: String },
    /// Upload this audio file, with `title` where given.
    SendAudio { path: String, title: Option<String>, reply_to: Option<i32> },
    /// The job is over.
    Done(Result<(), JobError>),
}

/// A `JobAction` with its texts as character sequences.
pub enum ActionView {
    CreateTempDir,
    RunYtdlp { args: Seq<Seq<char>>, timeout_secs: u64 },
    ListDir { dir: Seq<char> },
    RunFfmpeg { args: Seq<Seq<char>> },
    FileSize { path: Seq<char> },
    ProbeDimensions { path: Seq<char> },
    SendVideo { path: Seq<char>, reply_to: Option<i32>, width: Option<u32>, height: Option<u32> },
    ReadTitle { path: Seq<char> },
    Rename { from: Seq<char>, to: Seq<char> },
    SendAudio { path: Seq<char>, title: Option<Seq<char>>, reply_to: Option<i32> },
    Done(Result<(), JobErrorView>),
}

/// The view of a job's outcome.
pub open spec fn outcome_view(r: Result<(), JobError>) -> Result<(), JobErrorView> {
    match r {
        Ok(()) => Ok(()),
        Err(e) => Err(e@),
    }
}

impl View for JobAction {
    type V = ActionView;

    open spec fn view(&self) -> ActionView {
        match self {
            JobAction::CreateTempDir => ActionView::CreateTempDir,
            JobAction::RunYtdlp { args, timeout_secs } => ActionView::RunYtdlp {
                args: views(args@),
                timeout_secs: *timeout_secs,
            },
            JobAction::ListDir { dir } => ActionView::ListDir { dir: dir@ },
            JobAction::RunFfmpeg { args } => ActionView::RunFfmpeg { args: views(args@) },
            JobAction::FileSize { path } => ActionView::FileSize { path: path@ },
            JobAction::ProbeDimensions { path } => ActionView::ProbeDimensions { path: path@ },
            JobAction::SendVideo { path, reply_to, width, height } => ActionView::SendVideo {
                path: path@,
                reply_to: *reply_to,
                width: *width,
                height: *height,
            },
            JobAction::ReadTitle { path } => ActionView::ReadTitle { path: path@ },
            JobAction::Rename { from, to } => ActionView::Rename { from: from@, to: to@ },
            JobAction::SendAudio { path, title, reply_to } => ActionView::SendAudio {
                path: path@,
                title: opt_string_view(*title),
                reply_to: *reply_to,
            },
            JobAction::Done(r) => ActionView::Done(outcome_view(*r)),
        }
    }
}

} // verus!

verus! {

// ---------------------------------------------------------------------------
// The video job
// ---------------------------------------------------------------------------

/// Where a video job stands; each stage waits for one kind of event.
pub enum VideoStage {
    /// Waiting for the temporary directory.
    CreatingDir,
    /// Waiting for the preferred download into `dir`.
    Preferred { dir: String },
    /// Waiting for the listing of `dir` after the preferred download.
    FindingPreferred { dir: String },
    /// Waiting for the fallback download into `dir`.
    Fallback { dir: String },
    /// Waiting for the listing of `dir` after the fallback download.
    FindingFallback { dir: String },
    /// Waiting for ffmpeg to re-encode the fallback download in `dir`.
    Reencoding { dir: String },
    /// Waiting for the size of the re-encoded file in `dir`.
    CheckingReencoded { dir: String },
    /// Waiting for the dimensions of the video at `path`.
    Probing { path: String },
    /// Waiting for the upload.
    Sending,
    /// Over.
    Finished,
}

/// A `VideoStage` with its paths as character sequences.
pub enum VideoStageView {
    CreatingDir,
    Preferred { dir: Seq<char> },
    FindingPreferred { dir: Seq<char> },
    Fallback { dir: Seq<char> },
    FindingFallback { dir: Seq<char> },
    Reencoding { dir: Seq<char> },
    CheckingReencoded { dir: Seq<char> },
    Probing { path: Seq<char> },
    Sending,
    Finished,
}

impl View for VideoStage {
    type V = VideoStageView;

    open spec fn view(&self) -> VideoStageView {
        match self {
            VideoStage::CreatingDir => VideoStageView::CreatingDir,
            VideoStage::Preferred { dir } => VideoStageView::Preferred { dir: dir@ },
            VideoStage::FindingPreferred { dir } => VideoStageView::FindingPreferred { dir: dir@ },
            VideoStage::Fallback { dir } => VideoStageView::Fallback { dir: dir@ },
            VideoStage::FindingFallback { dir } => VideoStageView::FindingFallback { dir: dir@ },
            VideoStage::Reencoding { dir } => VideoStageView::Reencoding { dir: dir@ },
            VideoStage::CheckingReencoded { dir } => VideoStageView::CheckingReencoded { dir: dir@ },
            VideoStage::Probing { path } => VideoStageView::Probing { path: path@ },
            VideoStage::Sending => VideoStageView::Sending,
            VideoStage::Finished => VideoStageView::Finished,
        }
    }
}

/// The parts of a request that the job's steps read, as plain values.
pub struct RequestView {
    pub url: Seq<char>,
    pub reply_to: Option<i32>,
    pub login: Seq<Seq<char>>,
    pub ffmpeg_bin: Seq<char>,
    pub timeout_secs: u64,
}

impl View for JobRequest {
    type V = RequestView;

    open spec fn view(&self) -> RequestView {
        RequestView {
            url: self.url@,
            reply_to: self.reply_to,
            login: views(self.login@),
            ffmpeg_bin: self.ffmpeg_bin@,
            timeout_secs: self.timeout_secs,
        }
    }
}

/// A stage and the action that goes with it.
pub type VideoMove = (VideoStageView, ActionView);

/// The job is over, with this outcome.
pub open spec fn video_finish(r: Result<(), JobErrorView>) -> VideoMove {
    (VideoStageView::Finished, ActionView::Done(r))
}

/// Start the preferred download into `dir`.
pub open spec fn video_preferred(req: RequestView, dir: Seq<char>) -> VideoMove {
    (
        VideoStageView::Preferred { dir },
        ActionView::RunYtdlp {
            args: spec_ytdlp_argv(
                spec_preferred_video_args(
                    spec_ffmpeg_location(req.ffmpeg_bin),
                    spec_join_path(dir, "video.%(ext)s"@),
                ),
                req.login,
                req.url,
            ),
            timeout_secs: req.timeout_secs,
        },
    )
}

/// Start the fallback download into `dir`.
pub open spec fn video_fallback(req: RequestView, dir: Seq<char>) -> VideoMove {
    (
        VideoStageView::Fallback { dir },
        ActionView::RunYtdlp {
            args: spec_ytdlp_argv(
                spec_fallback_video_args(
                    spec_ffmpeg_location(req.ffmpeg_bin),
                    spec_join_path(dir, "fallback_video"@),
                ),
                req.login,
                req.url,
            ),
            timeout_secs: req.timeout_secs,
        },
    )
}

/// Prepare to upload the video at `path`: first ask for its dimensions.
pub open spec fn video_probe(path: Seq<char>) -> VideoMove {
    (VideoStageView::Probing { path }, ActionView::ProbeDimensions { path })
}

/// The smallest size, in bytes, above which the preferred download counts as usable.
pub open spec fn min_video_bytes() -> u64 {
    1024
}

/// The size of an entry, counting one that could not be read as empty.
pub open spec fn entry_size(e: DirEntry) -> u64 {
    match e.len {
        Some(n) => n,
        None => 0,
    }
}

/// Which event each stage waits for.
pub open spec fn video_accepts(stage: VideoStageView, e: JobEvent) -> bool {
    match stage {
        VideoStageView::CreatingDir => e is TempDir,
        VideoStageView::Preferred { .. } => e is Ytdlp,
        VideoStageView::FindingPreferred { .. } => e is Listed,
        VideoStageView::Fallback { .. } => e is Ytdlp,
        VideoStageView::FindingFallback { .. } => e is Listed,
        VideoStageView::Reencoding { .. } => e is Ffmpeg,
        VideoStageView::CheckingReencoded { .. } => e is Size,
        VideoStageView::Probing { .. } => e is Dimensions,
        VideoStageView::Sending => e is Sent,
        VideoStageView::Finished => false,
    }
}

/// How a video job moves on an event: the preferred download first; if it
/// fails, gives up on the format, or leaves no file above 1024 bytes, the
/// fallback download, re-encoded by ffmpeg; then the upload of whichever
/// file was made.
pub open spec fn video_step(req: RequestView, stage: VideoStageView, e: JobEvent) -> VideoMove {
    match stage {
        VideoStageView::CreatingDir => match e {
            JobEvent::TempDir(Ok(dir)) => video_preferred(req, dir@),
            JobEvent::TempDir(Err(t)) => video_finish(Err(JobErrorView::Io(t@))),
            _ => (stage, ActionView::CreateTempDir),
        },
        VideoStageView::Preferred { dir } => match e {
            JobEvent::Ytdlp(o) => match spec_ytdlp_result(o, req.timeout_secs) {
                Ok(out) => if !spec_download_aborted(out) {
                    (VideoStageView::FindingPreferred { dir }, ActionView::ListDir { dir })
                } else {
                    video_fallback(req, dir)
                },
                Err(_) => video_fallback(req, dir),
            },
            _ => (stage, ActionView::CreateTempDir),
        },
        VideoStageView::FindingPreferred { dir } => match e {
            JobEvent::Listed(entries) => match first_prefixed(entry_names(entries@), "video."@) {
                Some(i) => if entry_size(entries@[i]) > min_video_bytes() {
                    video_probe(spec_join_path(dir, entries@[i].name@))
                } else {
                    video_fallback(req, dir)
                },
                None => video_fallback(req, dir),
            },
            _ => (stage, ActionView::CreateTempDir),
        },
        VideoStageView::Fallback { dir } => match e {
            JobEvent::Ytdlp(o) => match spec_ytdlp_result(o, req.timeout_secs) {
                Ok(_) => (VideoStageView::FindingFallback { dir }, ActionView::ListDir { dir }),
                Err(err) => video_finish(Err(err)),
            },
            _ => (stage, ActionView::CreateTempDir),
        },
        VideoStageView::FindingFallback { dir } => match e {
            JobEvent::Listed(entries) => match first_prefixed(entry_names(entries@), "fallback_video"@) {
                Some(i) => (
                    VideoStageView::Reencoding { dir },
                    ActionView::RunFfmpeg {
                        args: spec_reencode_args(
                            spec_join_path(dir, entries@[i].name@),
                            spec_join_path(dir, "reencoded.mp4"@),
                        ),
                    },
                ),
                None => video_finish(Err(JobErrorView::FallbackFileMissing)),
            },
            _ => (stage, ActionView::CreateTempDir),
        },
        VideoStageView::Reencoding { dir } => match e {
            JobEvent::Ffmpeg(Err(t)) => video_finish(Err(JobErrorView::Io(t@))),
            JobEvent::Ffmpeg(Ok(out)) => if out.success {
                (
                    VideoStageView::CheckingReencoded { dir },
                    ActionView::FileSize { path: spec_join_path(dir, "reencoded.mp4"@) },
                )
            } else {
                video_finish(Err(JobErrorView::FfmpegFailed { stderr: utf8_lossy(out.stderr@) }))
            },
            _ => (stage, ActionView::CreateTempDir),
        },
        VideoStageView::CheckingReencoded { dir } => match e {
            JobEvent::Size(Some(n)) => if n > 0 {
                video_probe(spec_join_path(dir, "reencoded.mp4"@))
            } else {
                video_finish(Err(JobErrorView::ReencodedEmpty))
            },
            JobEvent::Size(None) => video_finish(Err(JobErrorView::ReencodedEmpty)),
            _ => (stage, ActionView::CreateTempDir),
        },
        VideoStageView::Probing { path } => match e {
            JobEvent::Dimensions(width, height) => (
                VideoStageView::Sending,
                ActionView::SendVideo { path, reply_to: req.reply_to, width, height },
            ),
            _ => (stage, ActionView::CreateTempDir),
        },
        VideoStageView::Sending => match e {
            JobEvent::Sent(Ok(())) => video_finish(Ok(())),
            JobEvent::Sent(Err(t)) => video_finish(Err(JobErrorView::SendFailed(t@))),
            _ => (stage, ActionView::CreateTempDir),
        },
        VideoStageView::Finished => (stage, ActionView::CreateTempDir),
    }
}

} // verus!

verus! {

/// A video download in progress: downloads a link, falling back to a second
/// download and a re-encode where needed, and uploads the result.
pub struct VideoJob {
    request: JobRequest,
    stage: VideoStage,
}

/// A video job as plain values.
pub struct VideoJobView {
    pub request: RequestView,
    pub stage: VideoStageView,
}

impl View for VideoJob {
    type V = VideoJobView;

    closed spec fn view(&self) -> VideoJobView {
        VideoJobView { request: self.request@, stage: self.stage@ }
    }
}

/// The command that runs yt-dlp with `args` plus the request's login and link.
fn run_ytdlp_action(request: &JobRequest, args: Vec<String>) -> (a: JobAction)
    ensures
        a@ == (ActionView::RunYtdlp {
            args: spec_ytdlp_argv(views(args@), request@.login, request@.url),
            timeout_secs: request@.timeout_secs,
        }),
{
    let argv = ytdlp_argv(args, &request.login, request.url.as_str());
    JobAction::RunYtdlp { args: argv, timeout_secs: request.timeout_secs }
}

fn video_preferred_move(request: &JobRequest, dir: String) -> (r: (VideoStage, JobAction))
    ensures
        (r.0@, r.1@) == video_preferred(request@, dir@),
{
    let location = ffmpeg_location(request.ffmpeg_bin.as_str());
    let output = join_path(dir.as_str(), "video.%(ext)s");
    let args = preferred_video_args(location.as_str(), output.as_str());
    let action = run_ytdlp_action(request, args);
    (VideoStage::Preferred { dir }, action)
}

fn video_fallback_move(request: &JobRequest, dir: String) -> (r: (VideoStage, JobAction))
    ensures
        (r.0@, r.1@) == video_fallback(request@, dir@),
{
    let location = ffmpeg_location(request.ffmpeg_bin.as_str());
    let output = join_path(dir.as_str(), "fallback_video");
    let args = fallback_video_args(location.as_str(), output.as_str());
    let action = run_ytdlp_action(request, args);
    (VideoStage::Fallback { dir }, action)
}

fn video_probe_move(path: String) -> (r: (VideoStage, JobAction))
    ensures
        (r.0@, r.1@) == video_probe(path@),
{
    let p2 = path.clone();
    (VideoStage::Probing { path }, JobAction::ProbeDimensions { path: p2 })
}

fn video_finish_move(r: Result<(), JobError>) -> (m: (VideoStage, JobAction))
    ensures
        (m.0@, m.1@) == video_finish(outcome_view(r)),
{
    (VideoStage::Finished, JobAction::Done(r))
}

impl VideoJob {
    /// A new job for `request`; its first action makes the temporary directory.
    pub fn start(request: JobRequest) -> (r: (VideoJob, JobAction))
        ensures
            r.0@.request == request@,
            r.0@.stage == VideoStageView::CreatingDir,
            r.1@ == ActionView::CreateTempDir,
    {
        (VideoJob { request, stage: VideoStage::CreatingDir }, JobAction::CreateTempDir)
    }

    /// Whether the job waits for an event of this kind.
    pub fn accepts(&self, e: &JobEvent) -> (r: bool)
        ensures
            r == video_accepts(self@.stage, *e),
    {
        match &self.stage {
            VideoStage::CreatingDir => matches!(e, JobEvent::TempDir(_)),
            VideoStage::Preferred { .. } => matches!(e, JobEvent::Ytdlp(_)),
            VideoStage::FindingPreferred { .. } => matches!(e, JobEvent::Listed(_)),
            VideoStage::Fallback { .. } => matches!(e, JobEvent::Ytdlp(_)),
            VideoStage::FindingFallback { .. } => matches!(e, JobEvent::Listed(_)),
            VideoStage::Reencoding { .. } => matches!(e, JobEvent::Ffmpeg(_)),
            VideoStage::CheckingReencoded { .. } => matches!(e, JobEvent::Size(_)),
            VideoStage::Probing { .. } => matches!(e, JobEvent::Dimensions(_, _)),
            VideoStage::Sending => matches!(e, JobEvent::Sent(_)),
            VideoStage::Finished => false,
        }
    }

    /// Whether the job is over.
    pub fn is_finished(&self) -> (r: bool)
        ensures
            r == (self@.stage is Finished),
    {
        matches!(self.stage, VideoStage::Finished)
    }

    /// Moves the job on `e` and returns what to do next (see `video_step`).
    pub fn step(self, e: JobEvent) -> (r: (VideoJob, JobAction))
        requires
            video_accepts(self@.stage, e),
        ensures
            r.0@.request == self@.request,
            (r.0@.stage, r.1@) == video_step(self@.request, self@.stage, e),
    {
        let VideoJob { request, stage } = self;
        let (stage, action) = match stage {
            VideoStage::CreatingDir => match e {
                JobEvent::TempDir(Ok(dir)) => video_preferred_move(&request, dir),
                JobEvent::TempDir(Err(t)) => video_finish_move(Err(JobError::Io(t))),
                _ => (VideoStage::CreatingDir, JobAction::CreateTempDir),
            },
            VideoStage::Preferred { dir } => match e {
                JobEvent::Ytdlp(o) => {
                    let res = ytdlp_result(o, request.timeout_secs);
                    match res {
                        Ok(out) => {
                            if !download_aborted(out.as_str()) {
                                let d2 = dir.clone();
                                (VideoStage::FindingPreferred { dir }, JobAction::ListDir { dir: d2 })
                            } else {
                                video_fallback_move(&request, dir)
                            }
                        },
                        Err(_) => video_fallback_move(&request, dir),
                    }
                },
                _ => (VideoStage::CreatingDir, JobAction::CreateTempDir),
            },
            VideoStage::FindingPreferred { dir } => match e {
                JobEvent::Listed(entries) => {
                    match find_prefixed(&entries, "video.") {
                        Some(i) => {
                            proof {
                                lemma_first_prefixed_in_bounds(entry_names(entries@), "video."@);
                            }
                            let size = match entries[i].len {
                                Some(n) => n,
                                None => 0,
                            };
                            if size > 1024 {
                                let path = join_path(dir.as_str(), entries[i].name.as_str());
                                video_probe_move(path)
                            } else {
                                video_fallback_move(&request, dir)
                            }
                        },
                        None => video_fallback_move(&request, dir),
                    }
                },
                _ => (VideoStage::CreatingDir, JobAction::CreateTempDir),
            },
            VideoStage::Fallback { dir } => match e {
                JobEvent::Ytdlp(o) => {
                    let res = ytdlp_result(o, request.timeout_secs);
                    match res {
                        Ok(_) => {
                            let d2 = dir.clone();
                            (VideoStage::FindingFallback { dir }, JobAction::ListDir { dir: d2 })
                        },
                        Err(err) => video_finish_move(Err(err)),
                    }
                },
                _ => (VideoStage::CreatingDir, JobAction::CreateTempDir),
            },
            VideoStage::FindingFallback { dir } => match e {
                JobEvent::Listed(entries) => {
                    match find_prefixed(&entries, "fallback_video") {
                        Some(i) => {
                            proof {
                                lemma_first_prefixed_in_bounds(entry_names(entries@), "fallback_video"@);
                            }
                            let input = join_path(dir.as_str(), entries[i].name.as_str());
                            let output = join_path(dir.as_str(), "reencoded.mp4");
                            let args = reencode_args(input.as_str(), output.as_str());
                            (VideoStage::Reencoding { dir }, JobAction::RunFfmpeg { args })
                        },
                        None => video_finish_move(Err(JobError::FallbackFileMissing)),
                    }
                },
                _ => (VideoStage::CreatingDir, JobAction::CreateTempDir),
            },
            VideoStage::Reencoding { dir } => match e {
                JobEvent::Ffmpeg(Err(t)) => video_finish_move(Err(JobError::Io(t))),
                JobEvent::Ffmpeg(Ok(out)) => {
                    if out.success {
                        let path = join_path(dir.as_str(), "reencoded.mp4");
                        (VideoStage::CheckingReencoded { dir }, JobAction::FileSize { path })
                    } else {
                        let stderr = crate::download::lossy_stderr(&out);
                        video_finish_move(Err(JobError::FfmpegFailed { stderr }))
                    }
                },
                _ => (VideoStage::CreatingDir, JobAction::CreateTempDir),
            },
            VideoStage::CheckingReencoded { dir } => match e {
                JobEvent::Size(Some(n)) => {
                    if n > 0 {
                        let path = join_path(dir.as_str(), "reencoded.mp4");
                        video_probe_move(path)
                    } else {
                        video_finish_move(Err(JobError::ReencodedEmpty))
                    }
                },
                JobEvent::Size(None) => video_finish_move(Err(JobError::ReencodedEmpty)),
                _ => (VideoStage::CreatingDir, JobAction::CreateTempDir),
            },
            VideoStage::Probing { path } => match e {
                JobEvent::Dimensions(width, height) => (
                    VideoStage::Sending,
                    JobAction::SendVideo { path, reply_to: request.reply_to, width, height },
                ),
                _ => (VideoStage::CreatingDir, JobAction::CreateTempDir),
            },
            VideoStage::Sending => match e {
                JobEvent::Sent(Ok(())) => video_finish_move(Ok(())),
                JobEvent::Sent(Err(t)) => video_finish_move(Err(JobError::SendFailed(t))),
                _ => (VideoStage::CreatingDir, JobAction::CreateTempDir),
            },
            VideoStage::Finished => (VideoStage::Finished, JobAction::CreateTempDir),
        };
        (VideoJob { request, stage }, action)
    }
}

} // verus!

verus! {

// ---------------------------------------------------------------------------
// The audio job
// ---------------------------------------------------------------------------

/// Where an audio job stands; each stage waits for one kind of event.
pub enum AudioStage {
    /// Waiting for the temporary directory.
    CreatingDir,
    /// Waiting for the download into `dir`.
    Downloading { dir: String },
    /// Waiting for the title file in `dir`.
    ReadingTitle { dir: String },
    /// Waiting for the listing of `dir`; `title` is the trimmed title.
    FindingAudio { dir: String, title: String },
    /// Waiting for the audio file to be renamed to `dest`.
    Renaming { dest: String, title: String },
    /// Waiting for the upload.
    Sending,
    /// Over.
    Finished,
}

/// An `AudioStage` with its texts as character sequences.
pub enum AudioStageView {
    CreatingDir,
    Downloading { dir: Seq<char> },
    ReadingTitle { dir: Seq<char> },
    FindingAudio { dir: Seq<char>, title: Seq<char> },
    Renaming { dest: Seq<char>, title: Seq<char> },
    Sending,
    Finished,
}

impl View for AudioStage {
    type V = AudioStageView;

    open spec fn view(&self) -> AudioStageView {
        match self {
            AudioStage::CreatingDir => AudioStageView::CreatingDir,
            AudioStage::Downloading { dir } => AudioStageView::Downloading { dir: dir@ },
            AudioStage::ReadingTitle { dir } => AudioStageView::ReadingTitle { dir: dir@ },
            AudioStage::FindingAudio { dir, title } => AudioStageView::FindingAudio {
                dir: dir@,
                title: title@,
            },
            AudioStage::Renaming { dest, title } => AudioStageView::Renaming {
                dest: dest@,
                title: title@,
            },
            AudioStage::Sending => AudioStageView::Sending,
            AudioStage::Finished => AudioStageView::Finished,
        }
    }
}

/// A stage and the action that goes with it.
pub type AudioMove = (AudioStageView, ActionView);

/// The job is over, with this outcome.
pub open spec fn audio_finish(r: Result<(), JobErrorView>) -> AudioMove {
    (AudioStageView::Finished, ActionView::Done(r))
}

/// The name the audio file gets so that Telegram shows its title: the title
/// made safe for a file name, a dot, and the extension.
pub open spec fn spec_titled_name(title: Seq<char>, ext: Seq<char>) -> Seq<char> {
    crate::text::spec_safe_file_name(title) + seq!['.'] + ext
}

/// Which event each stage waits for.
pub open spec fn audio_accepts(stage: AudioStageView, e: JobEvent) -> bool {
    match stage {
        AudioStageView::CreatingDir => e is TempDir,
        AudioStageView::Downloading { .. } => e is Ytdlp,
        AudioStageView::ReadingTitle { .. } => e is Title,
        AudioStageView::FindingAudio { .. } => e is Listed,
        AudioStageView::Renaming { .. } => e is Renamed,
        AudioStageView::Sending => e is Sent,
        AudioStageView::Finished => false,
    }
}

/// How an audio job moves on an event: download the audio and its title;
/// where there is a title, rename the file after it and upload it under that
/// title; otherwise upload the file as it is.
pub open spec fn audio_step(req: RequestView, stage: AudioStageView, e: JobEvent) -> AudioMove {
    match stage {
        AudioStageView::CreatingDir => match e {
            JobEvent::TempDir(Ok(dir)) => (
                AudioStageView::Downloading { dir: dir@ },
                ActionView::RunYtdlp {
                    args: spec_ytdlp_argv(
                        spec_audio_args(
                            spec_join_path(dir@, "audio.%(ext)s"@),
                            spec_join_path(dir@, "title.txt"@),
                        ),
                        req.login,
                        req.url,
                    ),
                    timeout_secs: req.timeout_secs,
                },
            ),
            JobEvent::TempDir(Err(t)) => audio_finish(Err(JobErrorView::Io(t@))),
            _ => (stage, ActionView::CreateTempDir),
        },
        AudioStageView::Downloading { dir } => match e {
            JobEvent::Ytdlp(o) => match spec_ytdlp_result(o, req.timeout_secs) {
                Ok(_) => (
                    AudioStageView::ReadingTitle { dir },
                    ActionView::ReadTitle { path: spec_join_path(dir, "title.txt"@) },
                ),
                Err(err) => audio_finish(Err(err)),
            },
            _ => (stage, ActionView::CreateTempDir),
        },
        AudioStageView::ReadingTitle { dir } => match e {
            JobEvent::Title(t) => (
                AudioStageView::FindingAudio { dir, title: crate::text::spec_trim(t@) },
                ActionView::ListDir { dir },
            ),
            _ => (stage, ActionView::CreateTempDir),
        },
        AudioStageView::FindingAudio { dir, title } => match e {
            JobEvent::Listed(entries) => match first_prefixed(entry_names(entries@), "audio."@) {
                Some(i) => {
                    let name = entries@[i].name@;
                    let path = spec_join_path(dir, name);
                    if title.len() > 0 {
                        let dest = spec_join_path(dir, spec_titled_name(title, spec_audio_extension(name)));
                        (AudioStageView::Renaming { dest, title }, ActionView::Rename { from: path, to: dest })
                    } else {
                        (
                            AudioStageView::Sending,
                            ActionView::SendAudio { path, title: None, reply_to: req.reply_to },
                        )
                    }
                },
                None => audio_finish(Err(JobErrorView::AudioFileMissing)),
            },
            _ => (stage, ActionView::CreateTempDir),
        },
        AudioStageView::Renaming { dest, title } => match e {
            JobEvent::Renamed => (
                AudioStageView::Sending,
                ActionView::SendAudio { path: dest, title: Some(title), reply_to: req.reply_to },
            ),
            _ => (stage, ActionView::CreateTempDir),
        },
        AudioStageView::Sending => match e {
            JobEvent::Sent(Ok(())) => audio_finish(Ok(())),
            JobEvent::Sent(Err(t)) => audio_finish(Err(JobErrorView::SendFailed(t@))),
            _ => (stage, ActionView::CreateTempDir),
        },
        AudioStageView::Finished => (stage, ActionView::CreateTempDir),
    }
}

/// An audio download in progress: downloads a link's sound and its title
/// and uploads the file, named and labelled after the title.
pub struct AudioJob {
    request: JobRequest,
    stage: AudioStage,
}

/// An audio job as plain values.
pub struct AudioJobView {
    pub request: RequestView,
    pub stage: AudioStageView,
}

impl View for AudioJob {
    type V = AudioJobView;

    closed spec fn view(&self) -> AudioJobView {
        AudioJobView { request: self.request@, stage: self.stage@ }
    }
}

/// The new name of the audio file `name` in `dir` for `title`.
fn titled_path(dir: &str, title: &str, name: &str) -> (r: String)
    ensures
        r@ == spec_join_path(dir@, spec_titled_name(title@, spec_audio_extension(name@))),
{
    let mut file = crate::text::safe_file_name(title);
    crate::text::push_char(&mut file, '.');
    match extension(name) {
        Some(ext) => file.append(ext.as_str()),
        None => file.append("m4a"),
    }
    join_path(dir, file.as_str())
}

fn audio_finish_move(r: Result<(), JobError>) -> (m: (AudioStage, JobAction))
    ensures
        (m.0@, m.1@) == audio_finish(outcome_view(r)),
{
    (AudioStage::Finished, JobAction::Done(r))
}

impl AudioJob {
    /// A new job for `request`; its first action makes the temporary directory.
    pub fn start(request: JobRequest) -> (r: (AudioJob, JobAction))
        ensures
            r.0@.request == request@,
            r.0@.stage == AudioStageView::CreatingDir,
            r.1@ == ActionView::CreateTempDir,
    {
        (AudioJob { request, stage: AudioStage::CreatingDir }, JobAction::CreateTempDir)
    }

    /// Whether the job waits for an event of this kind.
    pub fn accepts(&self, e: &JobEvent) -> (r: bool)
        ensures
            r == audio_accepts(self@.stage, *e),
    {
        match &self.stage {
            AudioStage::CreatingDir => matches!(e, JobEvent::TempDir(_)),
            AudioStage::Downloading { .. } => matches!(e, JobEvent::Ytdlp(_)),
            AudioStage::ReadingTitle { .. } => matches!(e, JobEvent::Title(_)),
            AudioStage::FindingAudio { .. } => matches!(e, JobEvent::Listed(_)),
            AudioStage::Renaming { .. } => matches!(e, JobEvent::Renamed),
            AudioStage::Sending => matches!(e, JobEvent::Sent(_)),
            AudioStage::Finished => false,
        }
    }

    /// Whether the job is over.
    pub fn is_finished(&self) -> (r: bool)
        ensures
            r == (self@.stage is Finished),
    {
        matches!(self.stage, AudioStage::Finished)
    }

    /// Moves the job on `e` and returns what to do next (see `audio_step`).
    pub fn step(self, e: JobEvent) -> (r: (AudioJob, JobAction))
        requires
            audio_accepts(self@.stage, e),
        ensures
            r.0@.request == self@.request,
            (r.0@.stage, r.1@) == audio_step(self@.request, self@.stage, e),
    {
        let AudioJob { request, stage } = self;
        let (stage, action) = match stage {
            AudioStage::CreatingDir => match e {
                JobEvent::TempDir(Ok(dir)) => {
                    let output = join_path(dir.as_str(), "audio.%(ext)s");
                    let title_file = join_path(dir.as_str(), "title.txt");
                    let args = audio_args(output.as_str(), title_file.as_str());
                    let action = run_ytdlp_action(&request, args);
                    (AudioStage::Downloading { dir }, action)
                },
                JobEvent::TempDir(Err(t)) => audio_finish_move(Err(JobError::Io(t))),
                _ => (AudioStage::CreatingDir, JobAction::CreateTempDir),
            },
            AudioStage::Downloading { dir } => match e {
                JobEvent::Ytdlp(o) => {
                    let res = ytdlp_result(o, request.timeout_secs);
                    match res {
                        Ok(_) => {
                            let path = join_path(dir.as_str(), "title.txt");
                            (AudioStage::ReadingTitle { dir }, JobAction::ReadTitle { path })
                        },
                        Err(err) => audio_finish_move(Err(err)),
                    }
                },
                _ => (AudioStage::CreatingDir, JobAction::CreateTempDir),
            },
            AudioStage::ReadingTitle { dir } => match e {
                JobEvent::Title(t) => {
                    let title = crate::text::trim(t.as_str());
                    let d2 = dir.clone();
                    (AudioStage::FindingAudio { dir, title }, JobAction::ListDir { dir: d2 })
                },
                _ => (AudioStage::CreatingDir, JobAction::CreateTempDir),
            },
            AudioStage::FindingAudio { dir, title } => match e {
                JobEvent::Listed(entries) => {
                    match find_prefixed(&entries, "audio.") {
                        Some(i) => {
                            proof {
                                lemma_first_prefixed_in_bounds(entry_names(entries@), "audio."@);
                            }
                            let name = entries[i].name.as_str();
                            let path = join_path(dir.as_str(), name);
                            if title.as_str().unicode_len() > 0 {
                                let dest = titled_path(dir.as_str(), title.as_str(), name);
                                let d2 = dest.clone();
                                (AudioStage::Renaming { dest, title }, JobAction::Rename { from: path, to: d2 })
                            } else {
                                (
                                    AudioStage::Sending,
                                    JobAction::SendAudio { path, title: None, reply_to: request.reply_to },
                                )
                            }
                        },
                        None => audio_finish_move(Err(JobError::AudioFileMissing)),
                    }
                },
                _ => (AudioStage::CreatingDir, JobAction::CreateTempDir),
            },
            AudioStage::Renaming { dest, title } => match e {
                JobEvent::Renamed => (
                    AudioStage::Sending,
                    JobAction::SendAudio { path: dest, title: Some(title), reply_to: request.reply_to },
                ),
                _ => (AudioStage::CreatingDir, JobAction::CreateTempDir),
            },
            AudioStage::Sending => match e {
                JobEvent::Sent(Ok(())) => audio_finish_move(Ok(())),
                JobEvent::Sent(Err(t)) => audio_finish_move(Err(JobError::SendFailed(t))),
                _ => (AudioStage::CreatingDir, JobAction::CreateTempDir),
            },
            AudioStage::Finished => (AudioStage::Finished, JobAction::CreateTempDir),
        };
        (AudioJob { request, stage }, action)
    }
}

} // verus!

verus! {

// ---------------------------------------------------------------------------
// Laws of the jobs
// ---------------------------------------------------------------------------

/// How far a video job has come; every step moves it further.
pub open spec fn video_rank(stage: VideoStageView) -> int {
    match stage {
        VideoStageView::CreatingDir => 0,
        VideoStageView::Preferred { .. } => 1,
        VideoStageView::FindingPreferred { .. } => 2,
        VideoStageView::Fallback { .. } => 3,
        VideoStageView::FindingFallback { .. } => 4,
        VideoStageView::Reencoding { .. } => 5,
        VideoStageView::CheckingReencoded { .. } => 6,
        VideoStageView::Probing { .. } => 7,
        VideoStageView::Sending => 8,
        VideoStageView::Finished => 9,
    }
}

/// Every event a video job accepts moves it strictly forward, so a job is
/// over after at most nine events; and its action is `Done` exactly when it
/// is over.
pub proof fn law_video_job_progresses(req: RequestView, stage: VideoStageView, e: JobEvent)
    requires
        video_accepts(stage, e),
    ensures
        video_rank(video_step(req, stage, e).0) > video_rank(stage),
        0 <= video_rank(stage) < 9,
        (video_step(req, stage, e).1 is Done) <==> (video_step(req, stage, e).0 is Finished),
{
}

/// A video is only uploaded once its file was checked: either the preferred
/// download left a file above 1024 bytes, which is uploaded, or the re-encoded
/// fallback is not empty, and that is uploaded. The upload sends the probed
/// file, with the probed dimensions, replying as the request says.
pub proof fn law_video_uploads_checked_file(req: RequestView, stage: VideoStageView, e: JobEvent)
    requires
        video_accepts(stage, e),
    ensures
        video_step(req, stage, e).0 matches VideoStageView::Probing { path } ==> {
            ||| (stage matches VideoStageView::FindingPreferred { dir } && e matches JobEvent::Listed(entries)
                    && first_prefixed(entry_names(entries@), "video."@) matches Some(i)
                    && entry_size(entries@[i]) > 1024
                    && path == spec_join_path(dir, entries@[i].name@))
            ||| (stage matches VideoStageView::CheckingReencoded { dir } && e matches JobEvent::Size(Some(n))
                    && n > 0 && path == spec_join_path(dir, "reencoded.mp4"@))
        },
        video_step(req, stage, e).1 matches ActionView::SendVideo { path, reply_to, width, height } ==> {
            &&& stage == (VideoStageView::Probing { path })
            &&& e == JobEvent::Dimensions(width, height)
            &&& reply_to == req.reply_to
        },
{
}

/// The fallback download only starts when the preferred one failed, gave up
/// on the size limit, or left no file above 1024 bytes; and a usable preferred
/// download never leads to the fallback.
pub proof fn law_video_fallback_only_when_needed(req: RequestView, stage: VideoStageView, e: JobEvent)
    requires
        video_accepts(stage, e),
    ensures
        video_step(req, stage, e).0 matches VideoStageView::Fallback { dir } ==> {
            ||| {
                &&& stage == (VideoStageView::Preferred { dir })
                &&& e matches JobEvent::Ytdlp(o)
                &&& (spec_ytdlp_result(o, req.timeout_secs) is Err
                    || spec_download_aborted(spec_ytdlp_result(o, req.timeout_secs)->Ok_0))
            }
            ||| {
                &&& stage == (VideoStageView::FindingPreferred { dir })
                &&& e matches JobEvent::Listed(entries)
                &&& match first_prefixed(entry_names(entries@), "video."@) {
                    Some(i) => entry_size(entries@[i]) <= 1024,
                    None => true,
                }
            }
        },
        (stage matches VideoStageView::FindingPreferred { dir } && e matches JobEvent::Listed(entries)
            && first_prefixed(entry_names(entries@), "video."@) matches Some(i)
            && entry_size(entries@[i]) > 1024) ==> !(video_step(req, stage, e).0 is Fallback),
{
}

/// Every yt-dlp run a video job starts carries the request's login arguments
/// followed by its link, last, and is limited to the request's time.
pub proof fn law_video_runs_carry_login_and_link(req: RequestView, stage: VideoStageView, e: JobEvent)
    requires
        video_accepts(stage, e),
    ensures
        video_step(req, stage, e).1 matches ActionView::RunYtdlp { args, timeout_secs } ==> {
            &&& args.len() >= req.login.len() + 1
            &&& args.last() == req.url
            &&& args.subrange(args.len() - 1 - req.login.len(), args.len() - 1) == req.login
            &&& timeout_secs == req.timeout_secs
        },
{
    match video_step(req, stage, e).1 {
        ActionView::RunYtdlp { args, timeout_secs } => {
            lemma_argv_ends_with_login_and_link(args, req);
        },
        _ => {},
    }
}

/// An argument list built by `spec_ytdlp_argv` ends with the login arguments
/// and then the link.
pub proof fn lemma_argv_shape(own: Seq<Seq<char>>, login: Seq<Seq<char>>, url: Seq<char>)
    ensures
        spec_ytdlp_argv(own, login, url).len() == own.len() + login.len() + 1,
        spec_ytdlp_argv(own, login, url).last() == url,
        spec_ytdlp_argv(own, login, url).subrange(own.len() as int, (own.len() + login.len()) as int) == login,
{
    assert(spec_ytdlp_argv(own, login, url).subrange(own.len() as int, (own.len() + login.len()) as int) =~= login);
}

proof fn lemma_argv_ends_with_login_and_link(args: Seq<Seq<char>>, req: RequestView)
    requires
        exists|own: Seq<Seq<char>>| args == spec_ytdlp_argv(own, req.login, req.url),
    ensures
        args.len() >= req.login.len() + 1,
        args.last() == req.url,
        args.subrange(args.len() - 1 - req.login.len(), args.len() - 1) == req.login,
{
    let own = choose|own: Seq<Seq<char>>| args == spec_ytdlp_argv(own, req.login, req.url);
    lemma_argv_shape(own, req.login, req.url);
}

/// How far an audio job has come; every step moves it further.
pub open spec fn audio_rank(stage: AudioStageView) -> int {
    match stage {
        AudioStageView::CreatingDir => 0,
        AudioStageView::Downloading { .. } => 1,
        AudioStageView::ReadingTitle { .. } => 2,
        AudioStageView::FindingAudio { .. } => 3,
        AudioStageView::Renaming { .. } => 4,
        AudioStageView::Sending => 5,
        AudioStageView::Finished => 6,
    }
}

/// Every event an audio job accepts moves it strictly forward, so a job is
/// over after at most six events; its action is `Done` exactly when it is
/// over; and its yt-dlp run carries the login arguments and then the link.
pub proof fn law_audio_job_progresses(req: RequestView, stage: AudioStageView, e: JobEvent)
    requires
        audio_accepts(stage, e),
    ensures
        audio_rank(audio_step(req, stage, e).0) > audio_rank(stage),
        0 <= audio_rank(stage) < 6,
        (audio_step(req, stage, e).1 is Done) <==> (audio_step(req, stage, e).0 is Finished),
        audio_step(req, stage, e).1 matches ActionView::RunYtdlp { args, timeout_secs } ==> {
            &&& args.len() >= req.login.len() + 1
            &&& args.last() == req.url
            &&& args.subrange(args.len() - 1 - req.login.len(), args.len() - 1) == req.login
            &&& timeout_secs == req.timeout_secs
        },
{
    match audio_step(req, stage, e).1 {
        ActionView::RunYtdlp { args, timeout_secs } => {
            lemma_argv_ends_with_login_and_link(args, req);
        },
        _ => {},
    }
}

/// An audio file is uploaded under a title exactly when the trimmed title is
/// not empty; it is then renamed first, to a name built from the title in
/// which no `/`, `\` or `:` remains, in the job's directory.
pub proof fn law_audio_title(req: RequestView, stage: AudioStageView, e: JobEvent)
    requires
        audio_accepts(stage, e),
    ensures
        stage matches AudioStageView::FindingAudio { dir, title } ==> {
            &&& audio_step(req, stage, e).0 matches AudioStageView::Renaming { dest, title: t }
                ==> t == title && title.len() > 0
            &&& audio_step(req, stage, e).1 matches ActionView::SendAudio { title: t, .. }
                ==> t is None && title.len() == 0
        },
        stage matches AudioStageView::Renaming { dest, title } ==>
            audio_step(req, stage, e).1 == (ActionView::SendAudio {
                path: dest,
                title: Some(title),
                reply_to: req.reply_to,
            }),
{
}

/// The file name built from a title holds no `/`, `\` or `:` before its
/// final dot and extension.
pub proof fn law_titled_name_is_safe(title: Seq<char>, ext: Seq<char>)
    ensures
        forall|i: int| 0 <= i < title.len() ==> {
            let c = #[trigger] spec_titled_name(title, ext)[i];
            c != '/' && c != '\\' && c != ':'
        },
        spec_titled_name(title, ext)[title.len() as int] == '.',
        spec_titled_name(title, ext).subrange((title.len() + 1) as int, spec_titled_name(title, ext).len() as int) == ext,
{
    assert(spec_titled_name(title, ext).subrange((title.len() + 1) as int, spec_titled_name(title, ext).len() as int) =~= ext);
}

} // verus!

verus! {

/// A program's run ended on its own, successfully.
pub open spec fn run_succeeded(o: RunOutcome) -> bool {
    match o {
        RunOutcome::Completed(out) => out.success,
        _ => false,
    }
}

/// A job reports success exactly on a successful upload: `Done(Ok(()))` comes
/// only from the upload stage on a `Sent(Ok(()))`, and that always gives it.
pub proof fn law_jobs_succeed_only_after_upload(
    req: RequestView,
    vstage: VideoStageView,
    ve: JobEvent,
    astage: AudioStageView,
    ae: JobEvent,
)
    ensures
        video_step(req, vstage, ve).1 == ActionView::Done(Ok::<(), JobErrorView>(()))
            ==> vstage is Sending && ve matches JobEvent::Sent(Ok(_)),
        audio_step(req, astage, ae).1 == ActionView::Done(Ok::<(), JobErrorView>(()))
            ==> astage is Sending && ae matches JobEvent::Sent(Ok(_)),
        video_step(req, VideoStageView::Sending, JobEvent::Sent(Ok::<(), String>(())))
            == (VideoStageView::Finished, ActionView::Done(Ok::<(), JobErrorView>(()))),
        audio_step(req, AudioStageView::Sending, JobEvent::Sent(Ok::<(), String>(())))
            == (AudioStageView::Finished, ActionView::Done(Ok::<(), JobErrorView>(()))),
{
}

/// A yt-dlp run that did not succeed fails an audio job, and a video job's
/// fallback download, with the run's own error (a timeout as a timeout after
/// the request's limit, a failed exit with its status); after a failed
/// preferred download a video job turns to the fallback.
pub proof fn law_failed_download_fails_job(req: RequestView, dir: Seq<char>, o: RunOutcome)
    ensures
        spec_ytdlp_result(o, req.timeout_secs) is Err ==> {
            &&& audio_step(req, AudioStageView::Downloading { dir }, JobEvent::Ytdlp(o))
                == audio_finish(Err(spec_ytdlp_result(o, req.timeout_secs)->Err_0))
            &&& video_step(req, VideoStageView::Fallback { dir }, JobEvent::Ytdlp(o))
                == video_finish(Err(spec_ytdlp_result(o, req.timeout_secs)->Err_0))
        },
        !run_succeeded(o) ==> {
            &&& audio_step(req, AudioStageView::Downloading { dir }, JobEvent::Ytdlp(o)).1 matches ActionView::Done(Err(_))
            &&& video_step(req, VideoStageView::Fallback { dir }, JobEvent::Ytdlp(o)).1 matches ActionView::Done(Err(_))
            &&& video_step(req, VideoStageView::Preferred { dir }, JobEvent::Ytdlp(o)) == video_fallback(req, dir)
        },
        o is TimedOut ==> audio_step(req, AudioStageView::Downloading { dir }, JobEvent::Ytdlp(o)).1
            == ActionView::Done(Err(JobErrorView::YtdlpTimedOut { secs: req.timeout_secs })),
        (o matches RunOutcome::Completed(out) && !out.success) ==> {
            &&& audio_step(req, AudioStageView::Downloading { dir }, JobEvent::Ytdlp(o)).1
                matches ActionView::Done(Err(JobErrorView::YtdlpFailed { status, .. }))
            &&& audio_step(req, AudioStageView::Downloading { dir }, JobEvent::Ytdlp(o)).1->Done_0->Err_0
                ->YtdlpFailed_status == o->Completed_0.status@
        },
        run_succeeded(o) ==> audio_step(req, AudioStageView::Downloading { dir }, JobEvent::Ytdlp(o)).0
            == (AudioStageView::ReadingTitle { dir }),
{
}

/// A successful preferred download whose output says neither "Aborting" nor
/// "larger than max-filesize" is used: the job looks for its file; one whose
/// output says either turns to the fallback download.
pub proof fn law_preferred_download_used(req: RequestView, dir: Seq<char>, o: RunOutcome)
    requires
        run_succeeded(o),
    ensures
        ({
            let out = spec_ytdlp_result(o, req.timeout_secs)->Ok_0;
            &&& spec_ytdlp_result(o, req.timeout_secs) is Ok
            &&& (!has_substring(out, "Aborting"@) && !has_substring(out, "larger than max-filesize"@)) ==>
                video_step(req, VideoStageView::Preferred { dir }, JobEvent::Ytdlp(o))
                    == (VideoStageView::FindingPreferred { dir }, ActionView::ListDir { dir })
            &&& (has_substring(out, "Aborting"@) || has_substring(out, "larger than max-filesize"@)) ==>
                video_step(req, VideoStageView::Preferred { dir }, JobEvent::Ytdlp(o)) == video_fallback(req, dir)
        }),
{
    law_download_aborted_markers(spec_ytdlp_result(o, req.timeout_secs)->Ok_0);
}

/// Uploads in private chats are plain messages; in groups they answer the
/// message that held the link.
pub proof fn law_reply_target(is_private: bool, message_id: i32)
    ensures
        is_private ==> spec_reply_target(is_private, message_id) is None,
        !is_private ==> spec_reply_target(is_private, message_id) == Some(message_id),
{
}

} // verus!
