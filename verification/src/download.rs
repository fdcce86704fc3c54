use vstd::prelude::*;
use vstd::utf8::{valid_utf8, decode_utf8};
use crate::text::{contains_str, has_substring, decimal, decimal_string, push_char};

verus! {

// ---------------------------------------------------------------------------
// Errors
// ---------------------------------------------------------------------------

/// Why a download job failed.
#[derive(Debug)]
pub enum JobError {
    /// The system refused an operation (temporary directory, starting a
    /// program, ...); the text is the system's.
    Io(String),
    /// yt-dlp ran but exited unsuccessfully; `status` is how it exited and
    /// `detail` its error output (its normal output where that is empty).
    YtdlpFailed { status: String, detail: String },
    /// Waiting for yt-dlp failed.
    YtdlpWaitFailed(String),
    /// yt-dlp ran longer than the allowed number of seconds and was stopped.
    YtdlpTimedOut { secs: u64 },
    /// The fallback download left no file behind.
    FallbackFileMissing,
    /// ffmpeg could not re-encode the fallback download; its error output.
    FfmpegFailed { stderr: String },
    /// ffmpeg left an empty or no file.
    ReencodedEmpty,
    /// The audio download left no file behind.
    AudioFileMissing,
    /// Telegram refused the upload; the text is the client library's.
    SendFailed(String),
}

/// A `JobError` with its texts as character sequences.
pub enum JobErrorView {
    Io(Seq<char>),
    YtdlpFailed { status: Seq<char>, detail: Seq<char> },
    YtdlpWaitFailed(Seq<char>),
    YtdlpTimedOut { secs: u64 },
    FallbackFileMissing,
    FfmpegFailed { stderr: Seq<char> },
    ReencodedEmpty,
    AudioFileMissing,
    SendFailed(Seq<char>),
}

impl View for JobError {
    type V = JobErrorView;

    open spec fn view(&self) -> JobErrorView {
        match self {
            JobError::Io(t) => JobErrorView::Io(t@),
            JobError::YtdlpFailed { status, detail } => JobErrorView::YtdlpFailed {
                status: status@,
                detail: detail@,
            },
            JobError::YtdlpWaitFailed(t) => JobErrorView::YtdlpWaitFailed(t@),
            JobError::YtdlpTimedOut { secs } => JobErrorView::YtdlpTimedOut { secs: *secs },
            JobError::FallbackFileMissing => JobErrorView::FallbackFileMissing,
            JobError::FfmpegFailed { stderr } => JobErrorView::FfmpegFailed { stderr: stderr@ },
            JobError::ReencodedEmpty => JobErrorView::ReencodedEmpty,
            JobError::AudioFileMissing => JobErrorView::AudioFileMissing,
            JobError::SendFailed(t) => JobErrorView::SendFailed(t@),
        }
    }
}

/// The text shown for a failed job.
pub open spec fn error_text(e: JobErrorView) -> Seq<char> {
    match e {
        JobErrorView::Io(t) => t,
        JobErrorView::YtdlpFailed { status, detail } =>
            "yt-dlp failed (exit "@ + status + "): "@ + detail,
        JobErrorView::YtdlpWaitFailed(t) => "yt-dlp io error: "@ + t,
        JobErrorView::YtdlpTimedOut { secs } =>
            "yt-dlp cancelled: download exceeded "@ + decimal(secs as nat) + "s limit"@,
        JobErrorView::FallbackFileMissing => "Fallback file was not created"@,
        JobErrorView::FfmpegFailed { stderr } => "ffmpeg re-encode failed: "@ + stderr,
        JobErrorView::ReencodedEmpty => "Re-encoded file is empty"@,
        JobErrorView::AudioFileMissing => "Audio file was not created"@,
        JobErrorView::SendFailed(t) => t,
    }
}

impl JobError {
    /// The text shown for this error (see `error_text`).
    pub fn message(&self) -> (r: String)
        ensures
            r@ == error_text(self@),
    {
        match self {
            JobError::Io(t) => t.clone(),
            JobError::YtdlpFailed { status, detail } => {
                let mut r = String::from_str("yt-dlp failed (exit ");
                r.append(status.as_str());
                r.append("): ");
                r.append(detail.as_str());
                r
            },
            JobError::YtdlpWaitFailed(t) => {
                let mut r = String::from_str("yt-dlp io error: ");
                r.append(t.as_str());
                r
            },
            JobError::YtdlpTimedOut { secs } => {
                let mut r = String::from_str("yt-dlp cancelled: download exceeded ");
                let d = decimal_string(*secs);
                r.append(d.as_str());
                r.append("s limit");
                r
            },
            JobError::FallbackFileMissing => String::from_str("Fallback file was not created"),
            JobError::FfmpegFailed { stderr } => {
                let mut r = String::from_str("ffmpeg re-encode failed: ");
                r.append(stderr.as_str());
                r
            },
            JobError::ReencodedEmpty => String::from_str("Re-encoded file is empty"),
            JobError::AudioFileMissing => String::from_str("Audio file was not created"),
            JobError::SendFailed(t) => t.clone(),
        }
    }
}

// ---------------------------------------------------------------------------
// Running yt-dlp
// ---------------------------------------------------------------------------

/// What a program that ran to its end left behind.
#[derive(Debug)]
pub struct ProcessOutput {
    /// It exited successfully.
    pub success: bool,
    /// How it exited, as the system describes it.
    pub status: String,
    /// Its standard output.
    pub stdout: Vec<u8>,
    /// Its standard error.
    pub stderr: Vec<u8>,
}

/// How a run of yt-dlp ended.
#[derive(Debug)]
pub enum RunOutcome {
    /// The program could not be started; the system's text.
    SpawnFailed(String),
    /// It ran to its end.
    Completed(ProcessOutput),
    /// Waiting for it failed; the system's text.
    WaitFailed(String),
    /// It ran past the time limit and was stopped.
    TimedOut,
}

/// What `String::from_utf8_lossy` makes of `bytes`.
pub uninterp spec fn utf8_lossy(bytes: Seq<u8>) -> Seq<char>;

/// Calls `String::from_utf8_lossy`. The result is named `utf8_lossy(bytes)`;
/// of valid UTF-8 it is the decoded text, as the documentation states.
/// What invalid sequences become is left unsaid.
#[verifier::external_body]
fn lossy_text(bytes: &Vec<u8>) -> (r: String)
    ensures
        r@ == utf8_lossy(bytes@),
        valid_utf8(bytes@) ==> r@ == decode_utf8(bytes@),
{
    String::from_utf8_lossy(bytes.as_slice()).into_owned()
}

/// What a run of yt-dlp yields: on success its error output, a newline and
/// its normal output; otherwise the matching error.
pub open spec fn spec_ytdlp_result(o: RunOutcome, timeout_secs: u64) -> Result<Seq<char>, JobErrorView> {
    match o {
        RunOutcome::SpawnFailed(e) => Err(JobErrorView::Io(e@)),
        RunOutcome::Completed(out) => {
            let stderr = utf8_lossy(out.stderr@);
            let stdout = utf8_lossy(out.stdout@);
            if out.success {
                Ok(stderr + seq!['\n'] + stdout)
            } else {
                Err(JobErrorView::YtdlpFailed {
                    status: out.status@,
                    detail: if stderr.len() > 0 { stderr } else { stdout },
                })
            }
        },
        RunOutcome::WaitFailed(e) => Err(JobErrorView::YtdlpWaitFailed(e@)),
        RunOutcome::TimedOut => Err(JobErrorView::YtdlpTimedOut { secs: timeout_secs }),
    }
}

/// The view of a text-or-error result.
pub open spec fn text_result_view(r: Result<String, JobError>) -> Result<Seq<char>, JobErrorView> {
    match r {
        Ok(t) => Ok(t@),
        Err(e) => Err(e@),
    }
}

/// Interprets how a run of yt-dlp ended (see `spec_ytdlp_result`).
pub fn ytdlp_result(o: RunOutcome, timeout_secs: u64) -> (r: Result<String, JobError>)
    ensures
        text_result_view(r) == spec_ytdlp_result(o, timeout_secs),
{
    match o {
        RunOutcome::SpawnFailed(e) => Err(JobError::Io(e)),
        RunOutcome::Completed(out) => {
            let stderr = lossy_text(&out.stderr);
            let stdout = lossy_text(&out.stdout);
            if out.success {
                let mut t = stderr;
                push_char(&mut t, '\n');
                t.append(stdout.as_str());
                assert(t@ =~= stderr@ + seq!['\n'] + stdout@);
                Ok(t)
            } else {
                let detail = if stderr.as_str().unicode_len() > 0 { stderr } else { stdout };
                Err(JobError::YtdlpFailed { status: out.status, detail })
            }
        },
        RunOutcome::WaitFailed(e) => Err(JobError::YtdlpWaitFailed(e)),
        RunOutcome::TimedOut => Err(JobError::YtdlpTimedOut { secs: timeout_secs }),
    }
}

/// yt-dlp's output tells that it gave up on the preferred format (the file
/// would have been too large).
pub open spec fn spec_download_aborted(output: Seq<char>) -> bool {
    has_substring(output, "Aborting"@) || has_substring(output, "larger than max-filesize"@)
}

/// yt-dlp's output counts as a given-up download exactly when it says
/// "Aborting" or "larger than max-filesize" somewhere; any other output, such
/// as the progress and destination lines of a finished download, does not.
pub proof fn law_download_aborted_markers(output: Seq<char>)
    ensures
        has_substring(output, "Aborting"@) ==> spec_download_aborted(output),
        has_substring(output, "larger than max-filesize"@) ==> spec_download_aborted(output),
        !has_substring(output, "Aborting"@) && !has_substring(output, "larger than max-filesize"@)
            ==> !spec_download_aborted(output),
{
}

/// Whether yt-dlp's output tells that it gave up (see `spec_download_aborted`).
pub fn download_aborted(output: &str) -> (r: bool)
    ensures
        r == spec_download_aborted(output@),
{
    contains_str(output, "Aborting") || contains_str(output, "larger than max-filesize")
}

} // verus!

verus! {

/// A finished program's error output, decoded.
pub fn lossy_stderr(out: &ProcessOutput) -> (r: String)
    ensures
        r@ == utf8_lossy(out.stderr@),
{
    lossy_text(&out.stderr)
}

} // verus!

verus! {

/// A finished program's normal output, decoded.
pub fn lossy_stdout(out: &ProcessOutput) -> (r: String)
    ensures
        r@ == utf8_lossy(out.stdout@),
{
    lossy_text(&out.stdout)
}

} // verus!
