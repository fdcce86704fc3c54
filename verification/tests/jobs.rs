use tgbot::download::{JobError, ProcessOutput, RunOutcome, ytdlp_result, download_aborted};
use tgbot::jobs::{
    extension, find_prefixed, reply_target, AudioJob, DirEntry, JobAction, JobEvent, JobRequest,
    VideoJob,
};
use tgbot::args::{ffmpeg_location, login_args, login_site, LoginSite};

fn request(login: Vec<String>) -> JobRequest {
    JobRequest {
        url: "https://youtu.be/abc".to_string(),
        reply_to: Some(7),
        login,
        ffmpeg_bin: "/usr/local/bin/ffmpeg".to_string(),
        timeout_secs: 30,
    }
}

fn done_ok(o: RunOutcome) -> RunOutcome {
    o
}

fn completed(success: bool, stdout: &str, stderr: &str) -> RunOutcome {
    RunOutcome::Completed(ProcessOutput {
        success,
        status: if success { "exit status: 0".into() } else { "exit status: 1".into() },
        stdout: stdout.as_bytes().to_vec(),
        stderr: stderr.as_bytes().to_vec(),
    })
}

fn entry(name: &str, len: Option<u64>) -> DirEntry {
    DirEntry { name: name.to_string(), len }
}

fn strings(v: &[&str]) -> Vec<String> {
    v.iter().map(|s| s.to_string()).collect()
}

#[test]
fn ytdlp_outcomes_and_error_texts() {
    assert_eq!(ytdlp_result(completed(true, "out", "err"), 30).unwrap(), "err\nout");
    match ytdlp_result(completed(false, "out", "bad"), 30) {
        Err(e) => assert_eq!(e.message(), "yt-dlp failed (exit exit status: 1): bad"),
        Ok(_) => panic!("expected failure"),
    }
    match ytdlp_result(completed(false, "only out", ""), 30) {
        Err(e) => assert_eq!(e.message(), "yt-dlp failed (exit exit status: 1): only out"),
        Ok(_) => panic!("expected failure"),
    }
    match ytdlp_result(RunOutcome::TimedOut, 45) {
        Err(e) => assert_eq!(e.message(), "yt-dlp cancelled: download exceeded 45s limit"),
        Ok(_) => panic!("expected failure"),
    }
    match ytdlp_result(RunOutcome::WaitFailed("boom".into()), 30) {
        Err(e) => assert_eq!(e.message(), "yt-dlp io error: boom"),
        Ok(_) => panic!("expected failure"),
    }
    match ytdlp_result(RunOutcome::SpawnFailed("No such file".into()), 30) {
        Err(e) => assert_eq!(e.message(), "No such file"),
        Ok(_) => panic!("expected failure"),
    }
    // Invalid UTF-8 is decoded lossily.
    let o = RunOutcome::Completed(ProcessOutput {
        success: true,
        status: String::new(),
        stdout: vec![0x61, 0xff],
        stderr: vec![],
    });
    assert_eq!(ytdlp_result(done_ok(o), 30).unwrap(), "\na\u{fffd}");
}

#[test]
fn every_error_has_its_text() {
    assert_eq!(JobError::Io("disk full".into()).message(), "disk full");
    assert_eq!(JobError::FallbackFileMissing.message(), "Fallback file was not created");
    assert_eq!(JobError::FfmpegFailed { stderr: "x".into() }.message(), "ffmpeg re-encode failed: x");
    assert_eq!(JobError::ReencodedEmpty.message(), "Re-encoded file is empty");
    assert_eq!(JobError::AudioFileMissing.message(), "Audio file was not created");
    assert_eq!(JobError::SendFailed("too big".into()).message(), "too big");
    assert_eq!(
        JobError::YtdlpFailed { status: "s".into(), detail: "d".into() }.message(),
        "yt-dlp failed (exit s): d"
    );
    assert_eq!(JobError::YtdlpWaitFailed("w".into()).message(), "yt-dlp io error: w");
    assert_eq!(JobError::YtdlpTimedOut { secs: 30 }.message(), "yt-dlp cancelled: download exceeded 30s limit");
}

#[test]
fn aborted_downloads_are_recognised() {
    assert!(download_aborted("[download] Aborting ..."));
    assert!(download_aborted("File is larger than max-filesize (50M)"));
    assert!(!download_aborted("[download] 100% of 3MiB"));
}

#[test]
fn helpers_for_files() {
    let es = vec![entry("title.txt", Some(3)), entry("video.mp4", Some(5000)), entry("video.part", None)];
    assert_eq!(find_prefixed(&es, "video."), Some(1));
    assert_eq!(find_prefixed(&es, "audio."), None);
    assert_eq!(extension("audio.m4a"), Some("m4a".to_string()));
    assert_eq!(extension("audio.tar.gz"), Some("gz".to_string()));
    assert_eq!(extension("audio."), Some("".to_string()));
    assert_eq!(extension("audio"), None);
    assert_eq!(extension(".hidden"), None);
    for n in ["audio.m4a", "audio.", "audio", ".hidden", "a.b.c"] {
        let std_ext = std::path::Path::new(n).extension().map(|e| e.to_string_lossy().into_owned());
        assert_eq!(extension(n), std_ext, "name {n:?}");
    }
    assert_eq!(reply_target(true, 9), None);
    assert_eq!(reply_target(false, 9), Some(9));
}

#[test]
fn ffmpeg_location_is_the_parent_directory() {
    assert_eq!(ffmpeg_location("/usr/local/bin/ffmpeg"), "/usr/local/bin");
    assert_eq!(ffmpeg_location("ffmpeg"), "");
    assert_eq!(ffmpeg_location("/"), "/");
    assert_eq!(ffmpeg_location(""), "");
}

#[test]
fn login_arguments() {
    assert_eq!(login_site("https://www.facebook.com/v/1"), Some(LoginSite::Facebook));
    assert_eq!(login_site("https://twitter.com/a"), Some(LoginSite::Twitter));
    assert_eq!(login_site("https://x.com/a"), Some(LoginSite::Twitter));
    assert_eq!(login_site("https://youtu.be/a"), None);
    let (u, p) = LoginSite::TikTok.credential_vars();
    assert_eq!((u.as_str(), p.as_str()), ("TIKTOK_USERNAME", "TIKTOK_PASSWORD"));
    assert_eq!(login_args(Some("me"), Some("pw")), strings(&["--username", "me", "--password", "pw"]));
    assert!(login_args(Some("me"), None).is_empty());
    assert!(login_args(None, None).is_empty());
}

#[test]
fn preferred_video_download_is_sent_when_large_enough() {
    let (job, a) = VideoJob::start(request(strings(&["--username", "u", "--password", "p"])));
    assert!(matches!(a, JobAction::CreateTempDir));
    let (job, a) = job.step(JobEvent::TempDir(Ok("/tmp/j".into())));
    match a {
        JobAction::RunYtdlp { args, timeout_secs } => {
            assert_eq!(timeout_secs, 30);
            assert_eq!(args, strings(&[
                "--ffmpeg-location", "/usr/local/bin",
                "-f", "bestvideo[filesize<50M][ext=mp4]+bestaudio[filesize<10M]/best[ext=mp4]/best",
                "--max-filesize", "50M",
                "-o", "/tmp/j/video.%(ext)s",
                "--merge-output-format", "mp4",
                "--postprocessor-args", "-c:v libx264 -preset fast -crf 23 -c:a aac -movflags +faststart",
                "--no-progress",
                "--username", "u", "--password", "p",
                "https://youtu.be/abc",
            ]));
        },
        _ => panic!("expected a yt-dlp run"),
    }
    let (job, a) = job.step(JobEvent::Ytdlp(completed(true, "[download] done", "")));
    assert!(matches!(&a, JobAction::ListDir { dir } if dir == "/tmp/j"));
    let (job, a) = job.step(JobEvent::Listed(vec![entry("video.mp4", Some(2048))]));
    assert!(matches!(&a, JobAction::ProbeDimensions { path } if path == "/tmp/j/video.mp4"));
    let (job, a) = job.step(JobEvent::Dimensions(Some(640), None));
    match &a {
        JobAction::SendVideo { path, reply_to, width, height } => {
            assert_eq!(path, "/tmp/j/video.mp4");
            assert_eq!(*reply_to, Some(7));
            assert_eq!(*width, Some(640));
            assert_eq!(*height, None);
        },
        _ => panic!("expected an upload"),
    }
    let (job, a) = job.step(JobEvent::Sent(Ok(())));
    assert!(matches!(a, JobAction::Done(Ok(()))));
    assert!(job.is_finished());
}

#[test]
fn small_or_aborted_preferred_download_falls_back_and_reencodes() {
    let (job, _) = VideoJob::start(request(vec![]));
    let (job, _) = job.step(JobEvent::TempDir(Ok("/tmp/j".into())));
    // A file of 1024 bytes is not enough.
    let (job, _) = job.step(JobEvent::Ytdlp(completed(true, "", "")));
    let (job, a) = job.step(JobEvent::Listed(vec![entry("video.mp4", Some(1024))]));
    match &a {
        JobAction::RunYtdlp { args, .. } => assert_eq!(args, &strings(&[
            "--ffmpeg-location", "/usr/local/bin",
            "-f", "bestvideo+bestaudio",
            "-o", "/tmp/j/fallback_video",
            "--remux-video", "mp4",
            "--no-warnings", "--no-progress",
            "https://youtu.be/abc",
        ])),
        _ => panic!("expected the fallback download"),
    }
    let (job, a) = job.step(JobEvent::Ytdlp(completed(true, "", "")));
    assert!(matches!(a, JobAction::ListDir { .. }));
    let (job, a) = job.step(JobEvent::Listed(vec![entry("fallback_video.webm", Some(9))]));
    match &a {
        JobAction::RunFfmpeg { args } => assert_eq!(args, &strings(&[
            "-y", "-i", "/tmp/j/fallback_video.webm",
            "-c:v", "libx264", "-preset", "fast", "-crf", "24",
            "-vf", "scale=1280:-2", "-c:a", "aac", "-b:a", "128k",
            "-movflags", "+faststart", "-f", "mp4", "/tmp/j/reencoded.mp4",
        ])),
        _ => panic!("expected ffmpeg"),
    }
    let (job, a) = job.step(JobEvent::Ffmpeg(Ok(ProcessOutput {
        success: true, status: String::new(), stdout: vec![], stderr: vec![],
    })));
    assert!(matches!(&a, JobAction::FileSize { path } if path == "/tmp/j/reencoded.mp4"));
    let (job, a) = job.step(JobEvent::Size(Some(0)));
    match a {
        JobAction::Done(Err(e)) => assert_eq!(e.message(), "Re-encoded file is empty"),
        _ => panic!("expected failure"),
    }
    assert!(job.is_finished());
}

#[test]
fn aborted_preferred_download_goes_straight_to_fallback() {
    let (job, _) = VideoJob::start(request(vec![]));
    let (job, _) = job.step(JobEvent::TempDir(Ok("/t".into())));
    let (_, a) = job.step(JobEvent::Ytdlp(completed(true, "Aborting", "")));
    assert!(matches!(&a, JobAction::RunYtdlp { args, .. } if args[3] == "bestvideo+bestaudio"));
}

#[test]
fn failing_fallback_reports_its_error() {
    let (job, _) = VideoJob::start(request(vec![]));
    let (job, _) = job.step(JobEvent::TempDir(Ok("/t".into())));
    let (job, _) = job.step(JobEvent::Ytdlp(RunOutcome::TimedOut));
    let (job, a) = job.step(JobEvent::Ytdlp(RunOutcome::TimedOut));
    match a {
        JobAction::Done(Err(e)) => assert_eq!(e.message(), "yt-dlp cancelled: download exceeded 30s limit"),
        _ => panic!("expected failure"),
    }
    assert!(job.is_finished());
    assert!(!job.accepts(&JobEvent::Renamed));
}

#[test]
fn missing_fallback_file_and_failed_ffmpeg() {
    let (job, _) = VideoJob::start(request(vec![]));
    let (job, _) = job.step(JobEvent::TempDir(Ok("/t".into())));
    let (job, _) = job.step(JobEvent::Ytdlp(completed(false, "", "e")));
    let (job2, _) = job.step(JobEvent::Ytdlp(completed(true, "", "")));
    let (_, a) = job2.step(JobEvent::Listed(vec![entry("other", Some(5))]));
    match a {
        JobAction::Done(Err(e)) => assert_eq!(e.message(), "Fallback file was not created"),
        _ => panic!("expected failure"),
    }
    let (job, _) = VideoJob::start(request(vec![]));
    let (job, _) = job.step(JobEvent::TempDir(Err("denied".into())));
    assert!(job.is_finished());
    let (job, _) = VideoJob::start(request(vec![]));
    let (job, _) = job.step(JobEvent::TempDir(Ok("/t".into())));
    let (job, _) = job.step(JobEvent::Ytdlp(completed(false, "", "e")));
    let (job, _) = job.step(JobEvent::Ytdlp(completed(true, "", "")));
    let (job, _) = job.step(JobEvent::Listed(vec![entry("fallback_video.mkv", None)]));
    let (_, a) = job.step(JobEvent::Ffmpeg(Ok(ProcessOutput {
        success: false, status: String::new(), stdout: vec![], stderr: b"codec".to_vec(),
    })));
    match a {
        JobAction::Done(Err(e)) => assert_eq!(e.message(), "ffmpeg re-encode failed: codec"),
        _ => panic!("expected failure"),
    }
}

#[test]
fn audio_job_renames_after_the_title() {
    let mut req = request(vec![]);
    req.reply_to = None;
    let (job, _) = AudioJob::start(req);
    let (job, a) = job.step(JobEvent::TempDir(Ok("/tmp/a".into())));
    match &a {
        JobAction::RunYtdlp { args, .. } => assert_eq!(args, &strings(&[
            "-f", "139/140/bestaudio[abr<=50]/bestaudio",
            "-o", "/tmp/a/audio.%(ext)s",
            "--print-to-file", "title", "/tmp/a/title.txt",
            "--no-warnings", "--no-progress",
            "https://youtu.be/abc",
        ])),
        _ => panic!("expected yt-dlp"),
    }
    let (job, a) = job.step(JobEvent::Ytdlp(completed(true, "", "")));
    assert!(matches!(&a, JobAction::ReadTitle { path } if path == "/tmp/a/title.txt"));
    let (job, a) = job.step(JobEvent::Title("  AC/DC: Back\\In Black \n".into()));
    assert!(matches!(a, JobAction::ListDir { .. }));
    let (job, a) = job.step(JobEvent::Listed(vec![entry("audio.webm", Some(10))]));
    match &a {
        JobAction::Rename { from, to } => {
            assert_eq!(from, "/tmp/a/audio.webm");
            assert_eq!(to, "/tmp/a/AC_DC_ Back_In Black.webm");
        },
        _ => panic!("expected a rename"),
    }
    let (job, a) = job.step(JobEvent::Renamed);
    match &a {
        JobAction::SendAudio { path, title, reply_to } => {
            assert_eq!(path, "/tmp/a/AC_DC_ Back_In Black.webm");
            assert_eq!(title.as_deref(), Some("AC/DC: Back\\In Black"));
            assert_eq!(*reply_to, None);
        },
        _ => panic!("expected an upload"),
    }
    let (job, a) = job.step(JobEvent::Sent(Err("Request Entity Too Large".into())));
    match a {
        JobAction::Done(Err(e)) => assert_eq!(e.message(), "Request Entity Too Large"),
        _ => panic!("expected failure"),
    }
    assert!(job.is_finished());
}

#[test]
fn audio_without_title_or_extension() {
    let (job, _) = AudioJob::start(request(vec![]));
    let (job, _) = job.step(JobEvent::TempDir(Ok("/d".into())));
    let (job, _) = job.step(JobEvent::Ytdlp(completed(true, "", "")));
    let (job, _) = job.step(JobEvent::Title("   ".into()));
    let (job, a) = job.step(JobEvent::Listed(vec![entry("audio.m4a", None)]));
    match &a {
        JobAction::SendAudio { path, title, reply_to } => {
            assert_eq!(path, "/d/audio.m4a");
            assert!(title.is_none());
            assert_eq!(*reply_to, Some(7));
        },
        _ => panic!("expected an upload"),
    }
    let (_, a) = job.step(JobEvent::Sent(Ok(())));
    assert!(matches!(a, JobAction::Done(Ok(()))));

    let (job, _) = AudioJob::start(request(vec![]));
    let (job, _) = job.step(JobEvent::TempDir(Ok("/d".into())));
    let (job, _) = job.step(JobEvent::Ytdlp(completed(true, "", "")));
    let (job, _) = job.step(JobEvent::Title("Song".into()));
    let (_, a) = job.step(JobEvent::Listed(vec![entry("audio.", None)]));
    assert!(matches!(&a, JobAction::Rename { to, .. } if to == "/d/Song."));

    let (job, _) = AudioJob::start(request(vec![]));
    let (job, _) = job.step(JobEvent::TempDir(Ok("/d".into())));
    let (job, _) = job.step(JobEvent::Ytdlp(completed(true, "", "")));
    let (job, _) = job.step(JobEvent::Title(String::new()));
    let (_, a) = job.step(JobEvent::Listed(vec![]));
    match a {
        JobAction::Done(Err(e)) => assert_eq!(e.message(), "Audio file was not created"),
        _ => panic!("expected failure"),
    }
}
