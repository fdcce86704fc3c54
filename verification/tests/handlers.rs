use tgbot::handlers::{
    after_length_probe, button_mode, command_text, failure_text, handle_callback, handle_command,
    handle_message, failure_reply, plan_message, user_key, CallbackPlan, LengthDecision,
    MessagePlan,
};
use tgbot::download::JobError;
use tgbot::length::{length_probe_args, longer_than, minutes_rounded_up, parse_length, probed_length, VideoLength};
use tgbot::download::{ProcessOutput, RunOutcome};
use tgbot::session::Sessions;
use tgbot::types::{Cmd, Mode};

const GREETINGS: [&str; 21] = [
    "краљу", "баки", "царе", "легендице", "друже", "чоче", "јадо", "мајсторе", "легендо", "брате",
    "геније", "душо", "сине", "мангупе", "фрајеру", "братко", "батко", "срце", "пријатељу", "комшо",
    "комшија",
];

#[test]
fn command_texts() {
    assert_eq!(
        command_text(Cmd::Start, "друже"),
        "Ђе с' друже. Пошаљи линк да ти пошаљем видео.\n/video - видео мод\n/audio - аудио мод"
    );
    assert_eq!(command_text(Cmd::Video, "x"), "Мод је подешен на видео. Сад само пошаљи линк.");
    assert_eq!(command_text(Cmd::Audio, "x"), "Мод је подешен на аудио. Сад само пошаљи линк.");
}

#[test]
fn commands_set_the_mode() {
    let mut s = Sessions::new();
    let reply = handle_command(&mut s, Some(3), Cmd::Audio);
    assert_eq!(reply, "Мод је подешен на аудио. Сад само пошаљи линк.");
    assert_eq!(s.mode_of(3), Mode::Audio);
    let reply = handle_command(&mut s, Some(3), Cmd::Start);
    assert!(GREETINGS.iter().any(|g| reply == command_text(Cmd::Start, g)));
    assert_eq!(s.mode_of(3), Mode::Video);
    handle_command(&mut s, None, Cmd::Audio);
    assert_eq!(s.mode_of(0), Mode::Audio);
    assert_eq!(user_key(None), 0);
    assert_eq!(user_key(Some(9)), 9);
}

#[test]
fn messages_without_links() {
    let s = Sessions::new();
    match plan_message(&s, Some("hi"), true, Some(1), "друже") {
        MessagePlan::Reply { text } => assert_eq!(text, "Друже, баци линк.\n/video за видео\n/audio за само звук"),
        other => panic!("unexpected {other:?}"),
    }
    assert!(matches!(plan_message(&s, Some("hi"), false, Some(1), "друже"), MessagePlan::Ignore));
    assert!(matches!(plan_message(&s, None, false, Some(1), "друже"), MessagePlan::Ignore));
    assert!(matches!(handle_message(&s, None, true, Some(1)), MessagePlan::Reply { .. }));
}

#[test]
fn links_follow_the_mode() {
    let mut s = Sessions::new();
    match plan_message(&s, Some("  https://youtu.be/x \n"), false, Some(1), "g") {
        MessagePlan::ProbeLength { url } => assert_eq!(url, "https://youtu.be/x"),
        other => panic!("unexpected {other:?}"),
    }
    s.set_mode(1, Mode::Audio);
    match plan_message(&s, Some("https://youtu.be/x"), true, Some(1), "g") {
        MessagePlan::Download { mode, url } => {
            assert_eq!(mode, Mode::Audio);
            assert_eq!(url, "https://youtu.be/x");
        },
        other => panic!("unexpected {other:?}"),
    }
}

#[test]
fn video_lengths() {
    assert_eq!(parse_length("212\n"), Some(VideoLength { whole_secs: 212, has_fraction: false }));
    assert_eq!(parse_length("300.0"), Some(VideoLength { whole_secs: 300, has_fraction: false }));
    assert_eq!(parse_length("300.25"), Some(VideoLength { whole_secs: 300, has_fraction: true }));
    assert_eq!(parse_length("300."), Some(VideoLength { whole_secs: 300, has_fraction: false }));
    assert_eq!(parse_length("NA"), None);
    assert_eq!(parse_length(""), None);
    assert_eq!(parse_length(".5"), None);
    assert_eq!(parse_length("1.2.3"), None);
    let l = |w, f| VideoLength { whole_secs: w, has_fraction: f };
    assert!(!longer_than(l(300, false), 300));
    assert!(longer_than(l(300, true), 300));
    assert!(longer_than(l(301, false), 300));
    assert_eq!(minutes_rounded_up(l(301, false)), 6);
    assert_eq!(minutes_rounded_up(l(360, false)), 6);
    assert_eq!(minutes_rounded_up(l(360, true)), 7);
    assert_eq!(minutes_rounded_up(l(0, false)), 0);
    assert_eq!(minutes_rounded_up(l(u64::MAX, true)), u64::MAX / 60 + 1);
    let ok = RunOutcome::Completed(ProcessOutput {
        success: true, status: String::new(), stdout: b"612.5\n".to_vec(), stderr: vec![],
    });
    assert_eq!(probed_length(ok), Some(l(612, true)));
    assert_eq!(probed_length(RunOutcome::TimedOut), None);
    assert_eq!(
        length_probe_args(&vec!["--username".into(), "u".into()], "https://x.com/a"),
        vec!["--print", "duration", "--skip-download", "--no-warnings", "--username", "u", "https://x.com/a"]
    );
}

#[test]
fn long_videos_ask_and_buttons_answer_once() {
    let mut s = Sessions::new();
    let d = after_length_probe(
        &mut s, Some(4), "https://youtu.be/long".into(),
        Some(VideoLength { whole_secs: 612, has_fraction: true }), 300,
    );
    match d {
        LengthDecision::AskAudioOrVideo { text, buttons } => {
            assert_eq!(text, "Видео траје ~11 мин. Фајл може бити превелик.\nИзабери: аудио или настави са видеом?");
            assert_eq!(buttons, vec![
                ("🎵 Аудио".to_string(), "long_audio".to_string()),
                ("▶️ Настави".to_string(), "long_continue".to_string()),
            ]);
        },
        other => panic!("unexpected {other:?}"),
    }
    match handle_callback(&mut s, Some("long_audio"), 4, true) {
        CallbackPlan::Proceed { mode, url, status } => {
            assert_eq!(mode, Mode::Audio);
            assert_eq!(url, "https://youtu.be/long");
            assert_eq!(status, "Преузимам као аудио...");
        },
        other => panic!("unexpected {other:?}"),
    }
    match handle_callback(&mut s, Some("long_continue"), 4, true) {
        CallbackPlan::Expired { answer } => assert_eq!(answer, "Линк је истекао, пошаљи поново."),
        other => panic!("unexpected {other:?}"),
    }
}

#[test]
fn continue_button_and_other_presses() {
    let mut s = Sessions::new();
    after_length_probe(&mut s, None, "u".into(), Some(VideoLength { whole_secs: 301, has_fraction: false }), 300);
    assert!(matches!(handle_callback(&mut s, Some("other"), 0, true), CallbackPlan::Ignore));
    assert!(matches!(handle_callback(&mut s, None, 0, true), CallbackPlan::Ignore));
    match handle_callback(&mut s, Some("long_continue"), 0, true) {
        CallbackPlan::Proceed { mode, status, .. } => {
            assert_eq!(mode, Mode::Video);
            assert_eq!(status, "Преузимам као видео...");
        },
        other => panic!("unexpected {other:?}"),
    }
    after_length_probe(&mut s, None, "u".into(), Some(VideoLength { whole_secs: 400, has_fraction: false }), 300);
    assert!(matches!(handle_callback(&mut s, Some("long_audio"), 0, false), CallbackPlan::AcknowledgeOnly));
    assert!(matches!(handle_callback(&mut s, Some("long_audio"), 0, true), CallbackPlan::Expired { .. }));
    assert_eq!(button_mode(Some("long_audio")), Some(Mode::Audio));
}

#[test]
fn short_or_unknown_videos_download_at_once() {
    let mut s = Sessions::new();
    let d = after_length_probe(&mut s, Some(1), "u".into(), Some(VideoLength { whole_secs: 300, has_fraction: false }), 300);
    assert!(matches!(d, LengthDecision::DownloadVideo { ref url } if url == "u"));
    let d = after_length_probe(&mut s, Some(1), "u".into(), None, 300);
    assert!(matches!(d, LengthDecision::DownloadVideo { .. }));
    assert!(s.take_pending(1).is_none());
}

#[test]
fn failure_replies() {
    let e = JobError::AudioFileMissing;
    assert_eq!(failure_text(&e), "Error: Audio file was not created");
    assert_eq!(failure_reply(true, &e), Some("Error: Audio file was not created".to_string()));
    assert_eq!(failure_reply(false, &e), None);
}
