use tgbot::config::{parse_u64, pick_tool, setting_u64_or, tool_candidates, Config};

#[test]
fn parse_u64_matches_std() {
    for s in ["0", "42", "+7", "", "+", "-1", " 1", "1 ", "12a", "18446744073709551615",
        "18446744073709551616", "007"] {
        assert_eq!(parse_u64(s), s.parse::<u64>().ok(), "input {s:?}");
    }
}

#[test]
fn settings_fall_back_to_defaults() {
    assert_eq!(setting_u64_or(None, 30), 30);
    assert_eq!(setting_u64_or(Some("abc"), 30), 30);
    assert_eq!(setting_u64_or(Some("90"), 30), 90);
}

#[test]
fn config_defaults() {
    let c = Config::from_env_values(None, None, "yt-dlp".into(), "ffmpeg".into(), "ffprobe".into());
    assert_eq!(c.download_timeout_secs, 30);
    assert_eq!(c.long_video_secs, 300);
    assert_eq!(c.ytdlp_bin, "yt-dlp");
    let c = Config::from_env_values(Some("45"), Some("600"), "a".into(), "b".into(), "c".into());
    assert_eq!(c.download_timeout_secs, 45);
    assert_eq!(c.long_video_secs, 600);
    assert_eq!(c.ffmpeg_bin, "b");
    assert_eq!(c.ffprobe_bin, "c");
}

#[test]
fn tool_candidates_and_choice() {
    let c = tool_candidates("yt-dlp", Some("/home/me"));
    assert_eq!(c, vec![
        "/opt/homebrew/bin/yt-dlp".to_string(),
        "/usr/local/bin/yt-dlp".to_string(),
        "/home/me/.local/bin/yt-dlp".to_string(),
    ]);
    assert_eq!(tool_candidates("ffmpeg", None).len(), 2);
    assert_eq!(pick_tool(Some("/x/yt"), "yt-dlp", &c, &vec![true, true, true]), "/x/yt");
    assert_eq!(pick_tool(None, "yt-dlp", &c, &vec![false, true, true]), "/usr/local/bin/yt-dlp");
    assert_eq!(pick_tool(None, "yt-dlp", &c, &vec![false, false, false]), "yt-dlp");
}
