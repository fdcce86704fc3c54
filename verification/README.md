# tgbot

A Telegram bot that downloads videos and audio from links (YouTube, Facebook,
Instagram, TikTok, Twitter/X, Reddit, LinkedIn) with yt-dlp and sends them back.

The bot's logic is a library verified with Verus (`src/`); the program around
it (`app/`) talks to Telegram, runs yt-dlp, ffprobe, ffmpeg, launchctl and
cargo, and touches the file system.

- `src/session.rs` — per-user state (chosen mode, link awaiting the
  audio/video choice) in two `DashMap`s, with its laws.
- `src/handlers.rs` — what to do about commands, messages and button presses.
- `src/jobs.rs` — the video and audio download jobs as state machines: the
  program performs each action and reports back an event.
- `src/download.rs`, `src/args.rs`, `src/length.rs` — yt-dlp/ffmpeg/ffprobe
  arguments, run outcomes, errors, the length and dimension probes.
- `src/service.rs` — `tgbot service install|update|uninstall|status`.
- `src/config.rs`, `src/helpers.rs`, `src/text.rs`, `src/types.rs` — settings,
  greetings and link detection, string utilities, modes and commands.

Settings: `TELEGRAM_BOT_TOKEN`, `YTDLP_BIN`, `FFMPEG_BIN`, `FFPROBE_BIN`,
`DOWNLOAD_TIMEOUT_SECS` (default 30), `LONG_VIDEO_SECS` (default 300), and
`<SITE>_USERNAME` / `<SITE>_PASSWORD` for FACEBOOK, INSTAGRAM, TWITTER, TIKTOK,
REDDIT and LINKEDIN.

`Cargo.toml` pins `takecell`, which teloxide depends on, to 0.1.1: later
releases need Rust 1.96, newer than the toolchain the crate is built with.
