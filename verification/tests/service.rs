use tgbot::service::{
    plist_contents, plist_path, service_command, Line, ServiceCommand, ServiceEnv, ServiceEvent,
    ServiceRequest, ServiceRun,
};

fn args(v: &[&str]) -> Vec<String> {
    v.iter().map(|s| s.to_string()).collect()
}

fn env() -> ServiceEnv {
    ServiceEnv { repo: Ok("/src/bot".into()), home: Some("/Users/me".into()) }
}

fn texts(say: &[Line]) -> Vec<(bool, String)> {
    say.iter().map(|l| (l.to_stderr, l.text.clone())).collect()
}

#[test]
fn subcommands() {
    assert_eq!(service_command(&args(&["install"])), Some(ServiceCommand::Install));
    assert_eq!(service_command(&args(&["update", "x"])), Some(ServiceCommand::Update));
    assert_eq!(service_command(&args(&["uninstall"])), Some(ServiceCommand::Uninstall));
    assert_eq!(service_command(&args(&["status"])), Some(ServiceCommand::Status));
    assert_eq!(service_command(&args(&["start"])), None);
    assert_eq!(service_command(&args(&[])), None);
}

#[test]
fn paths_and_contents() {
    assert_eq!(plist_path("/Users/me"), "/Users/me/Library/LaunchAgents/com.user.tgbot-rust.plist");
    assert_eq!(
        plist_contents("<string>/PATH/TO/tgbot/rust/target</string>/PATH/TO/tgbot/rust", "/src/bot"),
        "<string>/src/bot/target</string>/src/bot"
    );
}

#[test]
fn unknown_subcommand_prints_usage_and_fails() {
    let (run, a) = ServiceRun::begin(&args(&["bogus"]), env());
    assert!(run.is_over());
    assert_eq!(texts(&a.say), vec![
        (true, "Usage: tgbot service {install|update|uninstall|status}".to_string()),
        (true, "".to_string()),
        (true, "  install    Build and register the launchd service".to_string()),
        (true, "  update     Rebuild and restart the running service".to_string()),
        (true, "  uninstall  Stop the service and remove the plist".to_string()),
        (true, "  status     Show whether the service is loaded/running".to_string()),
    ]);
    assert!(matches!(a.next, ServiceRequest::Exit { success: false }));
}

#[test]
fn install_runs_through() {
    let (run, a) = ServiceRun::begin(&args(&["install"]), env());
    assert!(matches!(&a.next, ServiceRequest::Exists { path } if path == "/src/bot/com.user.tgbot-rust.plist"));
    let (run, a) = run.step(ServiceEvent::Exists(true));
    assert_eq!(texts(&a.say), vec![(false, "Building release binary...".to_string())]);
    match &a.next {
        ServiceRequest::Run { program, args: a, quiet } => {
            assert_eq!(program, "cargo");
            assert_eq!(a, &args(&["build", "--release", "--manifest-path", "/src/bot/Cargo.toml"]));
            assert!(!quiet);
        },
        other => panic!("unexpected {other:?}"),
    }
    let (run, a) = run.step(ServiceEvent::Ran(Ok(true)));
    assert_eq!(texts(&a.say), vec![(false, "Installing service plist...".to_string())]);
    let (run, a) = run.step(ServiceEvent::Read(Ok("dir=/PATH/TO/tgbot/rust".into())));
    match &a.next {
        ServiceRequest::WriteFile { path, contents, parent } => {
            assert_eq!(path, "/Users/me/Library/LaunchAgents/com.user.tgbot-rust.plist");
            assert_eq!(contents, "dir=/src/bot");
            assert_eq!(parent.as_deref(), Some("/Users/me/Library/LaunchAgents"));
        },
        other => panic!("unexpected {other:?}"),
    }
    let (run, a) = run.step(ServiceEvent::Wrote(Ok(())));
    assert_eq!(texts(&a.say), vec![(false, "Starting service...".to_string())]);
    assert!(matches!(&a.next, ServiceRequest::Run { program, args: x, .. }
        if program == "launchctl" && x == &args(&["load", "/Users/me/Library/LaunchAgents/com.user.tgbot-rust.plist"])));
    let (run, a) = run.step(ServiceEvent::Ran(Ok(true)));
    assert_eq!(texts(&a.say).len(), 7);
    assert_eq!(a.say[2].text, "  Logs:   /src/bot/tgbot.log");
    assert!(matches!(a.next, ServiceRequest::Exit { success: true }));
    assert!(run.is_over());
}

#[test]
fn install_failures() {
    let (run, _) = ServiceRun::begin(&args(&["install"]), env());
    let (_, a) = run.step(ServiceEvent::Exists(false));
    assert_eq!(texts(&a.say), vec![(true, "Error: /src/bot/com.user.tgbot-rust.plist not found".to_string())]);
    assert!(matches!(a.next, ServiceRequest::Exit { success: false }));
    let (run, _) = ServiceRun::begin(&args(&["install"]), env());
    let (run, _) = run.step(ServiceEvent::Exists(true));
    let (_, a) = run.step(ServiceEvent::Ran(Ok(false)));
    assert_eq!(texts(&a.say), vec![(true, "Build failed".to_string())]);
    let (run, _) = ServiceRun::begin(&args(&["install"]), env());
    let (run, _) = run.step(ServiceEvent::Exists(true));
    let (_, a) = run.step(ServiceEvent::Ran(Err("NotFound".into())));
    assert!(matches!(&a.next, ServiceRequest::Panic { message } if message == "failed to run cargo: NotFound"));
    let (_, a) = ServiceRun::begin(&args(&["install"]), ServiceEnv { repo: Err("gone".into()), home: None });
    assert!(matches!(&a.next, ServiceRequest::Panic { message } if message == "cannot determine repo dir: gone"));
}

#[test]
fn update_stops_rebuilds_and_starts() {
    let (run, a) = ServiceRun::begin(&args(&["update"]), env());
    assert_eq!(texts(&a.say), vec![(false, "Updating yt-dlp and ffmpeg...".to_string())]);
    assert!(matches!(&a.next, ServiceRequest::Run { program, args: x, quiet: false }
        if program == "brew" && x == &args(&["upgrade", "yt-dlp", "ffmpeg"])));
    let (run, a) = run.step(ServiceEvent::Ran(Ok(true)));
    assert!(a.say.is_empty());
    assert!(matches!(&a.next, ServiceRequest::Exists { path }
        if path == "/Users/me/Library/LaunchAgents/com.user.tgbot-rust.plist"));
    let (run, a) = run.step(ServiceEvent::Exists(true));
    assert!(matches!(&a.next, ServiceRequest::Run { args: x, quiet: true, .. } if x == &args(&["list", "com.user.tgbot-rust"])));
    let (run, a) = run.step(ServiceEvent::Ran(Ok(true)));
    assert_eq!(texts(&a.say), vec![(false, "Stopping service...".to_string())]);
    assert!(matches!(&a.next, ServiceRequest::Run { program, args: x, .. }
        if program == "launchctl" && x == &args(&["unload", "/Users/me/Library/LaunchAgents/com.user.tgbot-rust.plist"])));
    let (run, a) = run.step(ServiceEvent::Ran(Ok(false)));
    assert_eq!(texts(&a.say), vec![(false, "Building release binary...".to_string())]);
    let (run, a) = run.step(ServiceEvent::Ran(Ok(true)));
    assert_eq!(texts(&a.say), vec![(false, "Starting service...".to_string())]);
    let (run, a) = run.step(ServiceEvent::Ran(Ok(true)));
    assert_eq!(texts(&a.say), vec![(false, "".to_string()), (false, "Updated and restarted.".to_string())]);
    assert!(matches!(a.next, ServiceRequest::Exit { success: true }));
    assert!(run.is_over());
}

#[test]
fn update_load_failure_fails() {
    let (run, _) = ServiceRun::begin(&args(&["update"]), env());
    let (run, _) = run.step(ServiceEvent::Ran(Ok(true)));
    let (run, _) = run.step(ServiceEvent::Exists(true));
    let (run, a) = run.step(ServiceEvent::Ran(Ok(false)));
    assert_eq!(texts(&a.say), vec![(false, "Building release binary...".to_string())]);
    let (run, _) = run.step(ServiceEvent::Ran(Ok(true)));
    let (run, a) = run.step(ServiceEvent::Ran(Ok(false)));
    assert_eq!(texts(&a.say), vec![(true, "launchctl load failed".to_string())]);
    assert!(matches!(a.next, ServiceRequest::Exit { success: false }));
    assert!(run.is_over());
    let (_, a) = ServiceRun::begin(&args(&["update"]), ServiceEnv { repo: Ok("/r".into()), home: None });
    assert!(matches!(&a.next, ServiceRequest::Panic { message } if message == "cannot determine home dir"));
}

#[test]
fn update_without_installation_updates_tools_and_rebuilds() {
    let (run, _) = ServiceRun::begin(&args(&["update"]), env());
    let (run, a) = run.step(ServiceEvent::Ran(Ok(false)));
    assert_eq!(texts(&a.say), vec![(true, "Updating yt-dlp and ffmpeg failed; continuing.".to_string())]);
    assert!(matches!(a.next, ServiceRequest::Exists { .. }));
    let (run, a) = run.step(ServiceEvent::Exists(false));
    assert_eq!(texts(&a.say), vec![(false, "Building release binary...".to_string())]);
    assert!(matches!(&a.next, ServiceRequest::Run { program, args: x, .. }
        if program == "cargo" && x == &args(&["build", "--release", "--manifest-path", "/src/bot/Cargo.toml"])));
    let (run, a) = run.step(ServiceEvent::Ran(Ok(true)));
    assert_eq!(texts(&a.say), vec![
        (false, "".to_string()),
        (false, "Updated and rebuilt. The service is not installed, so nothing was restarted.".to_string()),
    ]);
    assert!(matches!(a.next, ServiceRequest::Exit { success: true }));
    assert!(run.is_over());

    let (run, _) = ServiceRun::begin(&args(&["update"]), env());
    let (run, a) = run.step(ServiceEvent::Ran(Err("NotFound".into())));
    assert_eq!(texts(&a.say), vec![(true, "Updating yt-dlp and ffmpeg failed; continuing.".to_string())]);
    let (run, _) = run.step(ServiceEvent::Exists(false));
    let (_, a) = run.step(ServiceEvent::Ran(Ok(false)));
    assert_eq!(texts(&a.say), vec![(true, "Build failed".to_string())]);
    assert!(matches!(a.next, ServiceRequest::Exit { success: false }));

    let no_repo = ServiceEnv { repo: Err("gone".into()), home: Some("/Users/me".into()) };
    let (run, _) = ServiceRun::begin(&args(&["update"]), no_repo);
    let (run, _) = run.step(ServiceEvent::Ran(Ok(true)));
    let (_, a) = run.step(ServiceEvent::Exists(false));
    assert!(matches!(&a.next, ServiceRequest::Panic { message } if message == "cannot determine repo dir: gone"));
}

#[test]
fn uninstall_twice_is_harmless() {
    let (run, a) = ServiceRun::begin(&args(&["uninstall"]), env());
    assert!(matches!(&a.next, ServiceRequest::Run { args: x, quiet: true, .. } if x == &args(&["list", "com.user.tgbot-rust"])));
    let (run, a) = run.step(ServiceEvent::Ran(Ok(true)));
    assert_eq!(texts(&a.say), vec![(false, "Stopping service...".to_string())]);
    assert!(matches!(&a.next, ServiceRequest::Run { program, args: x, .. }
        if program == "launchctl" && x == &args(&["unload", "/Users/me/Library/LaunchAgents/com.user.tgbot-rust.plist"])));
    let (run, _) = run.step(ServiceEvent::Ran(Ok(true)));
    let (run, a) = run.step(ServiceEvent::Exists(true));
    assert!(matches!(&a.next, ServiceRequest::RemoveFile { path }
        if path == "/Users/me/Library/LaunchAgents/com.user.tgbot-rust.plist"));
    let (_, a) = run.step(ServiceEvent::Wrote(Ok(())));
    assert!(matches!(a.next, ServiceRequest::Exit { success: true }));

    // The second time the service is not loaded and the plist is gone.
    let (run, _) = ServiceRun::begin(&args(&["uninstall"]), env());
    let (run, a) = run.step(ServiceEvent::Ran(Ok(false)));
    assert!(a.say.is_empty());
    assert!(matches!(a.next, ServiceRequest::Exists { .. }));
    let (run, a) = run.step(ServiceEvent::Exists(false));
    assert_eq!(texts(&a.say), vec![(false, "Service uninstalled.".to_string())]);
    assert!(matches!(a.next, ServiceRequest::Exit { success: true }));
    assert!(run.is_over());
}

#[test]
fn uninstall_and_status() {
    let (run, _) = ServiceRun::begin(&args(&["uninstall"]), env());
    let (run, a) = run.step(ServiceEvent::Ran(Err("spawn".into())));
    assert!(matches!(a.next, ServiceRequest::Exists { .. }));
    let (run, a) = run.step(ServiceEvent::Exists(true));
    assert!(matches!(a.next, ServiceRequest::RemoveFile { .. }));
    let (_, a) = run.step(ServiceEvent::Wrote(Ok(())));
    assert_eq!(texts(&a.say), vec![
        (false, "Removed /Users/me/Library/LaunchAgents/com.user.tgbot-rust.plist".to_string()),
        (false, "Service uninstalled.".to_string()),
    ]);
    let (run, _) = ServiceRun::begin(&args(&["status"]), env());
    let (run, a) = run.step(ServiceEvent::Ran(Ok(true)));
    assert_eq!(texts(&a.say), vec![(false, "Service is loaded.".to_string())]);
    assert!(matches!(a.next, ServiceRequest::Run { quiet: false, .. }));
    let (_, a) = run.step(ServiceEvent::Ran(Ok(true)));
    assert!(matches!(a.next, ServiceRequest::Exit { success: true }));
    let (run, _) = ServiceRun::begin(&args(&["status"]), env());
    let (_, a) = run.step(ServiceEvent::Ran(Ok(false)));
    assert_eq!(texts(&a.say), vec![(false, "Service is not loaded.".to_string())]);
}
