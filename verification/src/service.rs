use vstd::prelude::*;
use crate::text::{join_path, spec_join_path, replace_all, spec_replace_all, same_text};
use crate::config::views;
use crate::session::opt_string_view;

verus! {

/// The launchd label of the bot's service.
pub open spec fn plist_name() -> Seq<char> {
    "com.user.tgbot-rust"@
}

/// The plist template's file name in the repository.
pub open spec fn plist_template_name() -> Seq<char> {
    "com.user.tgbot-rust.plist"@
}

/// The placeholder in the template that stands for the repository's path.
pub open spec fn repo_placeholder() -> Seq<char> {
    "/PATH/TO/tgbot/rust"@
}

/// Where the service's plist is installed: `Library/LaunchAgents` in the home
/// directory.
pub open spec fn spec_plist_path(home: Seq<char>) -> Seq<char> {
    spec_join_path(spec_join_path(home, "Library/LaunchAgents"@), plist_template_name())
}

/// Computes `spec_plist_path`.
pub fn plist_path(home: &str) -> (r: String)
    ensures
        r@ == spec_plist_path(home@),
{
    let agents = join_path(home, "Library/LaunchAgents");
    join_path(agents.as_str(), "com.user.tgbot-rust.plist")
}

/// Where the plist template lies: in the repository's root.
pub open spec fn spec_template_path(repo: Seq<char>) -> Seq<char> {
    spec_join_path(repo, plist_template_name())
}

/// The installed plist: the template with the repository's path in place of
/// every placeholder.
pub open spec fn spec_plist_contents(template: Seq<char>, repo: Seq<char>) -> Seq<char> {
    spec_replace_all(template, repo_placeholder(), repo)
}

/// Computes `spec_plist_contents`.
pub fn plist_contents(template: &str, repo: &str) -> (r: String)
    ensures
        r@ == spec_plist_contents(template@, repo@),
{
    proof {
        reveal_strlit("/PATH/TO/tgbot/rust");
    }
    replace_all(template, "/PATH/TO/tgbot/rust", repo)
}

/// A subcommand of `tgbot service`.
#[derive(Clone, Copy, Debug, PartialEq, Eq, Structural)]
pub enum ServiceCommand {
    Install,
    Update,
    Uninstall,
    Status,
}

/// The subcommand that the first argument names, if any.
pub open spec fn spec_service_command(args: Seq<Seq<char>>) -> Option<ServiceCommand> {
    if args.len() == 0 {
        None
    } else if args[0] == "install"@ {
        Some(ServiceCommand::Install)
    } else if args[0] == "update"@ {
        Some(ServiceCommand::Update)
    } else if args[0] == "uninstall"@ {
        Some(ServiceCommand::Uninstall)
    } else if args[0] == "status"@ {
        Some(ServiceCommand::Status)
    } else {
        None
    }
}

/// Reads the subcommand (see `spec_service_command`).
pub fn service_command(args: &Vec<String>) -> (r: Option<ServiceCommand>)
    ensures
        r == spec_service_command(views(args@)),
{
    if args.len() == 0 {
        return None;
    }
    let a = args[0].as_str();
    assert(views(args@)[0] == a@);
    if same_text(a, "install") {
        Some(ServiceCommand::Install)
    } else if same_text(a, "update") {
        Some(ServiceCommand::Update)
    } else if same_text(a, "uninstall") {
        Some(ServiceCommand::Uninstall)
    } else if same_text(a, "status") {
        Some(ServiceCommand::Status)
    } else {
        None
    }
}

/// The usage text printed for a missing or unknown subcommand.
pub open spec fn usage_lines() -> Seq<Seq<char>> {
    seq![
        "Usage: tgbot service {install|update|uninstall|status}"@,
        ""@,
        "  install    Build and register the launchd service"@,
        "  update     Rebuild and restart the running service"@,
        "  uninstall  Stop the service and remove the plist"@,
        "  status     Show whether the service is loaded/running"@,
    ]
}

/// The lines printed once the service was installed and started.
pub open spec fn installed_lines(repo: Seq<char>) -> Seq<Seq<char>> {
    seq![
        ""@,
        "Done. Bot is running as a background service."@,
        "  Logs:   "@ + repo + "/tgbot.log"@,
        "  Errors: "@ + repo + "/tgbot-error.log"@,
        ""@,
        "  Update:    tgbot service update"@,
        "  Uninstall: tgbot service uninstall"@,
    ]
}

/// The lines printed once the service was rebuilt and restarted.
pub open spec fn updated_lines() -> Seq<Seq<char>> {
    seq![""@, "Updated and restarted."@]
}

/// The lines printed once the tools were updated and the binary rebuilt, where
/// the service is not installed.
pub open spec fn rebuilt_lines() -> Seq<Seq<char>> {
    seq![""@, "Updated and rebuilt. The service is not installed, so nothing was restarted."@]
}

} // verus!

verus! {

/// A line to print, on standard error or standard output.
#[derive(Debug)]
pub struct Line {
    pub to_stderr: bool,
    pub text: String,
}

/// What a service command asks the outside world to do, after printing its lines.
#[derive(Debug)]
pub enum ServiceRequest {
    /// Run `program` with `args`, its output discarded where `quiet`; report
    /// whether it succeeded, or why it could not be run.
    Run { program: String, args: Vec<String>, quiet: bool },
    /// Report whether `path` exists.
    Exists { path: String },
    /// Read the file at `path`.
    ReadFile { path: String },
    /// Create the directory `parent` (where given, ignoring failure), then
    /// write `contents` to `path`.
    WriteFile { path: String, contents: String, parent: Option<String> },
    /// Remove the file at `path`.
    RemoveFile { path: String },
    /// Stop the program with this panic message.
    Panic { message: String },
    /// End the program, successfully or not.
    Exit { success: bool },
}

/// Lines to print, then a request.
#[derive(Debug)]
pub struct ServiceAction {
    pub say: Vec<Line>,
    pub next: ServiceRequest,
}

/// What the outside world reports back.
#[derive(Debug)]
pub enum ServiceEvent {
    /// A program ran (whether it succeeded), or could not be run (why).
    Ran(Result<bool, String>),
    /// Whether a path exists.
    Exists(bool),
    /// A file's contents, or why it could not be read.
    Read(Result<String, String>),
    /// A write or removal went through, or why it did not.
    Wrote(Result<(), String>),
}

/// Where the repository and the home directory are (each, or why it is not known).
#[derive(Debug)]
pub struct ServiceEnv {
    pub repo: Result<String, String>,
    pub home: Option<String>,
}

/// What follows a successful build.
pub enum AfterBuild {
    /// Install the plist made from this template.
    Install { template: String },
    /// Start the service again.
    Update,
    /// Nothing more: the service is not installed, so there is nothing to restart.
    Rebuild,
}

/// What follows a successful start.
pub enum AfterStart {
    /// Print the installation summary for this repository.
    Installed { repo: String },
    /// Print that the service was updated.
    Updated,
}

/// What follows the check whether the service is loaded.
pub enum AfterQuery {
    /// Rebuild and start the service.
    Update,
    /// Remove the plist.
    Uninstall,
    /// Tell whether it is loaded.
    Status,
}

/// Where a service command stands; each stage waits for one kind of event.
pub enum ServiceStage {
    CheckingTemplate { repo: String, template: String },
    UpdatingTools { dst: String },
    CheckingInstalled { dst: String },
    QueryingLoaded { purpose: AfterQuery },
    Unloading { purpose: AfterQuery },
    CheckingPlist { dst: String },
    Building { repo: String, goal: AfterBuild },
    ReadingTemplate { repo: String },
    WritingPlist { repo: String, dst: String },
    Starting { report: AfterStart },
    RemovingPlist { dst: String },
    Listing,
    Over,
}

// Views ----------------------------------------------------------------------

pub struct LineView {
    pub to_stderr: bool,
    pub text: Seq<char>,
}

pub enum ServiceRequestView {
    Run { program: Seq<char>, args: Seq<Seq<char>>, quiet: bool },
    Exists { path: Seq<char> },
    ReadFile { path: Seq<char> },
    WriteFile { path: Seq<char>, contents: Seq<char>, parent: Option<Seq<char>> },
    RemoveFile { path: Seq<char> },
    Panic { message: Seq<char> },
    Exit { success: bool },
}

pub struct ServiceActionView {
    pub say: Seq<LineView>,
    pub next: ServiceRequestView,
}

pub enum AfterBuildView {
    Install { template: Seq<char> },
    Update,
    Rebuild,
}

pub enum AfterStartView {
    Installed { repo: Seq<char> },
    Updated,
}

pub enum ServiceStageView {
    CheckingTemplate { repo: Seq<char>, template: Seq<char> },
    UpdatingTools { dst: Seq<char> },
    CheckingInstalled { dst: Seq<char> },
    QueryingLoaded { purpose: AfterQuery },
    Unloading { purpose: AfterQuery },
    CheckingPlist { dst: Seq<char> },
    Building { repo: Seq<char>, goal: AfterBuildView },
    ReadingTemplate { repo: Seq<char> },
    WritingPlist { repo: Seq<char>, dst: Seq<char> },
    Starting { report: AfterStartView },
    RemovingPlist { dst: Seq<char> },
    Listing,
    Over,
}

pub struct ServiceEnvView {
    pub repo: Result<Seq<char>, Seq<char>>,
    pub home: Option<Seq<char>>,
}

impl View for Line {
    type V = LineView;

    open spec fn view(&self) -> LineView {
        LineView { to_stderr: self.to_stderr, text: self.text@ }
    }
}

/// The views of a list of lines.
pub open spec fn line_views(v: Seq<Line>) -> Seq<LineView> {
    v.map_values(|l: Line| l@)
}

impl View for ServiceRequest {
    type V = ServiceRequestView;

    open spec fn view(&self) -> ServiceRequestView {
        match self {
            ServiceRequest::Run { program, args, quiet } => ServiceRequestView::Run {
                program: program@,
                args: views(args@),
                quiet: *quiet,
            },
            ServiceRequest::Exists { path } => ServiceRequestView::Exists { path: path@ },
            ServiceRequest::ReadFile { path } => ServiceRequestView::ReadFile { path: path@ },
            ServiceRequest::WriteFile { path, contents, parent } => ServiceRequestView::WriteFile {
                path: path@,
                contents: contents@,
                parent: opt_string_view(*parent),
            },
            ServiceRequest::RemoveFile { path } => ServiceRequestView::RemoveFile { path: path@ },
            ServiceRequest::Panic { message } => ServiceRequestView::Panic { message: message@ },
            ServiceRequest::Exit { success } => ServiceRequestView::Exit { success: *success },
        }
    }
}

impl View for ServiceAction {
    type V = ServiceActionView;

    open spec fn view(&self) -> ServiceActionView {
        ServiceActionView { say: line_views(self.say@), next: self.next@ }
    }
}

impl View for AfterBuild {
    type V = AfterBuildView;

    open spec fn view(&self) -> AfterBuildView {
        match self {
            AfterBuild::Install { template } => AfterBuildView::Install { template: template@ },
            AfterBuild::Update => AfterBuildView::Update,
            AfterBuild::Rebuild => AfterBuildView::Rebuild,
        }
    }
}

impl View for AfterStart {
    type V = AfterStartView;

    open spec fn view(&self) -> AfterStartView {
        match self {
            AfterStart::Installed { repo } => AfterStartView::Installed { repo: repo@ },
            AfterStart::Updated => AfterStartView::Updated,
        }
    }
}

impl View for ServiceStage {
    type V = ServiceStageView;

    open spec fn view(&self) -> ServiceStageView {
        match self {
            ServiceStage::CheckingTemplate { repo, template } => ServiceStageView::CheckingTemplate {
                repo: repo@,
                template: template@,
            },
            ServiceStage::UpdatingTools { dst } => ServiceStageView::UpdatingTools { dst: dst@ },
            ServiceStage::CheckingInstalled { dst } => ServiceStageView::CheckingInstalled { dst: dst@ },
            ServiceStage::QueryingLoaded { purpose } => ServiceStageView::QueryingLoaded { purpose: *purpose },
            ServiceStage::Unloading { purpose } => ServiceStageView::Unloading { purpose: *purpose },
            ServiceStage::CheckingPlist { dst } => ServiceStageView::CheckingPlist { dst: dst@ },
            ServiceStage::Building { repo, goal } => ServiceStageView::Building { repo: repo@, goal: goal@ },
            ServiceStage::ReadingTemplate { repo } => ServiceStageView::ReadingTemplate { repo: repo@ },
            ServiceStage::WritingPlist { repo, dst } => ServiceStageView::WritingPlist {
                repo: repo@,
                dst: dst@,
            },
            ServiceStage::Starting { report } => ServiceStageView::Starting { report: report@ },
            ServiceStage::RemovingPlist { dst } => ServiceStageView::RemovingPlist { dst: dst@ },
            ServiceStage::Listing => ServiceStageView::Listing,
            ServiceStage::Over => ServiceStageView::Over,
        }
    }
}

impl View for ServiceEnv {
    type V = ServiceEnvView;

    open spec fn view(&self) -> ServiceEnvView {
        ServiceEnvView {
            repo: match self.repo {
                Ok(r) => Ok(r@),
                Err(e) => Err(e@),
            },
            home: opt_string_view(self.home),
        }
    }
}

} // verus!

verus! {

// Spec of the service commands ----------------------------------------------------

pub type ServiceMove = (ServiceStageView, ServiceActionView);

pub open spec fn out_line(text: Seq<char>) -> LineView {
    LineView { to_stderr: false, text }
}

pub open spec fn err_line(text: Seq<char>) -> LineView {
    LineView { to_stderr: true, text }
}

pub open spec fn act(say: Seq<LineView>, next: ServiceRequestView) -> ServiceActionView {
    ServiceActionView { say, next }
}

/// Print `say` and end the program.
pub open spec fn service_finish(say: Seq<LineView>, success: bool) -> ServiceMove {
    (ServiceStageView::Over, act(say, ServiceRequestView::Exit { success }))
}

/// Stop the program with a panic.
pub open spec fn service_panic(message: Seq<char>) -> ServiceMove {
    (ServiceStageView::Over, act(Seq::empty(), ServiceRequestView::Panic { message }))
}

/// Run launchctl with `args`.
pub open spec fn launchctl(args: Seq<Seq<char>>, quiet: bool) -> ServiceRequestView {
    ServiceRequestView::Run { program: "launchctl"@, args, quiet }
}

/// Ask launchctl about the service; it succeeds exactly when the service is loaded.
pub open spec fn list_service(quiet: bool) -> ServiceRequestView {
    launchctl(seq!["list"@, plist_name()], quiet)
}

/// Build the release binary of the repository.
pub open spec fn cargo_build(repo: Seq<char>) -> ServiceRequestView {
    ServiceRequestView::Run {
        program: "cargo"@,
        args: seq!["build"@, "--release"@, "--manifest-path"@, spec_join_path(repo, "Cargo.toml"@)],
        quiet: false,
    }
}

/// Upgrade the external tools (yt-dlp and ffmpeg) with Homebrew, which they
/// were installed with.
pub open spec fn tools_update() -> ServiceRequestView {
    ServiceRequestView::Run { program: "brew"@, args: seq!["upgrade"@, "yt-dlp"@, "ffmpeg"@], quiet: false }
}

/// What is printed after the tool update: nothing where it succeeded, else a
/// warning; the update goes on either way.
pub open spec fn tools_report(r: Result<bool, String>) -> Seq<LineView> {
    if r == Ok::<bool, String>(true) {
        Seq::empty()
    } else {
        seq![err_line("Updating yt-dlp and ffmpeg failed; continuing."@)]
    }
}

pub open spec fn home_panic() -> ServiceMove {
    service_panic("cannot determine home dir"@)
}

/// Announce and start the build.
pub open spec fn build_move(repo: Seq<char>, after: AfterBuildView) -> ServiceMove {
    (
        ServiceStageView::Building { repo, goal: after },
        act(seq![out_line("Building release binary..."@)], cargo_build(repo)),
    )
}

/// Announce and load the service.
pub open spec fn start_move(env: ServiceEnvView, after: AfterStartView) -> ServiceMove {
    match env.home {
        None => home_panic(),
        Some(h) => (
            ServiceStageView::Starting { report: after },
            act(seq![out_line("Starting service..."@)], launchctl(seq!["load"@, spec_plist_path(h)], false)),
        ),
    }
}

/// What follows once the service is known to be stopped.
pub open spec fn after_stop(env: ServiceEnvView, after: AfterQuery) -> ServiceMove {
    match after {
        AfterQuery::Update => match env.repo {
            Err(e) => service_panic("cannot determine repo dir: "@ + e),
            Ok(r) => build_move(r, AfterBuildView::Update),
        },
        AfterQuery::Uninstall => match env.home {
            None => home_panic(),
            Some(h) => (
                ServiceStageView::CheckingPlist { dst: spec_plist_path(h) },
                act(Seq::empty(), ServiceRequestView::Exists { path: spec_plist_path(h) }),
            ),
        },
        AfterQuery::Status => service_finish(Seq::empty(), true),
    }
}

/// The lines printed once the service started.
pub open spec fn started_lines(after: AfterStartView) -> Seq<LineView> {
    match after {
        AfterStartView::Installed { repo } => installed_lines(repo).map_values(|t: Seq<char>| out_line(t)),
        AfterStartView::Updated => updated_lines().map_values(|t: Seq<char>| out_line(t)),
    }
}

/// How `tgbot service <cmd>` begins: a missing or unknown subcommand prints
/// the usage on standard error and fails; `install` checks for the plist
/// template; `update` first updates the external tools; `uninstall` and
/// `status` ask whether the service is loaded.
pub open spec fn service_begin(cmd: Option<ServiceCommand>, env: ServiceEnvView) -> ServiceMove {
    match cmd {
        None => service_finish(usage_lines().map_values(|t: Seq<char>| err_line(t)), false),
        Some(ServiceCommand::Install) => match env.repo {
            Err(e) => service_panic("cannot determine repo dir: "@ + e),
            Ok(r) => (
                ServiceStageView::CheckingTemplate { repo: r, template: spec_template_path(r) },
                act(Seq::empty(), ServiceRequestView::Exists { path: spec_template_path(r) }),
            ),
        },
        Some(ServiceCommand::Update) => match env.home {
            None => home_panic(),
            Some(h) => (
                ServiceStageView::UpdatingTools { dst: spec_plist_path(h) },
                act(seq![out_line("Updating yt-dlp and ffmpeg..."@)], tools_update()),
            ),
        },
        Some(ServiceCommand::Uninstall) => (
            ServiceStageView::QueryingLoaded { purpose: AfterQuery::Uninstall },
            act(Seq::empty(), list_service(true)),
        ),
        Some(ServiceCommand::Status) => (
            ServiceStageView::QueryingLoaded { purpose: AfterQuery::Status },
            act(Seq::empty(), list_service(true)),
        ),
    }
}

/// Which event each stage waits for.
pub open spec fn service_accepts(stage: ServiceStageView, e: ServiceEvent) -> bool {
    match stage {
        ServiceStageView::CheckingTemplate { .. } => e is Exists,
        ServiceStageView::UpdatingTools { .. } => e is Ran,
        ServiceStageView::CheckingInstalled { .. } => e is Exists,
        ServiceStageView::QueryingLoaded { .. } => e is Ran,
        ServiceStageView::Unloading { .. } => e is Ran,
        ServiceStageView::CheckingPlist { .. } => e is Exists,
        ServiceStageView::Building { .. } => e is Ran,
        ServiceStageView::ReadingTemplate { .. } => e is Read,
        ServiceStageView::WritingPlist { .. } => e is Wrote,
        ServiceStageView::Starting { .. } => e is Ran,
        ServiceStageView::RemovingPlist { .. } => e is Wrote,
        ServiceStageView::Listing => e is Ran,
        ServiceStageView::Over => false,
    }
}

/// How a service command moves on an event. Installing builds the binary,
/// writes the plist (the template with the repository's path filled in) and
/// loads it; updating upgrades the external tools, then, where the service is
/// installed, stops it where it runs, rebuilds and loads it again, and where it
/// is not, only rebuilds; uninstalling stops the service and removes the plist
/// where there is one; a failed build or load or a missing template ends the
/// program unsuccessfully.
pub open spec fn service_step(env: ServiceEnvView, stage: ServiceStageView, e: ServiceEvent) -> ServiceMove {
    match stage {
        ServiceStageView::CheckingTemplate { repo, template } => match e {
            ServiceEvent::Exists(true) => build_move(repo, AfterBuildView::Install { template }),
            ServiceEvent::Exists(false) => service_finish(seq![err_line("Error: "@ + template + " not found"@)], false),
            _ => service_finish(Seq::empty(), false),
        },
        ServiceStageView::UpdatingTools { dst } => match e {
            ServiceEvent::Ran(r) => (
                ServiceStageView::CheckingInstalled { dst },
                act(tools_report(r), ServiceRequestView::Exists { path: dst }),
            ),
            _ => service_finish(Seq::empty(), false),
        },
        ServiceStageView::CheckingInstalled { dst } => match e {
            ServiceEvent::Exists(true) => (
                ServiceStageView::QueryingLoaded { purpose: AfterQuery::Update },
                act(Seq::empty(), list_service(true)),
            ),
            ServiceEvent::Exists(false) => match env.repo {
                Err(e) => service_panic("cannot determine repo dir: "@ + e),
                Ok(r) => build_move(r, AfterBuildView::Rebuild),
            },
            _ => service_finish(Seq::empty(), false),
        },
        ServiceStageView::QueryingLoaded { purpose: after } => match e {
            ServiceEvent::Ran(r) => {
                let loaded = r == Ok::<bool, String>(true);
                match after {
                    AfterQuery::Status => if loaded {
                        (ServiceStageView::Listing, act(seq![out_line("Service is loaded."@)], list_service(false)))
                    } else {
                        service_finish(seq![out_line("Service is not loaded."@)], true)
                    },
                    _ => if loaded {
                        match env.home {
                            None => home_panic(),
                            Some(h) => (
                                ServiceStageView::Unloading { purpose: after },
                                act(
                                    seq![out_line("Stopping service..."@)],
                                    launchctl(seq!["unload"@, spec_plist_path(h)], false),
                                ),
                            ),
                        }
                    } else {
                        after_stop(env, after)
                    },
                }
            },
            _ => service_finish(Seq::empty(), false),
        },
        ServiceStageView::Unloading { purpose: after } => match e {
            ServiceEvent::Ran(_) => after_stop(env, after),
            _ => service_finish(Seq::empty(), false),
        },
        ServiceStageView::CheckingPlist { dst } => match e {
            ServiceEvent::Exists(true) => (
                ServiceStageView::RemovingPlist { dst },
                act(Seq::empty(), ServiceRequestView::RemoveFile { path: dst }),
            ),
            ServiceEvent::Exists(false) => service_finish(seq![out_line("Service uninstalled."@)], true),
            _ => service_finish(Seq::empty(), false),
        },
        ServiceStageView::Building { repo, goal: after } => match e {
            ServiceEvent::Ran(Err(t)) => service_panic("failed to run cargo: "@ + t@),
            ServiceEvent::Ran(Ok(false)) => service_finish(seq![err_line("Build failed"@)], false),
            ServiceEvent::Ran(Ok(true)) => match after {
                AfterBuildView::Install { template } => (
                    ServiceStageView::ReadingTemplate { repo },
                    act(seq![out_line("Installing service plist..."@)], ServiceRequestView::ReadFile { path: template }),
                ),
                AfterBuildView::Update => start_move(env, AfterStartView::Updated),
                AfterBuildView::Rebuild => service_finish(rebuilt_lines().map_values(|t: Seq<char>| out_line(t)), true),
            },
            _ => service_finish(Seq::empty(), false),
        },
        ServiceStageView::ReadingTemplate { repo } => match e {
            ServiceEvent::Read(Err(t)) => service_panic("cannot read plist template: "@ + t@),
            ServiceEvent::Read(Ok(t)) => match env.home {
                None => home_panic(),
                Some(h) => (
                    ServiceStageView::WritingPlist { repo, dst: spec_plist_path(h) },
                    act(
                        Seq::empty(),
                        ServiceRequestView::WriteFile {
                            path: spec_plist_path(h),
                            contents: spec_plist_contents(t@, repo),
                            parent: crate::args::path_parent(spec_plist_path(h)),
                        },
                    ),
                ),
            },
            _ => service_finish(Seq::empty(), false),
        },
        ServiceStageView::WritingPlist { repo, dst } => match e {
            ServiceEvent::Wrote(Err(t)) => service_panic("cannot write plist: "@ + t@),
            ServiceEvent::Wrote(Ok(())) => start_move(env, AfterStartView::Installed { repo }),
            _ => service_finish(Seq::empty(), false),
        },
        ServiceStageView::Starting { report: after } => match e {
            ServiceEvent::Ran(Err(t)) => service_panic("failed to run launchctl: "@ + t@),
            ServiceEvent::Ran(Ok(false)) => service_finish(seq![err_line("launchctl load failed"@)], false),
            ServiceEvent::Ran(Ok(true)) => service_finish(started_lines(after), true),
            _ => service_finish(Seq::empty(), false),
        },
        ServiceStageView::RemovingPlist { dst } => match e {
            ServiceEvent::Wrote(Err(t)) => service_panic("cannot remove plist: "@ + t@),
            ServiceEvent::Wrote(Ok(())) => service_finish(
                seq![out_line("Removed "@ + dst), out_line("Service uninstalled."@)],
                true,
            ),
            _ => service_finish(Seq::empty(), false),
        },
        ServiceStageView::Listing => match e {
            ServiceEvent::Ran(_) => service_finish(Seq::empty(), true),
            _ => service_finish(Seq::empty(), false),
        },
        ServiceStageView::Over => service_finish(Seq::empty(), false),
    }
}

} // verus!

verus! {

// Running the service commands ------------------------------------------------

fn line(to_stderr: bool, text: String) -> (l: Line)
    ensures
        l@ == (LineView { to_stderr, text: text@ }),
{
    Line { to_stderr, text }
}

fn lit_line(to_stderr: bool, text: &str) -> (l: Line)
    ensures
        l@ == (LineView { to_stderr, text: text@ }),
{
    Line { to_stderr, text: String::from_str(text) }
}

fn one_line(l: Line) -> (v: Vec<Line>)
    ensures
        line_views(v@) == seq![l@],
{
    let mut v: Vec<Line> = Vec::new();
    v.push(l);
    assert(line_views(v@) =~= seq![l@]);
    v
}

fn no_lines() -> (v: Vec<Line>)
    ensures
        line_views(v@) == Seq::<LineView>::empty(),
{
    let v: Vec<Line> = Vec::new();
    assert(line_views(v@) =~= Seq::<LineView>::empty());
    v
}

fn push_line(v: &mut Vec<Line>, to_stderr: bool, text: &str)
    ensures
        line_views(final(v)@) == line_views(old(v)@).push(LineView { to_stderr, text: text@ }),
{
    v.push(lit_line(to_stderr, text));
    assert(line_views(final(v)@) =~= line_views(old(v)@).push(LineView { to_stderr, text: text@ }));
}

fn finish_move(say: Vec<Line>, success: bool) -> (m: (ServiceStage, ServiceAction))
    ensures
        (m.0@, m.1@) == service_finish(line_views(say@), success),
{
    (ServiceStage::Over, ServiceAction { say, next: ServiceRequest::Exit { success } })
}

fn panic_move(message: String) -> (m: (ServiceStage, ServiceAction))
    ensures
        (m.0@, m.1@) == service_panic(message@),
{
    (ServiceStage::Over, ServiceAction { say: no_lines(), next: ServiceRequest::Panic { message } })
}

fn panic_with(prefix: &str, detail: &str) -> (m: (ServiceStage, ServiceAction))
    ensures
        (m.0@, m.1@) == service_panic(prefix@ + detail@),
{
    let mut message = String::from_str(prefix);
    message.append(detail);
    panic_move(message)
}

fn home_panic_move() -> (m: (ServiceStage, ServiceAction))
    ensures
        (m.0@, m.1@) == home_panic(),
{
    panic_move(String::from_str("cannot determine home dir"))
}

fn launchctl_request(verb: &str, target: String, quiet: bool) -> (r: ServiceRequest)
    ensures
        r@ == launchctl(seq![verb@, target@], quiet),
{
    let mut args: Vec<String> = Vec::new();
    args.push(String::from_str(verb));
    args.push(target);
    assert(views(args@) =~= seq![verb@, target@]);
    ServiceRequest::Run { program: String::from_str("launchctl"), args, quiet }
}

fn list_request(quiet: bool) -> (r: ServiceRequest)
    ensures
        r@ == list_service(quiet),
{
    launchctl_request("list", String::from_str("com.user.tgbot-rust"), quiet)
}

fn build_move_exec(repo: String, after: AfterBuild) -> (m: (ServiceStage, ServiceAction))
    ensures
        (m.0@, m.1@) == build_move(repo@, after@),
{
    let mut args: Vec<String> = Vec::new();
    args.push(String::from_str("build"));
    args.push(String::from_str("--release"));
    args.push(String::from_str("--manifest-path"));
    args.push(join_path(repo.as_str(), "Cargo.toml"));
    assert(views(args@) =~= seq!["build"@, "--release"@, "--manifest-path"@, spec_join_path(repo@, "Cargo.toml"@)]);
    let req = ServiceRequest::Run { program: String::from_str("cargo"), args, quiet: false };
    let say = one_line(lit_line(false, "Building release binary..."));
    (ServiceStage::Building { repo, goal: after }, ServiceAction { say, next: req })
}

fn start_move_exec(env: &ServiceEnv, after: AfterStart) -> (m: (ServiceStage, ServiceAction))
    ensures
        (m.0@, m.1@) == start_move(env@, after@),
{
    match &env.home {
        None => home_panic_move(),
        Some(h) => {
            let req = launchctl_request("load", plist_path(h.as_str()), false);
            let say = one_line(lit_line(false, "Starting service..."));
            (ServiceStage::Starting { report: after }, ServiceAction { say, next: req })
        },
    }
}

fn after_stop_exec(env: &ServiceEnv, after: AfterQuery) -> (m: (ServiceStage, ServiceAction))
    ensures
        (m.0@, m.1@) == after_stop(env@, after),
{
    match after {
        AfterQuery::Update => match &env.repo {
            Err(e) => panic_with("cannot determine repo dir: ", e.as_str()),
            Ok(r) => build_move_exec(r.clone(), AfterBuild::Update),
        },
        AfterQuery::Uninstall => match &env.home {
            None => home_panic_move(),
            Some(h) => {
                let dst = plist_path(h.as_str());
                let path = dst.clone();
                (ServiceStage::CheckingPlist { dst }, ServiceAction { say: no_lines(), next: ServiceRequest::Exists { path } })
            },
        },
        AfterQuery::Status => finish_move(no_lines(), true),
    }
}

fn lines_of(texts: Vec<String>, to_stderr: bool) -> (v: Vec<Line>)
    ensures
        line_views(v@) == views(texts@).map_values(|t: Seq<char>| LineView { to_stderr, text: t }),
{
    let mut v: Vec<Line> = Vec::new();
    let mut i: usize = 0;
    while i < texts.len()
        invariant
            i <= texts@.len(),
            line_views(v@) == views(texts@).subrange(0, i as int).map_values(
                |t: Seq<char>| LineView { to_stderr, text: t },
            ),
        decreases texts@.len() - i,
    {
        let ghost before = line_views(v@);
        let l = line(to_stderr, texts[i].clone());
        assert(l@ == LineView { to_stderr, text: views(texts@)[i as int] });
        v.push(l);
        assert(line_views(v@) =~= before.push(l@));
        i = i + 1;
        assert(line_views(v@) =~= views(texts@).subrange(0, i as int).map_values(
            |t: Seq<char>| LineView { to_stderr, text: t },
        ));
    }
    assert(views(texts@).subrange(0, texts@.len() as int) =~= views(texts@));
    v
}

fn started_lines_exec(after: &AfterStart) -> (v: Vec<Line>)
    ensures
        line_views(v@) == started_lines(after@),
{
    let mut texts: Vec<String> = Vec::new();
    match after {
        AfterStart::Installed { repo } => {
            texts.push(String::from_str(""));
            texts.push(String::from_str("Done. Bot is running as a background service."));
            let mut logs = String::from_str("  Logs:   ");
            logs.append(repo.as_str());
            logs.append("/tgbot.log");
            texts.push(logs);
            let mut errors = String::from_str("  Errors: ");
            errors.append(repo.as_str());
            errors.append("/tgbot-error.log");
            texts.push(errors);
            texts.push(String::from_str(""));
            texts.push(String::from_str("  Update:    tgbot service update"));
            texts.push(String::from_str("  Uninstall: tgbot service uninstall"));
            assert(views(texts@) =~= installed_lines(repo@));
        },
        AfterStart::Updated => {
            texts.push(String::from_str(""));
            texts.push(String::from_str("Updated and restarted."));
            assert(views(texts@) =~= updated_lines());
        },
    }
    let v = lines_of(texts, false);
    assert(line_views(v@) =~= started_lines(after@));
    v
}

fn rebuilt_lines_exec() -> (v: Vec<Line>)
    ensures
        line_views(v@) == rebuilt_lines().map_values(|t: Seq<char>| out_line(t)),
{
    let mut v: Vec<Line> = Vec::new();
    push_line(&mut v, false, "");
    push_line(&mut v, false, "Updated and rebuilt. The service is not installed, so nothing was restarted.");
    assert(line_views(v@) =~= rebuilt_lines().map_values(|t: Seq<char>| out_line(t)));
    v
}

fn tools_request() -> (r: ServiceRequest)
    ensures
        r@ == tools_update(),
{
    let mut args: Vec<String> = Vec::new();
    args.push(String::from_str("upgrade"));
    args.push(String::from_str("yt-dlp"));
    args.push(String::from_str("ffmpeg"));
    assert(views(args@) =~= seq!["upgrade"@, "yt-dlp"@, "ffmpeg"@]);
    ServiceRequest::Run { program: String::from_str("brew"), args, quiet: false }
}

fn usage_exec() -> (v: Vec<Line>)
    ensures
        line_views(v@) == usage_lines().map_values(|t: Seq<char>| err_line(t)),
{
    let mut v: Vec<Line> = Vec::new();
    push_line(&mut v, true, "Usage: tgbot service {install|update|uninstall|status}");
    push_line(&mut v, true, "");
    push_line(&mut v, true, "  install    Build and register the launchd service");
    push_line(&mut v, true, "  update     Rebuild and restart the running service");
    push_line(&mut v, true, "  uninstall  Stop the service and remove the plist");
    push_line(&mut v, true, "  status     Show whether the service is loaded/running");
    assert(line_views(v@) =~= usage_lines().map_values(|t: Seq<char>| err_line(t)));
    v
}

} // verus!

verus! {

/// A `tgbot service ...` command in progress.
pub struct ServiceRun {
    env: ServiceEnv,
    stage: ServiceStage,
}

/// A service command as plain values.
pub struct ServiceRunView {
    pub env: ServiceEnvView,
    pub stage: ServiceStageView,
}

impl View for ServiceRun {
    type V = ServiceRunView;

    closed spec fn view(&self) -> ServiceRunView {
        ServiceRunView { env: self.env@, stage: self.stage@ }
    }
}

impl ServiceRun {
    /// Begins `tgbot service` with its arguments (see `service_begin`).
    pub fn begin(args: &Vec<String>, env: ServiceEnv) -> (r: (ServiceRun, ServiceAction))
        ensures
            r.0@.env == env@,
            (r.0@.stage, r.1@) == service_begin(spec_service_command(views(args@)), env@),
    {
        let cmd = service_command(args);
        let (stage, action) = match cmd {
            None => finish_move(usage_exec(), false),
            Some(ServiceCommand::Install) => match &env.repo {
                Err(e) => panic_with("cannot determine repo dir: ", e.as_str()),
                Ok(r) => {
                    let template = join_path(r.as_str(), "com.user.tgbot-rust.plist");
                    let path = template.clone();
                    (
                        ServiceStage::CheckingTemplate { repo: r.clone(), template },
                        ServiceAction { say: no_lines(), next: ServiceRequest::Exists { path } },
                    )
                },
            },
            Some(ServiceCommand::Update) => match &env.home {
                None => home_panic_move(),
                Some(h) => (
                    ServiceStage::UpdatingTools { dst: plist_path(h.as_str()) },
                    ServiceAction {
                        say: one_line(lit_line(false, "Updating yt-dlp and ffmpeg...")),
                        next: tools_request(),
                    },
                ),
            },
            Some(ServiceCommand::Uninstall) => (
                ServiceStage::QueryingLoaded { purpose: AfterQuery::Uninstall },
                ServiceAction { say: no_lines(), next: list_request(true) },
            ),
            Some(ServiceCommand::Status) => (
                ServiceStage::QueryingLoaded { purpose: AfterQuery::Status },
                ServiceAction { say: no_lines(), next: list_request(true) },
            ),
        };
        (ServiceRun { env, stage }, action)
    }

    /// Whether the command waits for an event of this kind.
    pub fn accepts(&self, e: &ServiceEvent) -> (r: bool)
        ensures
            r == service_accepts(self@.stage, *e),
    {
        match &self.stage {
            ServiceStage::CheckingTemplate { .. } => matches!(e, ServiceEvent::Exists(_)),
            ServiceStage::UpdatingTools { .. } => matches!(e, ServiceEvent::Ran(_)),
            ServiceStage::CheckingInstalled { .. } => matches!(e, ServiceEvent::Exists(_)),
            ServiceStage::QueryingLoaded { .. } => matches!(e, ServiceEvent::Ran(_)),
            ServiceStage::Unloading { .. } => matches!(e, ServiceEvent::Ran(_)),
            ServiceStage::CheckingPlist { .. } => matches!(e, ServiceEvent::Exists(_)),
            ServiceStage::Building { .. } => matches!(e, ServiceEvent::Ran(_)),
            ServiceStage::ReadingTemplate { .. } => matches!(e, ServiceEvent::Read(_)),
            ServiceStage::WritingPlist { .. } => matches!(e, ServiceEvent::Wrote(_)),
            ServiceStage::Starting { .. } => matches!(e, ServiceEvent::Ran(_)),
            ServiceStage::RemovingPlist { .. } => matches!(e, ServiceEvent::Wrote(_)),
            ServiceStage::Listing => matches!(e, ServiceEvent::Ran(_)),
            ServiceStage::Over => false,
        }
    }

    /// Moves the command on `e` and returns what to do next (see `service_step`).
    pub fn step(self, e: ServiceEvent) -> (r: (ServiceRun, ServiceAction))
        requires
            service_accepts(self@.stage, e),
        ensures
            r.0@.env == self@.env,
            (r.0@.stage, r.1@) == service_step(self@.env, self@.stage, e),
    {
        let ServiceRun { env, stage } = self;
        let (stage, action) = match stage {
            ServiceStage::CheckingTemplate { repo, template } => match e {
                ServiceEvent::Exists(true) => build_move_exec(repo, AfterBuild::Install { template }),
                ServiceEvent::Exists(false) => {
                    let mut text = String::from_str("Error: ");
                    text.append(template.as_str());
                    text.append(" not found");
                    finish_move(one_line(line(true, text)), false)
                },
                _ => finish_move(no_lines(), false),
            },
            ServiceStage::UpdatingTools { dst } => match e {
                ServiceEvent::Ran(r) => {
                    let updated = match r {
                        Ok(ok) => ok,
                        Err(_) => false,
                    };
                    let say = if updated {
                        no_lines()
                    } else {
                        one_line(lit_line(true, "Updating yt-dlp and ffmpeg failed; continuing."))
                    };
                    let path = dst.clone();
                    (ServiceStage::CheckingInstalled { dst }, ServiceAction { say, next: ServiceRequest::Exists { path } })
                },
                _ => finish_move(no_lines(), false),
            },
            ServiceStage::CheckingInstalled { dst } => match e {
                ServiceEvent::Exists(true) => (
                    ServiceStage::QueryingLoaded { purpose: AfterQuery::Update },
                    ServiceAction { say: no_lines(), next: list_request(true) },
                ),
                ServiceEvent::Exists(false) => match &env.repo {
                    Err(e) => panic_with("cannot determine repo dir: ", e.as_str()),
                    Ok(r) => build_move_exec(r.clone(), AfterBuild::Rebuild),
                },
                _ => finish_move(no_lines(), false),
            },
            ServiceStage::QueryingLoaded { purpose } => match e {
                ServiceEvent::Ran(r) => {
                    let loaded = match r {
                        Ok(ok) => ok,
                        Err(_) => false,
                    };
                    match purpose {
                        AfterQuery::Status => {
                            if loaded {
                                (
                                    ServiceStage::Listing,
                                    ServiceAction {
                                        say: one_line(lit_line(false, "Service is loaded.")),
                                        next: list_request(false),
                                    },
                                )
                            } else {
                                finish_move(one_line(lit_line(false, "Service is not loaded.")), true)
                            }
                        },
                        _ => {
                            if loaded {
                                match &env.home {
                                    None => home_panic_move(),
                                    Some(h) => (
                                        ServiceStage::Unloading { purpose },
                                        ServiceAction {
                                            say: one_line(lit_line(false, "Stopping service...")),
                                            next: launchctl_request("unload", plist_path(h.as_str()), false),
                                        },
                                    ),
                                }
                            } else {
                                after_stop_exec(&env, purpose)
                            }
                        },
                    }
                },
                _ => finish_move(no_lines(), false),
            },
            ServiceStage::Unloading { purpose } => match e {
                ServiceEvent::Ran(_) => after_stop_exec(&env, purpose),
                _ => finish_move(no_lines(), false),
            },
            ServiceStage::CheckingPlist { dst } => match e {
                ServiceEvent::Exists(true) => {
                    let path = dst.clone();
                    (
                        ServiceStage::RemovingPlist { dst },
                        ServiceAction { say: no_lines(), next: ServiceRequest::RemoveFile { path } },
                    )
                },
                ServiceEvent::Exists(false) => finish_move(one_line(lit_line(false, "Service uninstalled.")), true),
                _ => finish_move(no_lines(), false),
            },
            ServiceStage::Building { repo, goal } => match e {
                ServiceEvent::Ran(Err(t)) => panic_with("failed to run cargo: ", t.as_str()),
                ServiceEvent::Ran(Ok(false)) => finish_move(one_line(lit_line(true, "Build failed")), false),
                ServiceEvent::Ran(Ok(true)) => match goal {
                    AfterBuild::Install { template } => (
                        ServiceStage::ReadingTemplate { repo },
                        ServiceAction {
                            say: one_line(lit_line(false, "Installing service plist...")),
                            next: ServiceRequest::ReadFile { path: template },
                        },
                    ),
                    AfterBuild::Update => start_move_exec(&env, AfterStart::Updated),
                    AfterBuild::Rebuild => finish_move(rebuilt_lines_exec(), true),
                },
                _ => finish_move(no_lines(), false),
            },
            ServiceStage::ReadingTemplate { repo } => match e {
                ServiceEvent::Read(Err(t)) => panic_with("cannot read plist template: ", t.as_str()),
                ServiceEvent::Read(Ok(t)) => match &env.home {
                    None => home_panic_move(),
                    Some(h) => {
                        let dst = plist_path(h.as_str());
                        let contents = plist_contents(t.as_str(), repo.as_str());
                        let parent = crate::args::parent_of(dst.as_str());
                        let path = dst.clone();
                        (
                            ServiceStage::WritingPlist { repo, dst },
                            ServiceAction {
                                say: no_lines(),
                                next: ServiceRequest::WriteFile { path, contents, parent },
                            },
                        )
                    },
                },
                _ => finish_move(no_lines(), false),
            },
            ServiceStage::WritingPlist { repo, dst } => match e {
                ServiceEvent::Wrote(Err(t)) => panic_with("cannot write plist: ", t.as_str()),
                ServiceEvent::Wrote(Ok(())) => start_move_exec(&env, AfterStart::Installed { repo }),
                _ => finish_move(no_lines(), false),
            },
            ServiceStage::Starting { report } => match e {
                ServiceEvent::Ran(Err(t)) => panic_with("failed to run launchctl: ", t.as_str()),
                ServiceEvent::Ran(Ok(false)) => finish_move(one_line(lit_line(true, "launchctl load failed")), false),
                ServiceEvent::Ran(Ok(true)) => finish_move(started_lines_exec(&report), true),
                _ => finish_move(no_lines(), false),
            },
            ServiceStage::RemovingPlist { dst } => match e {
                ServiceEvent::Wrote(Err(t)) => panic_with("cannot remove plist: ", t.as_str()),
                ServiceEvent::Wrote(Ok(())) => {
                    let mut text = String::from_str("Removed ");
                    text.append(dst.as_str());
                    let mut say = one_line(line(false, text));
                    push_line(&mut say, false, "Service uninstalled.");
                    assert(line_views(say@) =~= seq![
                        out_line("Removed "@ + dst@),
                        out_line("Service uninstalled."@),
                    ]);
                    finish_move(say, true)
                },
                _ => finish_move(no_lines(), false),
            },
            ServiceStage::Listing => match e {
                ServiceEvent::Ran(_) => finish_move(no_lines(), true),
                _ => finish_move(no_lines(), false),
            },
            ServiceStage::Over => finish_move(no_lines(), false),
        };
        (ServiceRun { env, stage }, action)
    }

    /// Whether the command is over.
    pub fn is_over(&self) -> (r: bool)
        ensures
            r == (self@.stage is Over),
    {
        matches!(self.stage, ServiceStage::Over)
    }
}

} // verus!

verus! {

// Laws of the service commands --------------------------------------------------

/// How far a service command has come; every step moves it further.
pub open spec fn service_rank(stage: ServiceStageView) -> int {
    match stage {
        ServiceStageView::CheckingTemplate { .. } => 0,
        ServiceStageView::UpdatingTools { .. } => 0,
        ServiceStageView::CheckingInstalled { .. } => 1,
        ServiceStageView::QueryingLoaded { .. } => 2,
        ServiceStageView::Unloading { .. } => 3,
        ServiceStageView::CheckingPlist { .. } => 4,
        ServiceStageView::Building { .. } => 5,
        ServiceStageView::ReadingTemplate { .. } => 6,
        ServiceStageView::WritingPlist { .. } => 7,
        ServiceStageView::Starting { .. } => 8,
        ServiceStageView::RemovingPlist { .. } => 8,
        ServiceStageView::Listing => 8,
        ServiceStageView::Over => 9,
    }
}

/// Every event a service command accepts moves it strictly forward, so it is
/// over after at most nine events; it ends (exit or panic) exactly when it
/// is over.
pub proof fn law_service_progresses(env: ServiceEnvView, stage: ServiceStageView, e: ServiceEvent)
    requires
        service_accepts(stage, e),
    ensures
        service_rank(service_step(env, stage, e).0) > service_rank(stage),
        (service_step(env, stage, e).0 is Over) <==> (service_step(env, stage, e).1.next is Exit
            || service_step(env, stage, e).1.next is Panic),
{
}

/// Installing writes the template, with the repository's path in place of
/// every placeholder, to `Library/LaunchAgents` in the home directory.
pub proof fn law_install_writes_filled_template(
    env: ServiceEnvView,
    repo: Seq<char>,
    template: String,
    home: Seq<char>,
)
    requires
        env.home == Some(home),
    ensures
        ({
            let (stage, action) = service_step(
                env,
                ServiceStageView::ReadingTemplate { repo },
                ServiceEvent::Read(Ok(template)),
            );
            &&& action.next matches ServiceRequestView::WriteFile { path, contents, .. }
            &&& action.next->WriteFile_path == spec_plist_path(home)
            &&& action.next->WriteFile_contents == spec_replace_all(template@, repo_placeholder(), repo)
        }),
{
}

/// The service is only loaded after a successful build (when updating) or a
/// successful write of the plist (when installing).
pub proof fn law_start_only_after_success(env: ServiceEnvView, stage: ServiceStageView, e: ServiceEvent)
    requires
        service_accepts(stage, e),
    ensures
        service_step(env, stage, e).0 matches ServiceStageView::Starting { report } ==> {
            ||| {
                &&& stage matches ServiceStageView::Building { goal: AfterBuildView::Update, .. }
                &&& e is Ran && e->Ran_0 == Ok::<bool, String>(true)
                &&& report == AfterStartView::Updated
            }
            ||| {
                &&& stage matches ServiceStageView::WritingPlist { repo, .. }
                &&& e is Wrote && e->Wrote_0 is Ok
                &&& report == (AfterStartView::Installed { repo })
            }
        },
{
}

/// A command ends unsuccessfully only when the template is missing, the build
/// failed or loading failed (a missing installation does not fail `update`);
/// and an unknown subcommand prints the usage on standard error and fails.
pub proof fn law_service_failures(env: ServiceEnvView, stage: ServiceStageView, e: ServiceEvent)
    requires
        service_accepts(stage, e),
    ensures
        service_step(env, stage, e).1.next == (ServiceRequestView::Exit { success: false }) ==> {
            ||| (stage is CheckingTemplate && e == ServiceEvent::Exists(false))
            ||| (stage is Building && e == ServiceEvent::Ran(Ok(false)))
            ||| (stage is Starting && e == ServiceEvent::Ran(Ok(false)))
        },
        service_begin(None, env) == service_finish(usage_lines().map_values(|t: Seq<char>| err_line(t)), false),
{
}

} // verus!

verus! {

/// In `update` the tool upgrade comes first: only `update` begins with it; the
/// installation check follows only the tool upgrade; the stop, rebuild and
/// restart of an installed service follow only an installation check that found
/// the plist; and a rebuild without restart follows only one that did not.
pub proof fn law_update_order(env: ServiceEnvView, stage: ServiceStageView, e: ServiceEvent, cmd: Option<ServiceCommand>)
    requires
        service_accepts(stage, e),
    ensures
        service_begin(cmd, env).0 is UpdatingTools ==> cmd == Some(ServiceCommand::Update),
        service_begin(cmd, env).0 is UpdatingTools ==> service_begin(cmd, env).1.next == tools_update(),
        !(service_begin(cmd, env).0 is CheckingInstalled),
        !(service_begin(cmd, env).0 is Building),
        !(service_begin(cmd, env).0 matches ServiceStageView::QueryingLoaded { purpose: AfterQuery::Update }),
        !(service_step(env, stage, e).0 is UpdatingTools),
        service_step(env, stage, e).0 is CheckingInstalled ==> stage is UpdatingTools,
        service_step(env, stage, e).0 matches ServiceStageView::QueryingLoaded { purpose: AfterQuery::Update } ==>
            stage is CheckingInstalled && e == ServiceEvent::Exists(true),
        service_step(env, stage, e).0 matches ServiceStageView::Unloading { purpose: AfterQuery::Update } ==>
            stage matches ServiceStageView::QueryingLoaded { purpose: AfterQuery::Update },
        service_step(env, stage, e).0 matches ServiceStageView::Building { goal: AfterBuildView::Update, .. } ==> {
            ||| stage matches ServiceStageView::QueryingLoaded { purpose: AfterQuery::Update }
            ||| stage matches ServiceStageView::Unloading { purpose: AfterQuery::Update }
        },
        service_step(env, stage, e).0 matches ServiceStageView::Building { goal: AfterBuildView::Rebuild, .. } ==>
            stage is CheckingInstalled && e == ServiceEvent::Exists(false),
{
}

/// `update` also works where the service is not installed: it upgrades the
/// tools, rebuilds, ends successfully and loads nothing.
pub proof fn law_update_without_installation(
    env: ServiceEnvView,
    home: Seq<char>,
    repo: Seq<char>,
    tools: Result<bool, String>,
    built: ServiceEvent,
)
    requires
        env.home == Some(home),
        env.repo == Ok::<Seq<char>, Seq<char>>(repo),
        built is Ran,
    ensures
        service_begin(Some(ServiceCommand::Update), env) == (
            ServiceStageView::UpdatingTools { dst: spec_plist_path(home) },
            act(seq![out_line("Updating yt-dlp and ffmpeg..."@)], tools_update()),
        ),
        service_step(env, ServiceStageView::UpdatingTools { dst: spec_plist_path(home) }, ServiceEvent::Ran(tools))
            == (
            ServiceStageView::CheckingInstalled { dst: spec_plist_path(home) },
            act(tools_report(tools), ServiceRequestView::Exists { path: spec_plist_path(home) }),
        ),
        service_step(env, ServiceStageView::CheckingInstalled { dst: spec_plist_path(home) }, ServiceEvent::Exists(false))
            == build_move(repo, AfterBuildView::Rebuild),
        service_step(
            env,
            ServiceStageView::Building { repo, goal: AfterBuildView::Rebuild },
            ServiceEvent::Ran(Ok(true)),
        ) == service_finish(rebuilt_lines().map_values(|t: Seq<char>| out_line(t)), true),
        service_step(env, ServiceStageView::Building { repo, goal: AfterBuildView::Rebuild }, built).0 is Over,
        !(service_step(env, ServiceStageView::Building { repo, goal: AfterBuildView::Rebuild }, built).1.next
            == launchctl(seq!["load"@, spec_plist_path(home)], false)),
{
}

/// `update` of an installed service upgrades the tools, stops the service where
/// it is loaded, rebuilds, loads the plist again and reports "Updated and
/// restarted.".
pub proof fn law_update_when_installed(env: ServiceEnvView, home: Seq<char>, repo: Seq<char>, unloaded: ServiceEvent)
    requires
        env.home == Some(home),
        env.repo == Ok::<Seq<char>, Seq<char>>(repo),
        unloaded is Ran,
    ensures
        service_step(env, ServiceStageView::CheckingInstalled { dst: spec_plist_path(home) }, ServiceEvent::Exists(true))
            == (
            ServiceStageView::QueryingLoaded { purpose: AfterQuery::Update },
            act(Seq::empty(), list_service(true)),
        ),
        service_step(env, ServiceStageView::QueryingLoaded { purpose: AfterQuery::Update }, ServiceEvent::Ran(Ok(true)))
            == (
            ServiceStageView::Unloading { purpose: AfterQuery::Update },
            act(seq![out_line("Stopping service..."@)], launchctl(seq!["unload"@, spec_plist_path(home)], false)),
        ),
        service_step(env, ServiceStageView::QueryingLoaded { purpose: AfterQuery::Update }, ServiceEvent::Ran(Ok(false)))
            == build_move(repo, AfterBuildView::Update),
        service_step(env, ServiceStageView::Unloading { purpose: AfterQuery::Update }, unloaded)
            == build_move(repo, AfterBuildView::Update),
        service_step(env, ServiceStageView::Building { repo, goal: AfterBuildView::Update }, ServiceEvent::Ran(Ok(true)))
            == (
            ServiceStageView::Starting { report: AfterStartView::Updated },
            act(seq![out_line("Starting service..."@)], launchctl(seq!["load"@, spec_plist_path(home)], false)),
        ),
        service_step(
            env,
            ServiceStageView::Starting { report: AfterStartView::Updated },
            ServiceEvent::Ran(Ok(true)),
        ) == service_finish(updated_lines().map_values(|t: Seq<char>| out_line(t)), true),
{
}

/// Uninstalling can be repeated: where the service is not loaded and the plist
/// is gone (as a first uninstall leaves them), `uninstall` unloads nothing,
/// removes nothing, prints "Service uninstalled." and succeeds. A first
/// uninstall unloads the service exactly when it is loaded, and removes the
/// plist at the path that a repeated one checks.
pub proof fn law_uninstall_idempotent(env: ServiceEnvView, home: Seq<char>, listed: Result<bool, String>)
    requires
        env.home == Some(home),
        listed != Ok::<bool, String>(true),
    ensures
        service_begin(Some(ServiceCommand::Uninstall), env) == (
            ServiceStageView::QueryingLoaded { purpose: AfterQuery::Uninstall },
            act(Seq::empty(), list_service(true)),
        ),
        service_step(env, ServiceStageView::QueryingLoaded { purpose: AfterQuery::Uninstall }, ServiceEvent::Ran(listed))
            == (
            ServiceStageView::CheckingPlist { dst: spec_plist_path(home) },
            act(Seq::empty(), ServiceRequestView::Exists { path: spec_plist_path(home) }),
        ),
        service_step(env, ServiceStageView::CheckingPlist { dst: spec_plist_path(home) }, ServiceEvent::Exists(false))
            == service_finish(seq![out_line("Service uninstalled."@)], true),
        service_step(env, ServiceStageView::QueryingLoaded { purpose: AfterQuery::Uninstall }, ServiceEvent::Ran(Ok(true)))
            == (
            ServiceStageView::Unloading { purpose: AfterQuery::Uninstall },
            act(seq![out_line("Stopping service..."@)], launchctl(seq!["unload"@, spec_plist_path(home)], false)),
        ),
        service_step(env, ServiceStageView::CheckingPlist { dst: spec_plist_path(home) }, ServiceEvent::Exists(true))
            == (
            ServiceStageView::RemovingPlist { dst: spec_plist_path(home) },
            act(Seq::empty(), ServiceRequestView::RemoveFile { path: spec_plist_path(home) }),
        ),
{
}

} // verus!
