use vstd::prelude::*;
use crate::types::{Cmd, Mode};
use crate::session::{Sessions, SessionState, opt_string_view};
use crate::helpers::{is_greeting, random_greeting, capitalize_first, spec_capitalize_first,
    is_supported_url, spec_is_supported_url};
use crate::text::{decimal, decimal_string, spec_trim, trim};
use crate::length::{VideoLength, spec_longer_than, longer_than, spec_minutes_rounded_up,
    minutes_rounded_up};
use crate::download::{JobError, JobErrorView, error_text};
use crate::config::views;

verus! {

/// The key under which a sender is remembered: their user id, or 0 where
/// the message tells no sender.
pub open spec fn spec_user_key(from: Option<u64>) -> u64 {
    match from {
        Some(u) => u,
        None => 0,
    }
}

/// Computes `spec_user_key`.
pub fn user_key(from: Option<u64>) -> (r: u64)
    ensures
        r == spec_user_key(from),
{
    match from {
        Some(u) => u,
        None => 0,
    }
}

// ---------------------------------------------------------------------------
// Commands
// ---------------------------------------------------------------------------

/// The mode a command sets.
pub open spec fn spec_command_mode(cmd: Cmd) -> Mode {
    match cmd {
        Cmd::Start => Mode::Video,
        Cmd::Video => Mode::Video,
        Cmd::Audio => Mode::Audio,
    }
}

/// The reply to a command; `/start` greets the user with `greeting`.
pub open spec fn spec_command_text(cmd: Cmd, greeting: Seq<char>) -> Seq<char> {
    match cmd {
        Cmd::Start => "Ђе с' "@ + greeting
            + ". Пошаљи линк да ти пошаљем видео.\n/video - видео мод\n/audio - аудио мод"@,
        Cmd::Video => "Мод је подешен на видео. Сад само пошаљи линк."@,
        Cmd::Audio => "Мод је подешен на аудио. Сад само пошаљи линк."@,
    }
}

/// The reply to a command (see `spec_command_text`).
pub fn command_text(cmd: Cmd, greeting: &str) -> (r: String)
    ensures
        r@ == spec_command_text(cmd, greeting@),
{
    match cmd {
        Cmd::Start => {
            let mut r = String::from_str("Ђе с' ");
            r.append(greeting);
            r.append(". Пошаљи линк да ти пошаљем видео.\n/video - видео мод\n/audio - аудио мод");
            r
        },
        Cmd::Video => String::from_str("Мод је подешен на видео. Сад само пошаљи линк."),
        Cmd::Audio => String::from_str("Мод је подешен на аудио. Сад само пошаљи линк."),
    }
}

/// Handles a command from `from`: sets the mode the command names and returns
/// the reply (for `/start`, with a greeting picked at random).
pub fn handle_command(sessions: &mut Sessions, from: Option<u64>, cmd: Cmd) -> (reply: String)
    ensures
        final(sessions)@ == old(sessions)@.with_mode(spec_user_key(from), spec_command_mode(cmd)),
        exists|g: Seq<char>| is_greeting(g) && reply@ == spec_command_text(cmd, g),
{
    let user = user_key(from);
    let mode = match cmd {
        Cmd::Start => Mode::Video,
        Cmd::Video => Mode::Video,
        Cmd::Audio => Mode::Audio,
    };
    sessions.set_mode(user, mode);
    match cmd {
        Cmd::Start => command_text(cmd, random_greeting()),
        _ => {
            let reply = command_text(cmd, "");
            proof {
                let g = crate::helpers::greetings()[0];
                assert(is_greeting(g));
                assert(reply@ == spec_command_text(cmd, g));
            }
            reply
        },
    }
}

// ---------------------------------------------------------------------------
// Messages
// ---------------------------------------------------------------------------

/// What to do about a message.
#[derive(Debug)]
pub enum MessagePlan {
    /// Nothing (a message without a link, in a group).
    Ignore,
    /// Answer with this text (a message without a link, in a private chat).
    Reply { text: String },
    /// Ask yt-dlp how long the video at `url` is, then decide.
    ProbeLength { url: String },
    /// Download `url` in this mode.
    Download { mode: Mode, url: String },
}

/// A `MessagePlan` with its texts as character sequences.
pub enum MessagePlanView {
    Ignore,
    Reply { text: Seq<char> },
    ProbeLength { url: Seq<char> },
    Download { mode: Mode, url: Seq<char> },
}

impl View for MessagePlan {
    type V = MessagePlanView;

    open spec fn view(&self) -> MessagePlanView {
        match self {
            MessagePlan::Ignore => MessagePlanView::Ignore,
            MessagePlan::Reply { text } => MessagePlanView::Reply { text: text@ },
            MessagePlan::ProbeLength { url } => MessagePlanView::ProbeLength { url: url@ },
            MessagePlan::Download { mode, url } => MessagePlanView::Download { mode: *mode, url: url@ },
        }
    }
}

/// The answer to a message without a link: the greeting, capitalized, and
/// how to use the bot.
pub open spec fn spec_ask_for_link_text(greeting: Seq<char>) -> Seq<char> {
    spec_capitalize_first(greeting) + ", баци линк.\n/video за видео\n/audio за само звук"@
}

/// A message's text as the bot reads it: trimmed, and empty where the
/// message holds no text.
pub open spec fn spec_message_text(text: Option<Seq<char>>) -> Seq<char> {
    match text {
        Some(t) => spec_trim(t),
        None => spec_trim(Seq::empty()),
    }
}

/// What to do about a message whose text is `text`: without a supported
/// link, answer in private chats and stay silent in groups; with one,
/// download it in the sender's mode, asking for the video's length first
/// in video mode.
pub open spec fn spec_message_plan(
    s: SessionState,
    text: Option<Seq<char>>,
    is_private: bool,
    from: Option<u64>,
    greeting: Seq<char>,
) -> MessagePlanView {
    let t = spec_message_text(text);
    if !spec_is_supported_url(t) {
        if is_private {
            MessagePlanView::Reply { text: spec_ask_for_link_text(greeting) }
        } else {
            MessagePlanView::Ignore
        }
    } else {
        match s.mode_of(spec_user_key(from)) {
            Mode::Video => MessagePlanView::ProbeLength { url: t },
            Mode::Audio => MessagePlanView::Download { mode: Mode::Audio, url: t },
        }
    }
}

/// Decides what to do about a message (see `spec_message_plan`), greeting
/// with `greeting` where an answer is due.
pub fn plan_message(
    sessions: &Sessions,
    text: Option<&str>,
    is_private: bool,
    from: Option<u64>,
    greeting: &str,
) -> (r: MessagePlan)
    ensures
        r@ == spec_message_plan(sessions@, crate::config::opt_view(text), is_private, from, greeting@),
{
    let t = match text {
        Some(x) => trim(x),
        None => {
            assert(spec_trim(Seq::<char>::empty()) =~= Seq::<char>::empty());
            String::new()
        },
    };
    if !is_supported_url(t.as_str()) {
        if is_private {
            let mut reply = capitalize_first(greeting);
            reply.append(", баци линк.\n/video за видео\n/audio за само звук");
            return MessagePlan::Reply { text: reply };
        }
        return MessagePlan::Ignore;
    }
    let mode = sessions.mode_of(user_key(from));
    match mode {
        Mode::Video => MessagePlan::ProbeLength { url: t },
        Mode::Audio => MessagePlan::Download { mode: Mode::Audio, url: t },
    }
}

/// Decides what to do about a message (see `spec_message_plan`), greeting
/// with one of the bot's greetings picked at random.
pub fn handle_message(sessions: &Sessions, text: Option<&str>, is_private: bool, from: Option<u64>) -> (r: MessagePlan)
    ensures
        exists|g: Seq<char>| is_greeting(g)
            && r@ == spec_message_plan(sessions@, crate::config::opt_view(text), is_private, from, g),
{
    let greeting = random_greeting();
    plan_message(sessions, text, is_private, from, greeting)
}

/// What to do once the length of a video is known.
#[derive(Debug)]
pub enum LengthDecision {
    /// Ask the user to choose between audio and video, with this text and
    /// these buttons (label, data).
    AskAudioOrVideo { text: String, buttons: Vec<(String, String)> },
    /// Download the link as a video.
    DownloadVideo { url: String },
}

/// A `LengthDecision` with its texts as character sequences.
pub enum LengthDecisionView {
    AskAudioOrVideo { text: Seq<char>, buttons: Seq<(Seq<char>, Seq<char>)> },
    DownloadVideo { url: Seq<char> },
}

/// The views of a list of buttons.
pub open spec fn button_views(b: Seq<(String, String)>) -> Seq<(Seq<char>, Seq<char>)> {
    b.map_values(|p: (String, String)| (p.0@, p.1@))
}

impl View for LengthDecision {
    type V = LengthDecisionView;

    open spec fn view(&self) -> LengthDecisionView {
        match self {
            LengthDecision::AskAudioOrVideo { text, buttons } => LengthDecisionView::AskAudioOrVideo {
                text: text@,
                buttons: button_views(buttons@),
            },
            LengthDecision::DownloadVideo { url } => LengthDecisionView::DownloadVideo { url: url@ },
        }
    }
}

/// The data of the button that asks for the audio.
pub open spec fn audio_button_data() -> Seq<char> {
    "long_audio"@
}

/// The data of the button that asks to go on with the video.
pub open spec fn continue_button_data() -> Seq<char> {
    "long_continue"@
}

/// The question asked about a long video.
pub open spec fn spec_long_video_text(minutes: nat) -> Seq<char> {
    "Видео траје ~"@ + decimal(minutes)
        + " мин. Фајл може бити превелик.\nИзабери: аудио или настави са видеом?"@
}

/// The two answers offered for a long video: audio, or go on with the video.
pub open spec fn spec_long_video_buttons() -> Seq<(Seq<char>, Seq<char>)> {
    seq![("🎵 Аудио"@, audio_button_data()), ("▶️ Настави"@, continue_button_data())]
}

/// After a length probe: a video longer than `long_video_secs` is remembered
/// for its sender and the user is asked what to do; any other video (or one
/// whose length is unknown) is downloaded.
pub open spec fn spec_after_length(
    s: SessionState,
    from: Option<u64>,
    url: Seq<char>,
    length: Option<VideoLength>,
    long_video_secs: u64,
) -> (SessionState, LengthDecisionView) {
    match length {
        Some(len) => if spec_longer_than(len, long_video_secs) {
            (
                s.with_pending(spec_user_key(from), url),
                LengthDecisionView::AskAudioOrVideo {
                    text: spec_long_video_text(spec_minutes_rounded_up(len)),
                    buttons: spec_long_video_buttons(),
                },
            )
        } else {
            (s, LengthDecisionView::DownloadVideo { url })
        },
        None => (s, LengthDecisionView::DownloadVideo { url }),
    }
}

/// Decides what to do once the length of the video at `url` is known (see
/// `spec_after_length`).
pub fn after_length_probe(
    sessions: &mut Sessions,
    from: Option<u64>,
    url: String,
    length: Option<VideoLength>,
    long_video_secs: u64,
) -> (r: LengthDecision)
    ensures
        (final(sessions)@, r@) == spec_after_length(old(sessions)@, from, url@, length, long_video_secs),
{
    match length {
        Some(len) => {
            if longer_than(len, long_video_secs) {
                let mins = minutes_rounded_up(len);
                sessions.remember_pending(user_key(from), url);
                let mut text = String::from_str("Видео траје ~");
                let digits = decimal_string(mins);
                text.append(digits.as_str());
                text.append(" мин. Фајл може бити превелик.\nИзабери: аудио или настави са видеом?");
                let mut buttons: Vec<(String, String)> = Vec::new();
                buttons.push((String::from_str("🎵 Аудио"), String::from_str("long_audio")));
                buttons.push((String::from_str("▶️ Настави"), String::from_str("long_continue")));
                assert(button_views(buttons@) =~= spec_long_video_buttons());
                LengthDecision::AskAudioOrVideo { text, buttons }
            } else {
                LengthDecision::DownloadVideo { url }
            }
        },
        None => LengthDecision::DownloadVideo { url },
    }
}

/// The text reporting a failed download.
pub open spec fn spec_failure_text(e: JobErrorView) -> Seq<char> {
    "Error: "@ + error_text(e)
}

/// The text reporting a failed download (see `spec_failure_text`).
pub fn failure_text(e: &JobError) -> (r: String)
    ensures
        r@ == spec_failure_text(e@),
{
    let mut r = String::from_str("Error: ");
    let m = e.message();
    r.append(m.as_str());
    r
}

/// The answer to a failed download (from a link or a button press): the error
/// in private chats; nothing in groups, where the bot stays silent on errors.
pub fn failure_reply(is_private: bool, e: &JobError) -> (r: Option<String>)
    ensures
        opt_string_view(r) == (if is_private { Some(spec_failure_text(e@)) } else { None }),
{
    if is_private {
        Some(failure_text(e))
    } else {
        None
    }
}

} // verus!

verus! {

// ---------------------------------------------------------------------------
// Button presses
// ---------------------------------------------------------------------------

/// What to do about a press of one of the long-video buttons.
#[derive(Debug)]
pub enum CallbackPlan {
    /// Nothing: the press carries no data, or data the bot did not offer.
    Ignore,
    /// The link is gone; answer the press with this text.
    Expired { answer: String },
    /// Answer the press; there is no chat message to continue in.
    AcknowledgeOnly,
    /// Answer the press, remove the buttons, post `status` and download
    /// `url` in `mode`.
    Proceed { mode: Mode, url: String, status: String },
}

/// A `CallbackPlan` with its texts as character sequences.
pub enum CallbackPlanView {
    Ignore,
    Expired { answer: Seq<char> },
    AcknowledgeOnly,
    Proceed { mode: Mode, url: Seq<char>, status: Seq<char> },
}

impl View for CallbackPlan {
    type V = CallbackPlanView;

    open spec fn view(&self) -> CallbackPlanView {
        match self {
            CallbackPlan::Ignore => CallbackPlanView::Ignore,
            CallbackPlan::Expired { answer } => CallbackPlanView::Expired { answer: answer@ },
            CallbackPlan::AcknowledgeOnly => CallbackPlanView::AcknowledgeOnly,
            CallbackPlan::Proceed { mode, url, status } => CallbackPlanView::Proceed {
                mode: *mode,
                url: url@,
                status: status@,
            },
        }
    }
}

/// The mode a button asks for: audio for `long_audio`, video for
/// `long_continue`; none for anything else.
pub open spec fn spec_button_mode(data: Option<Seq<char>>) -> Option<Mode> {
    match data {
        Some(d) => if d == audio_button_data() {
            Some(Mode::Audio)
        } else if d == continue_button_data() {
            Some(Mode::Video)
        } else {
            None
        },
        None => None,
    }
}

/// The answer to a press whose link is gone.
pub open spec fn spec_expired_text() -> Seq<char> {
    "Линк је истекао, пошаљи поново."@
}

/// The message posted before a chosen download starts.
pub open spec fn spec_status_text(mode: Mode) -> Seq<char> {
    match mode {
        Mode::Audio => "Преузимам као аудио..."@,
        Mode::Video => "Преузимам као видео..."@,
    }
}

/// What a press of a button with `data` by `user` does: a press the bot did
/// not offer changes nothing; otherwise the user's pending link is taken
/// (answering that it expired where there is none) and downloaded in the
/// chosen mode, if the press came with a chat message to answer in.
pub open spec fn spec_callback(
    s: SessionState,
    data: Option<Seq<char>>,
    user: u64,
    has_message: bool,
) -> (SessionState, CallbackPlanView) {
    match spec_button_mode(data) {
        None => (s, CallbackPlanView::Ignore),
        Some(mode) => match s.pending_of(user) {
            None => (s, CallbackPlanView::Expired { answer: spec_expired_text() }),
            Some(url) => (
                s.without_pending(user),
                if has_message {
                    CallbackPlanView::Proceed { mode, url, status: spec_status_text(mode) }
                } else {
                    CallbackPlanView::AcknowledgeOnly
                },
            ),
        },
    }
}

/// Which mode a button asks for (see `spec_button_mode`).
pub fn button_mode(data: Option<&str>) -> (r: Option<Mode>)
    ensures
        r == spec_button_mode(crate::config::opt_view(data)),
{
    match data {
        Some(d) => {
            if crate::text::same_text(d, "long_audio") {
                Some(Mode::Audio)
            } else if crate::text::same_text(d, "long_continue") {
                Some(Mode::Video)
            } else {
                None
            }
        },
        None => None,
    }
}

/// Handles a press of a button with `data` by `user` (see `spec_callback`).
pub fn handle_callback(sessions: &mut Sessions, data: Option<&str>, user: u64, has_message: bool) -> (r: CallbackPlan)
    ensures
        (final(sessions)@, r@) == spec_callback(old(sessions)@, crate::config::opt_view(data), user, has_message),
{
    let mode = match button_mode(data) {
        Some(m) => m,
        None => {
            return CallbackPlan::Ignore;
        },
    };
    let ghost before = sessions@;
    match sessions.take_pending(user) {
        None => {
            assert(before.pending.remove(user) =~= before.pending);
            assert(sessions@ == before);
            CallbackPlan::Expired { answer: String::from_str("Линк је истекао, пошаљи поново.") }
        },
        Some(url) => {
            if has_message {
                let status = match mode {
                    Mode::Audio => String::from_str("Преузимам као аудио..."),
                    Mode::Video => String::from_str("Преузимам као видео..."),
                };
                CallbackPlan::Proceed { mode, url, status }
            } else {
                CallbackPlan::AcknowledgeOnly
            }
        },
    }
}

// ---------------------------------------------------------------------------
// Laws of the handlers
// ---------------------------------------------------------------------------

/// A long video is remembered for its sender and the question is asked; the
/// sender's next press of either button gets that very link back, in the mode
/// the button names, and a second press finds it expired.
pub proof fn law_long_video_choice(
    s: SessionState,
    from: Option<u64>,
    url: Seq<char>,
    len: VideoLength,
    limit: u64,
    audio: bool,
)
    requires
        spec_longer_than(len, limit),
    ensures
        ({
            let (s1, d) = spec_after_length(s, from, url, Some(len), limit);
            let data = if audio { audio_button_data() } else { continue_button_data() };
            let mode = if audio { Mode::Audio } else { Mode::Video };
            let (s2, plan) = spec_callback(s1, Some(data), spec_user_key(from), true);
            &&& d is AskAudioOrVideo
            &&& s1.pending_of(spec_user_key(from)) == Some(url)
            &&& plan == (CallbackPlanView::Proceed { mode, url, status: spec_status_text(mode) })
            &&& spec_callback(s2, Some(data), spec_user_key(from), true).1
                == (CallbackPlanView::Expired { answer: spec_expired_text() })
            &&& s2.modes == s.modes
        }),
{
    assert(audio_button_data() != continue_button_data()) by {
        reveal_strlit("long_audio");
        reveal_strlit("long_continue");
        assert(audio_button_data()[5] != continue_button_data()[5]);
    }
}

/// A video that is not longer than the limit, or whose length is unknown, is
/// downloaded right away and nothing is remembered.
pub proof fn law_short_video_downloads(
    s: SessionState,
    from: Option<u64>,
    url: Seq<char>,
    length: Option<VideoLength>,
    limit: u64,
)
    requires
        length matches Some(len) ==> !spec_longer_than(len, limit),
    ensures
        spec_after_length(s, from, url, length, limit) == (s, LengthDecisionView::DownloadVideo { url }),
{
}

/// A user's mode decides what happens to their links: after `/audio` a link
/// is downloaded as audio at once; after `/video` or `/start` its length is
/// checked first. In groups, messages without a link get no answer.
pub proof fn law_mode_decides_download(
    s: SessionState,
    from: Option<u64>,
    cmd: Cmd,
    text: Option<Seq<char>>,
    is_private: bool,
    g: Seq<char>,
)
    ensures
        spec_is_supported_url(spec_message_text(text)) ==>
            spec_message_plan(s.with_mode(spec_user_key(from), spec_command_mode(cmd)), text, is_private, from, g)
            == (if cmd == Cmd::Audio {
                MessagePlanView::Download { mode: Mode::Audio, url: spec_message_text(text) }
            } else {
                MessagePlanView::ProbeLength { url: spec_message_text(text) }
            }),
        !spec_is_supported_url(spec_message_text(text)) && !is_private ==>
            spec_message_plan(s, text, is_private, from, g) == MessagePlanView::Ignore,
{
}

/// Presses of anything but the two offered buttons change nothing.
pub proof fn law_unknown_press_ignored(s: SessionState, data: Option<Seq<char>>, user: u64, has_message: bool)
    requires
        spec_button_mode(data) is None,
    ensures
        spec_callback(s, data, user, has_message) == (s, CallbackPlanView::Ignore),
{
}

} // verus!
