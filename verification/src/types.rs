use vstd::prelude::*;

verus! {

/// What a user gets back for a link: the video itself or only its sound.
#[derive(Clone, Copy, Debug, PartialEq, Eq, Structural)]
pub enum Mode {
    Video,
    Audio,
}

impl Default for Mode {
    /// A user who never chose a mode gets videos.
    fn default() -> (m: Mode)
        ensures
            m == Mode::Video,
    {
        Mode::Video
    }
}

/// The bot's slash commands.
#[derive(Clone, Copy, Debug, PartialEq, Eq, Structural)]
pub enum Cmd {
    Start,
    Video,
    Audio,
}

} // verus!
