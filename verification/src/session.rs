use vstd::prelude::*;
use dashmap::DashMap;
use crate::types::Mode;

verus! {

#[verifier::external_type_specification]
#[verifier::external_body]
#[verifier::reject_recursive_types(K)]
#[verifier::reject_recursive_types(V)]
#[verifier::reject_recursive_types(S)]
pub struct ExDashMap<K, V, S>(DashMap<K, V, S>);

/// The entries of a user-id → mode table.
pub uninterp spec fn mode_table(m: DashMap<u64, Mode>) -> Map<u64, Mode>;

/// The entries of a user-id → link table (each link by its characters).
pub uninterp spec fn pending_table(m: DashMap<u64, String>) -> Map<u64, Seq<char>>;

/// A table with no entries.
pub open spec fn no_modes() -> Map<u64, Mode> {
    Map::empty()
}

/// A table with no entries.
pub open spec fn no_links() -> Map<u64, Seq<char>> {
    Map::empty()
}

/// Calls `DashMap::new`: the new table holds no entry.
#[verifier::external_body]
fn mode_table_new() -> (table: DashMap<u64, Mode>)
    ensures
        mode_table(table) == no_modes(),
{
    DashMap::new()
}

/// Calls `DashMap::insert`: afterwards `key` maps to `value` and every other
/// entry is as it was (the replaced value, which the method returns, is dropped).
#[verifier::external_body]
fn mode_table_insert(table: &mut DashMap<u64, Mode>, key: u64, value: Mode)
    ensures
        mode_table(*final(table)) == mode_table(*old(table)).insert(key, value),
{
    table.insert(key, value);
}

/// Calls `DashMap::get` and copies the value out of the returned guard:
/// the value stored under `key`, if any.
#[verifier::external_body]
fn mode_table_get(table: &DashMap<u64, Mode>, key: u64) -> (r: Option<Mode>)
    ensures
        r == (if mode_table(*table).contains_key(key) { Some(mode_table(*table)[key]) } else { None::<Mode> }),
{
    table.get(&key).map(|entry| *entry)
}

/// Calls `DashMap::new`: the new table holds no entry.
#[verifier::external_body]
fn pending_table_new() -> (table: DashMap<u64, String>)
    ensures
        pending_table(table) == no_links(),
{
    DashMap::new()
}

/// Calls `DashMap::insert`: afterwards `key` maps to `value` and every other
/// entry is as it was (the replaced value, which the method returns, is dropped).
#[verifier::external_body]
fn pending_table_insert(table: &mut DashMap<u64, String>, key: u64, value: String)
    ensures
        pending_table(*final(table)) == pending_table(*old(table)).insert(key, value@),
{
    table.insert(key, value);
}

/// Calls `DashMap::remove`: the entry under `key` leaves the table and its
/// value is returned; without such an entry nothing changes and `None` comes back.
#[verifier::external_body]
fn pending_table_remove(table: &mut DashMap<u64, String>, key: u64) -> (r: Option<String>)
    ensures
        pending_table(*final(table)) == pending_table(*old(table)).remove(key),
        pending_table(*old(table)).contains_key(key) <==> r is Some,
        r matches Some(v) ==> v@ == pending_table(*old(table))[key],
{
    table.remove(&key).map(|(_, value)| value)
}

} // verus!

verus! {

/// What the bot remembers about its users: the mode each one chose, and the
/// link each one was asked about (a long video awaiting the audio/video choice).
pub struct SessionState {
    pub modes: Map<u64, Mode>,
    pub pending: Map<u64, Seq<char>>,
}

impl SessionState {
    /// Nobody has chosen a mode and no link awaits a choice.
    pub open spec fn empty() -> SessionState {
        SessionState { modes: Map::empty(), pending: Map::empty() }
    }

    /// The mode that applies to `user`: the one chosen last, or video.
    pub open spec fn mode_of(self, user: u64) -> Mode {
        if self.modes.contains_key(user) {
            self.modes[user]
        } else {
            Mode::Video
        }
    }

    /// `user` chose `mode`.
    pub open spec fn with_mode(self, user: u64, mode: Mode) -> SessionState {
        SessionState { modes: self.modes.insert(user, mode), pending: self.pending }
    }

    /// `user` is asked what to do with `url`.
    pub open spec fn with_pending(self, user: u64, url: Seq<char>) -> SessionState {
        SessionState { modes: self.modes, pending: self.pending.insert(user, url) }
    }

    /// The link awaiting `user`'s choice, if any.
    pub open spec fn pending_of(self, user: u64) -> Option<Seq<char>> {
        if self.pending.contains_key(user) {
            Some(self.pending[user])
        } else {
            None
        }
    }

    /// The link awaiting `user`'s choice has been taken.
    pub open spec fn without_pending(self, user: u64) -> SessionState {
        SessionState { modes: self.modes, pending: self.pending.remove(user) }
    }
}

/// The per-user state of the bot, held in two concurrent hash maps keyed by
/// Telegram user id.
pub struct Sessions {
    modes: DashMap<u64, Mode>,
    pending: DashMap<u64, String>,
}

impl View for Sessions {
    type V = SessionState;

    closed spec fn view(&self) -> SessionState {
        SessionState { modes: mode_table(self.modes), pending: pending_table(self.pending) }
    }
}

/// The view of an optional string.
pub open spec fn opt_string_view(s: Option<String>) -> Option<Seq<char>> {
    match s {
        Some(v) => Some(v@),
        None => None,
    }
}

impl Sessions {
    /// No user has a mode or a pending link.
    pub fn new() -> (s: Sessions)
        ensures
            s@ == SessionState::empty(),
    {
        let s = Sessions { modes: mode_table_new(), pending: pending_table_new() };
        assert(s@.modes =~= Map::empty());
        assert(s@.pending =~= Map::empty());
        s
    }

    /// Records that `user` chose `mode`; pending links are untouched.
    pub fn set_mode(&mut self, user: u64, mode: Mode)
        ensures
            final(self)@ == old(self)@.with_mode(user, mode),
    {
        mode_table_insert(&mut self.modes, user, mode);
    }

    /// The mode that applies to `user` (video where none was chosen).
    pub fn mode_of(&self, user: u64) -> (m: Mode)
        ensures
            m == self@.mode_of(user),
    {
        match mode_table_get(&self.modes, user) {
            Some(m) => m,
            None => Mode::default(),
        }
    }

    /// Remembers `url` as the link that `user` is asked about, replacing any
    /// earlier one; modes are untouched.
    pub fn remember_pending(&mut self, user: u64, url: String)
        ensures
            final(self)@ == old(self)@.with_pending(user, url@),
    {
        pending_table_insert(&mut self.pending, user, url);
    }

    /// Takes the link that `user` was asked about: it is returned and forgotten.
    pub fn take_pending(&mut self, user: u64) -> (r: Option<String>)
        ensures
            opt_string_view(r) == old(self)@.pending_of(user),
            final(self)@ == old(self)@.without_pending(user),
    {
        pending_table_remove(&mut self.pending, user)
    }
}

/// A user's mode is the one they chose last; other users' modes do not change.
pub proof fn law_mode_read_after_write(s: SessionState, user: u64, mode: Mode, other: u64)
    ensures
        s.with_mode(user, mode).mode_of(user) == mode,
        other != user ==> s.with_mode(user, mode).mode_of(other) == s.mode_of(other),
        s.with_mode(user, mode).pending == s.pending,
{
}

/// A user who never chose a mode gets videos.
pub proof fn law_default_mode_is_video(user: u64)
    ensures
        SessionState::empty().mode_of(user) == Mode::Video,
{
}

/// A pending link is handed out once: taking it right after it was remembered
/// gives it back, and taking it again gives nothing. Other users' links and
/// all modes are untouched; where the user had no pending link before,
/// remembering and then taking one leaves the state as it was.
pub proof fn law_pending_taken_once(s: SessionState, user: u64, url: Seq<char>, other: u64)
    ensures
        s.with_pending(user, url).pending_of(user) == Some(url),
        s.with_pending(user, url).without_pending(user).pending_of(user) is None,
        other != user ==> s.with_pending(user, url).without_pending(user).pending_of(other)
            == s.pending_of(other),
        s.with_pending(user, url).without_pending(user).modes == s.modes,
        s.pending_of(user) is None ==> s.with_pending(user, url).without_pending(user) == s,
{
    if s.pending_of(user) is None {
        assert(s.pending.insert(user, url).remove(user) =~= s.pending);
    }
}

/// Choosing a mode leaves a pending link in place.
pub proof fn law_mode_change_keeps_pending(s: SessionState, user: u64, mode: Mode, other: u64)
    ensures
        s.with_mode(user, mode).pending_of(other) == s.pending_of(other),
{
}

} // verus!
