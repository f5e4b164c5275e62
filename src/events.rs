//! What flows between the three actors: key presses into the reducer,
//! commands from the reducer to the RPC worker, and status updates back.
use vstd::prelude::*;

use crate::preferences::DaemonPreferences;

verus! {

/// A key, as far as the client tells keys apart.
#[derive(Clone, Copy, Debug, PartialEq, Eq, Structural)]
pub enum KeyCode {
    Char(char),
    Enter,
    Esc,
    Backspace,
    Left,
    Right,
    Up,
    Down,
    Other,
}

/// A key press with its modifiers.
#[derive(Clone, Copy, Debug, PartialEq, Eq, Structural)]
pub struct KeyPress {
    pub code: KeyCode,
    pub ctrl: bool,
    pub shift: bool,
    pub alt: bool,
}

impl KeyPress {
    pub open spec fn spec_plain(self) -> bool {
        !self.ctrl && !self.shift && !self.alt
    }

    /// No modifier is held.
    pub fn is_plain(&self) -> (r: bool)
        ensures
            r == self.spec_plain(),
    {
        !self.ctrl && !self.shift && !self.alt
    }
}

/// Work for the RPC worker.
#[derive(Debug)]
pub enum RpcCommand {
    Refresh,
    AddMagnet(String),
    RemoveTorrent { id: i64, name: String, delete_data: bool },
    ResumeTorrent { id: i64, name: String },
    PauseTorrent { id: i64, name: String },
    FetchPreferences,
    UpdatePreferences(DaemonPreferences),
}

/// How a status line is shown, and for how long.
#[derive(Clone, Copy, Debug, PartialEq, Eq, Structural)]
pub enum StatusLevel {
    Info,
    Success,
    Warning,
    Error,
}

/// A status line to show.
#[derive(Debug)]
pub struct StatusUpdate {
    pub text: String,
    pub level: StatusLevel,
}

impl StatusUpdate {
    pub fn info(message: String) -> (r: Self)
        ensures
            r.text == message,
            r.level == StatusLevel::Info,
    {
        StatusUpdate { text: message, level: StatusLevel::Info }
    }

    pub fn success(message: String) -> (r: Self)
        ensures
            r.text == message,
            r.level == StatusLevel::Success,
    {
        StatusUpdate { text: message, level: StatusLevel::Success }
    }

    pub fn warning(message: String) -> (r: Self)
        ensures
            r.text == message,
            r.level == StatusLevel::Warning,
    {
        StatusUpdate { text: message, level: StatusLevel::Warning }
    }

    pub fn error(message: String) -> (r: Self)
        ensures
            r.text == message,
            r.level == StatusLevel::Error,
    {
        StatusUpdate { text: message, level: StatusLevel::Error }
    }
}

/// How long a status of each level stays, in milliseconds.
pub open spec fn level_lifetime(l: StatusLevel) -> u64 {
    match l {
        StatusLevel::Info => 4000,
        StatusLevel::Success => 5000,
        StatusLevel::Warning => 6000,
        StatusLevel::Error => 8000,
    }
}

/// `now + d`, or the largest instant when that does not fit.
pub open spec fn later(now: u64, d: u64) -> u64 {
    if now as int + d as int > u64::MAX as int {
        u64::MAX
    } else {
        (now + d) as u64
    }
}

pub fn after(now: u64, d: u64) -> (r: u64)
    ensures
        r == later(now, d),
{
    if now > u64::MAX - d {
        u64::MAX
    } else {
        now + d
    }
}

/// A status line being shown, with the instant (milliseconds) it expires.
#[derive(Debug)]
pub struct StatusMessage {
    pub text: String,
    pub level: StatusLevel,
    pub expires_at: Option<u64>,
}

impl Clone for StatusMessage {
    fn clone(&self) -> (r: Self)
        ensures
            r == *self,
    {
        StatusMessage { text: self.text.clone(), level: self.level, expires_at: self.expires_at }
    }
}

impl StatusMessage {
    /// Shown from `now` for the level's lifetime.
    pub fn from_update(update: StatusUpdate, now: u64) -> (r: Self)
        ensures
            r.text == update.text,
            r.level == update.level,
            r.expires_at == Some(later(now, level_lifetime(update.level))),
    {
        let duration: u64 = match update.level {
            StatusLevel::Info => 4000,
            StatusLevel::Success => 5000,
            StatusLevel::Warning => 6000,
            StatusLevel::Error => 8000,
        };
        StatusMessage { text: update.text, level: update.level, expires_at: Some(after(now, duration)) }
    }
}

} // verus!
