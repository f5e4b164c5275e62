//! The RPC worker's decisions: what each command's outcome reports back to
//! the reducer, in order: a status, an optional focus, then a refresh.
use vstd::prelude::*;
use vstd::string::*;

use crate::events::{StatusLevel, StatusUpdate};
use crate::rpc::{error_text, AddTorrentOutcome, TransmissionError};
use crate::text::{trim, trimmed};

verus! {

/// The events one command produces.
#[derive(Debug)]
pub struct WorkerReply {
    pub status: Option<StatusUpdate>,
    /// A torrent to select once the next snapshot arrives.
    pub focus: Option<i64>,
    /// Whether a fresh snapshot follows.
    pub refresh: bool,
}

/// The magnet to add, trimmed; blank input is only reported.
pub fn magnet_request(magnet: &str) -> (r: Result<String, StatusUpdate>)
    ensures
        trimmed(magnet@).len() == 0 <==> r is Err,
        r matches Ok(m) ==> m@ == trimmed(magnet@),
        r matches Err(s) ==> s.level == StatusLevel::Info && s.text@ == "Ignoring empty magnet input"@,
{
    let t = trim(magnet);
    if t.as_str().unicode_len() == 0 {
        Err(StatusUpdate::info(String::from_str("Ignoring empty magnet input")))
    } else {
        Ok(t)
    }
}

pub open spec fn with_label(prefix: Seq<char>, name: Option<String>) -> Seq<char> {
    prefix + " ("@ + (match name {
        Some(n) => n@,
        None => "torrent"@,
    }) + ")"@
}

/// What adding a magnet reports: a warning for a duplicate, a success
/// otherwise, focus on the torrent when its id is known, and a refresh; or
/// the failure alone.
pub fn add_reply(result: Result<AddTorrentOutcome, TransmissionError>) -> (r: WorkerReply)
    ensures
        match result {
            Ok(o) => r.refresh && r.focus == o.torrent_id && (r.status matches Some(s) && (if o.duplicate {
                s.level == StatusLevel::Warning && s.text@ == with_label("Magnet already present"@, o.name)
            } else if o.added {
                s.level == StatusLevel::Success && s.text@ == with_label("Magnet queued"@, o.name)
            } else {
                s.level == StatusLevel::Success && s.text@ == with_label("Magnet processed"@, o.name)
            })),
            Err(e) => !r.refresh && r.focus is None && (r.status matches Some(s) && s.level
                == StatusLevel::Error && s.text@ == "Add failed: "@ + error_text(e)),
        },
{
    match result {
        Ok(outcome) => {
            let mut text = String::from_str(if outcome.duplicate {
                "Magnet already present"
            } else if outcome.added {
                "Magnet queued"
            } else {
                "Magnet processed"
            });
            text.append(" (");
            match &outcome.name {
                Some(n) => text.append(n.as_str()),
                None => text.append("torrent"),
            }
            text.append(")");
            let status = if outcome.duplicate {
                StatusUpdate::warning(text)
            } else {
                StatusUpdate::success(text)
            };
            WorkerReply { status: Some(status), focus: outcome.torrent_id, refresh: true }
        },
        Err(err) => {
            let mut text = String::from_str("Add failed: ");
            let d = err.describe();
            text.append(d.as_str());
            WorkerReply { status: Some(StatusUpdate::error(text)), focus: None, refresh: false }
        },
    }
}

/// The three per-torrent actions.
#[derive(Clone, Copy, Debug, PartialEq, Eq, Structural)]
pub enum TorrentAction {
    Remove,
    Resume,
    Pause,
}

pub open spec fn done_word(a: TorrentAction) -> Seq<char> {
    match a {
        TorrentAction::Remove => "Removed "@,
        TorrentAction::Resume => "Resumed "@,
        TorrentAction::Pause => "Paused "@,
    }
}

pub open spec fn failed_word(a: TorrentAction) -> Seq<char> {
    match a {
        TorrentAction::Remove => "Remove failed: "@,
        TorrentAction::Resume => "Resume failed: "@,
        TorrentAction::Pause => "Pause failed: "@,
    }
}

/// What removing, resuming or pausing a torrent reports: a success and a
/// refresh, or the failure alone.
pub fn action_reply(action: TorrentAction, name: &str, result: Result<(), TransmissionError>) -> (r:
    WorkerReply)
    ensures
        r.focus is None,
        match result {
            Ok(_) => r.refresh && (r.status matches Some(s) && s.level == StatusLevel::Success
                && s.text@ == done_word(action) + name@),
            Err(e) => !r.refresh && (r.status matches Some(s) && s.level == StatusLevel::Error
                && s.text@ == failed_word(action) + error_text(e)),
        },
{
    match result {
        Ok(()) => {
            let mut text = String::from_str(match action {
                TorrentAction::Remove => "Removed ",
                TorrentAction::Resume => "Resumed ",
                TorrentAction::Pause => "Paused ",
            });
            text.append(name);
            WorkerReply { status: Some(StatusUpdate::success(text)), focus: None, refresh: true }
        },
        Err(err) => {
            let mut text = String::from_str(match action {
                TorrentAction::Remove => "Remove failed: ",
                TorrentAction::Resume => "Resume failed: ",
                TorrentAction::Pause => "Pause failed: ",
            });
            let d = err.describe();
            text.append(d.as_str());
            WorkerReply { status: Some(StatusUpdate::error(text)), focus: None, refresh: false }
        },
    }
}

/// The status that follows a successful preferences update; a failed one
/// reports only through the preferences event.
pub fn update_preferences_status(succeeded: bool) -> (r: Option<StatusUpdate>)
    ensures
        succeeded <==> r is Some,
        r matches Some(s) ==> s.level == StatusLevel::Success && s.text@ == "Preferences updated"@,
{
    if succeeded {
        Some(StatusUpdate::success(String::from_str("Preferences updated")))
    } else {
        None
    }
}

} // verus!
