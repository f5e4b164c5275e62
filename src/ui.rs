//! The reducer: all client state, and how each event changes it. Keys, paste,
//! snapshots, preferences and status updates come in; commands for the RPC
//! worker go out.
use vstd::prelude::*;
use vstd::string::*;

use crate::config::AppConfig;
use crate::events::{
    after, later, KeyCode, KeyPress, RpcCommand, StatusLevel, StatusMessage, StatusUpdate,
};
use crate::form::{closes_dialog, dialog_key_effect, is_char, is_close_key, msg_is, PreferencesState, PreferencesView};
use crate::model::{Snapshot, TorrentSummary};
use crate::preferences::DaemonPreferences;
use crate::rpc::{error_text, TransmissionError};
use crate::text::{contains, contains_seq, decimal, lower_of, lowercase, pop_char, push_char, trim, trimmed};

verus! {

/// The magnet prompt.
#[derive(Debug)]
pub struct PromptState {
    pub title: &'static str,
    pub buffer: String,
}

impl PromptState {
    pub fn new(title: &'static str) -> (r: Self)
        ensures
            r.title == title,
            r.buffer@.len() == 0,
    {
        PromptState { title, buffer: String::new() }
    }
}

/// The removal confirmation.
#[derive(Debug)]
pub struct ConfirmState {
    pub title: &'static str,
    pub message: String,
    pub target_id: i64,
    pub target_name: String,
    pub delete_data: bool,
}

impl ConfirmState {
    /// Asks whether to remove a torrent, keeping its data.
    pub fn remove_torrent(name: String, id: i64) -> (r: Self)
        ensures
            r.title@ == "Remove torrent"@,
            r.message@ == "Remove '"@ + name@ + "' from Transmission?"@,
            r.target_id == id,
            r.target_name == name,
            !r.delete_data,
    {
        let mut message = String::from_str("Remove '");
        message.append(name.as_str());
        message.append("' from Transmission?");
        ConfirmState { title: "Remove torrent", message, target_id: id, target_name: name, delete_data: false }
    }
}

/// The modal state: at most one dialog at a time.
#[derive(Debug)]
pub enum InputMode {
    Normal,
    Filter { buffer: String },
    Prompt(PromptState),
    Confirm(ConfirmState),
    Help,
    Preferences(PreferencesState),
}

/// Whether a torrent name passes the filter, given the lower-case forms of
/// both: an empty filter passes everything.
pub open spec fn name_passes(lower_name: Seq<char>, lower_filter: Seq<char>) -> bool {
    lower_filter.len() == 0 || contains_seq(lower_name, lower_filter)
}

/// Whether a lower-cased name passes a lower-cased filter.
pub fn name_matches(lower_name: &str, lower_filter: &str) -> (r: bool)
    ensures
        r == name_passes(lower_name@, lower_filter@),
{
    if lower_filter.unicode_len() == 0 {
        return true;
    }
    contains(lower_name, lower_filter)
}

pub open spec fn passes_in(ts: Seq<TorrentSummary>, lower_filter: Seq<char>, k: int) -> bool {
    name_passes(lower_of(ts[k].name@), lower_filter)
}

/// A strictly increasing list of positions in `ts`.
pub open spec fn ordered_view(ts: Seq<TorrentSummary>, fi: Seq<usize>) -> bool {
    &&& forall|i: int| 0 <= i < fi.len() ==> #[trigger] fi[i] < ts.len()
    &&& forall|i: int, j: int| 0 <= i < j < fi.len() ==> fi[i] < fi[j]
}

/// `fi` holds exactly the positions of `ts` whose names pass the filter.
pub open spec fn exact_view(ts: Seq<TorrentSummary>, lower_filter: Seq<char>, fi: Seq<usize>) -> bool {
    forall|k: int|
        0 <= k < ts.len() ==> (passes_in(ts, lower_filter, k) <==> exists|i: int|
            0 <= i < fi.len() && fi[i] == k)
}

/// The id of the torrent at position `p` of the view `fi` of `ts`.
pub open spec fn id_in(ts: Seq<TorrentSummary>, fi: Seq<usize>, p: int) -> i64 {
    ts[fi[p] as int].torrent_id
}

/// The view `fi` of `ts` shows the torrent with id `t`.
pub open spec fn shows_in(ts: Seq<TorrentSummary>, fi: Seq<usize>, t: i64) -> bool {
    exists|p: int| 0 <= p < fi.len() && #[trigger] id_in(ts, fi, p) == t
}

/// The message's expiry instant has come.
pub open spec fn expired(m: Option<StatusMessage>, now: u64) -> bool {
    m matches Some(x) && due(x.expires_at, now)
}

pub open spec fn due(at: Option<u64>, now: u64) -> bool {
    at matches Some(e) && now >= e
}

/// All client state.
#[derive(Debug)]
pub struct App {
    pub connection_label: String,
    pub snapshot: Option<Snapshot>,
    pub preferences_cache: Option<DaemonPreferences>,
    /// Position of the selection in the filtered view.
    pub selected: Option<usize>,
    /// Positions in the snapshot of the torrents that pass the filter, in order.
    pub filtered_indices: Vec<usize>,
    pub filter_text: String,
    pub filter_lower: String,
    pub pending_focus: Option<i64>,
    pub selected_id: Option<i64>,
    pub status: Option<StatusMessage>,
    pub toast: Option<StatusMessage>,
    pub mode: InputMode,
    pub should_quit: bool,
    pub pending_manual_refresh: bool,
    pub delete_armed: bool,
    pub delete_armed_until: Option<u64>,
}

impl App {
    pub open spec fn torrents(&self) -> Seq<TorrentSummary> {
        match self.snapshot {
            Some(s) => s.torrents@,
            None => Seq::empty(),
        }
    }

    /// The torrent at snapshot position `k` passes the current filter.
    pub open spec fn passes(&self, k: int) -> bool {
        passes_in(self.torrents(), self.filter_lower@, k)
    }

    /// The filtered view is a strictly increasing list of snapshot positions.
    pub open spec fn view_ordered(&self) -> bool {
        ordered_view(self.torrents(), self.filtered_indices@)
    }

    /// The filtered view holds exactly the positions that pass the filter.
    pub open spec fn view_exact(&self) -> bool {
        exact_view(self.torrents(), self.filter_lower@, self.filtered_indices@)
    }

    pub open spec fn wf(&self) -> bool {
        &&& self.view_ordered()
        &&& (self.selected matches Some(p) ==> p < self.filtered_indices@.len())
        &&& (self.mode matches InputMode::Preferences(s) ==> s.wf())
    }

    /// The id of the torrent at filtered position `p`.
    pub open spec fn id_at(&self, p: int) -> i64 {
        id_in(self.torrents(), self.filtered_indices@, p)
    }

    /// The id of the selected torrent, if any.
    pub open spec fn current_id(&self) -> Option<i64> {
        match self.selected {
            Some(p) => Some(self.id_at(p as int)),
            None => None,
        }
    }

    /// A first `d` is armed and its window is still open at `now`.
    pub open spec fn armed_at(&self, now: u64) -> bool {
        self.delete_armed && self.delete_armed_until is Some && now < self.delete_armed_until->Some_0
    }

    /// The selected torrent (meaningful when there is a selection).
    pub open spec fn selected_torrent(&self) -> TorrentSummary {
        self.torrents()[self.filtered_indices@[self.selected->Some_0 as int] as int]
    }

    /// The selection after moving `delta` rows, stopping at the ends; moving in
    /// an empty view changes nothing.
    pub open spec fn moved(&self, delta: i64) -> Option<usize> {
        if self.filtered_indices@.len() == 0 {
            self.selected
        } else {
            let cur: int = match self.selected {
                Some(p) => p as int,
                None => 0,
            };
            let want = cur + delta;
            let last = self.filtered_indices@.len() - 1;
            Some((if want < 0 {
                0
            } else if want > last {
                last
            } else {
                want
            }) as usize)
        }
    }

    /// The selection on the last row, if there are rows.
    pub open spec fn at_bottom(&self) -> Option<usize> {
        if self.filtered_indices@.len() == 0 {
            self.selected
        } else {
            Some((self.filtered_indices@.len() - 1) as usize)
        }
    }

    /// The mode is the removal confirmation for the torrent selected in
    /// `before`, keeping its data.
    pub open spec fn confirms_removal_of(&self, before: App) -> bool {
        let t = before.selected_torrent();
        &&& self.mode is Confirm
        &&& self.mode->Confirm_0.title@ == "Remove torrent"@
        &&& self.mode->Confirm_0.target_id == t.torrent_id
        &&& self.mode->Confirm_0.target_name == t.name
        &&& !self.mode->Confirm_0.delete_data
    }

    /// The selection after the view was rebuilt from state `before`: none for
    /// an empty view; else the pending focus if shown, else the selected id if
    /// shown, else the first row. The selected id is that of the selected row.
    pub open spec fn selection_settled(&self, before: App) -> bool {
        &&& (self.selected is Some <==> self.filtered_indices@.len() > 0)
        &&& self.selected_id == self.current_id()
        &&& self.filtered_indices@.len() > 0 ==> (if before.pending_focus is Some && self.shows(
            before.pending_focus->Some_0,
        ) {
            self.selected_id == before.pending_focus
        } else if before.selected_id is Some && self.shows(before.selected_id->Some_0) {
            self.selected_id == before.selected_id
        } else {
            self.selected == Some(0usize)
        })
    }

    /// The rebuilt view selected the pending focus of `before`.
    pub open spec fn focus_taken(&self, before: App) -> bool {
        self.filtered_indices@.len() > 0 && before.pending_focus is Some && self.shows(
            before.pending_focus->Some_0,
        )
    }

    /// The filtered view shows the torrent with id `t`.
    pub open spec fn shows(&self, t: i64) -> bool {
        shows_in(self.torrents(), self.filtered_indices@, t)
    }

    pub fn new(config: &AppConfig) -> (r: Self)
        ensures
            r.wf(),
            r.view_exact(),
            r.snapshot is None,
            r.mode is Normal,
            r.selected is None,
            !r.should_quit,
    {
        App {
            connection_label: config.rpc.endpoint(),
            snapshot: None,
            preferences_cache: None,
            selected: None,
            filtered_indices: Vec::new(),
            filter_text: String::new(),
            filter_lower: String::new(),
            pending_focus: None,
            selected_id: None,
            status: None,
            toast: None,
            mode: InputMode::Normal,
            should_quit: false,
            pending_manual_refresh: false,
            delete_armed: false,
            delete_armed_until: None,
        }
    }

    /// Shows a status line from `now`; warnings and errors also as a toast.
    pub fn set_status(&mut self, update: StatusUpdate, now: u64)
        requires
            old(self).wf(),
        ensures
            final(self).wf(),
            final(self).status matches Some(m) && m.text == update.text && m.level == update.level
                && m.expires_at == Some(later(now, crate::events::level_lifetime(update.level))),
            (update.level == StatusLevel::Warning || update.level == StatusLevel::Error)
                ==> final(self).toast == final(self).status,
            !(update.level == StatusLevel::Warning || update.level == StatusLevel::Error)
                ==> final(self).toast == old(self).toast,
            *final(self) == (App { status: final(self).status, toast: final(self).toast, ..*old(self) }),
    {
        let level = update.level;
        let message = StatusMessage::from_update(update, now);
        if level == StatusLevel::Warning || level == StatusLevel::Error {
            self.toast = Some(message.clone());
        }
        self.status = Some(message);
    }

    fn info(&mut self, text: &str, now: u64)
        requires
            old(self).wf(),
        ensures
            final(self).wf(),
            final(self).status matches Some(m) && m.text@ == text@ && m.level == StatusLevel::Info,
            *final(self) == (App { status: final(self).status, ..*old(self) }),
    {
        self.set_status(StatusUpdate::info(String::from_str(text)), now);
    }

    /// Drops the status, the toast and the delete arming once their instants
    /// have come.
    pub fn expire_status(&mut self, now: u64)
        requires
            old(self).wf(),
        ensures
            final(self).wf(),
            expired(old(self).status, now) ==> final(self).status is None,
            !expired(old(self).status, now) ==> final(self).status == old(self).status,
            expired(old(self).toast, now) ==> final(self).toast is None,
            !expired(old(self).toast, now) ==> final(self).toast == old(self).toast,
            old(self).delete_armed && due(old(self).delete_armed_until, now) ==> !final(self).delete_armed,
            final(self).mode == old(self).mode,
            final(self).selected == old(self).selected,
            final(self).filtered_indices == old(self).filtered_indices,
    {
        let status_done = match &self.status {
            Some(m) => match m.expires_at {
                Some(e) => now >= e,
                None => false,
            },
            None => false,
        };
        if status_done {
            self.status = None;
        }
        let toast_done = match &self.toast {
            Some(m) => match m.expires_at {
                Some(e) => now >= e,
                None => false,
            },
            None => false,
        };
        if toast_done {
            self.toast = None;
        }
        if self.delete_armed {
            if let Some(deadline) = self.delete_armed_until {
                if now >= deadline {
                    self.disarm_delete();
                }
            }
        }
    }

    pub fn disarm_delete(&mut self)
        ensures
            !final(self).delete_armed,
            final(self).delete_armed_until is None,
            *final(self) == (App { delete_armed: false, delete_armed_until: None, ..*old(self) }),
    {
        self.delete_armed = false;
        self.delete_armed_until = None;
    }

    /// The selected torrent, if any.
    pub fn current_torrent(&self) -> (r: Option<&TorrentSummary>)
        requires
            self.wf(),
        ensures
            match self.selected {
                Some(p) => r matches Some(t) && *t == self.torrents()[self.filtered_indices@[p as int] as int],
                None => r is None,
            },
    {
        let snapshot = match &self.snapshot {
            Some(s) => s,
            None => {
                proof {
                    if self.selected is Some {
                        assert(self.filtered_indices@[self.selected->Some_0 as int] < 0);
                    }
                }
                return None;
            },
        };
        let p = match self.selected {
            Some(p) => p,
            None => return None,
        };
        let idx = self.filtered_indices[p];
        assert(idx < snapshot.torrents@.len());
        Some(&snapshot.torrents[idx])
    }

    fn update_selected_id(&mut self)
        requires
            old(self).wf(),
        ensures
            final(self).wf(),
            final(self).selected_id == final(self).current_id(),
            *final(self) == (App { selected_id: final(self).selected_id, ..*old(self) }),
    {
        let id = match self.current_torrent() {
            Some(t) => Some(t.torrent_id),
            None => None,
        };
        self.selected_id = id;
    }

    /// Recomputes the filtered view and settles the selection: on the pending
    /// focus if it is in view (consuming it), else on the selected id if it
    /// is in view, else on the first row; none when the view is empty.
    pub fn rebuild_indices(&mut self)
        requires
            old(self).wf(),
        ensures
            final(self).wf(),
            final(self).view_exact(),
            final(self).selection_settled(*old(self)),
            final(self).pending_focus == (if final(self).focus_taken(*old(self)) {
                None
            } else {
                old(self).pending_focus
            }),
            *final(self) == (App {
                filtered_indices: final(self).filtered_indices,
                selected: final(self).selected,
                selected_id: final(self).selected_id,
                pending_focus: final(self).pending_focus,
                ..*old(self)
            }),
    {
        let ghost ts = self.torrents();
        let ghost fl = self.filter_lower@;
        let n: usize = match &self.snapshot {
            Some(s) => s.torrents.len(),
            None => 0,
        };
        let mut indices: Vec<usize> = Vec::new();
        let mut k: usize = 0;
        while k < n
            invariant
                n == ts.len(),
                ts == self.torrents(),
                fl == self.filter_lower@,
                k <= n,
                forall|i: int| 0 <= i < indices@.len() ==> #[trigger] indices@[i] < k,
                forall|i: int, j: int| 0 <= i < j < indices@.len() ==> indices@[i] < indices@[j],
                forall|q: int|
                    0 <= q < k ==> (passes_in(ts, fl, q) <==> exists|i: int|
                        0 <= i < indices@.len() && indices@[i] == q),
            decreases n - k,
        {
            let pass = match &self.snapshot {
                Some(s) => {
                    let lower = lowercase(s.torrents[k].name.as_str());
                    name_matches(lower.as_str(), self.filter_lower.as_str())
                },
                None => false,
            };
            assert(pass == passes_in(ts, fl, k as int));
            let ghost before = indices@;
            if pass {
                indices.push(k);
            }
            proof {
                assert forall|q: int|
                    0 <= q < k + 1 implies (passes_in(ts, fl, q) <==> exists|i: int|
                        0 <= i < indices@.len() && indices@[i] == q) by {
                    if q < k {
                        if passes_in(ts, fl, q) {
                            let i = choose|i: int| 0 <= i < before.len() && before[i] == q;
                            assert(indices@[i] == q);
                        } else if exists|i: int| 0 <= i < indices@.len() && indices@[i] == q {
                            let i = choose|i: int| 0 <= i < indices@.len() && indices@[i] == q;
                            if i < before.len() {
                                assert(before[i] == q);
                            }
                        }
                    } else {
                        if pass {
                            assert(indices@[before.len() as int] == q);
                        } else if exists|i: int| 0 <= i < indices@.len() && indices@[i] == q {
                            let i = choose|i: int| 0 <= i < indices@.len() && indices@[i] == q;
                            assert(before[i] < k);
                        }
                    }
                }
            }
            k = k + 1;
        }
        self.filtered_indices = indices;
        if self.filtered_indices.len() == 0 {
            self.selected = None;
            self.selected_id = None;
            return;
        }
        if let Some(t) = self.pending_focus {
            if let Some(p) = self.find_in_view(t) {
                self.selected = Some(p);
                self.selected_id = Some(t);
                self.pending_focus = None;
                return;
            }
        }
        if let Some(t) = self.selected_id {
            if let Some(p) = self.find_in_view(t) {
                self.selected = Some(p);
                return;
            }
        }
        self.selected = Some(0);
        self.update_selected_id();
    }

    /// The position in the view of the torrent with id `t`, if shown.
    fn find_in_view(&self, t: i64) -> (r: Option<usize>)
        requires
            self.view_ordered(),
        ensures
            match r {
                Some(p) => p < self.filtered_indices@.len() && self.id_at(p as int) == t,
                None => !self.shows(t),
            },
    {
        let len = self.filtered_indices.len();
        let mut p: usize = 0;
        while p < len
            invariant
                len == self.filtered_indices@.len(),
                p <= len,
                self.view_ordered(),
                forall|q: int| 0 <= q < p ==> self.id_at(q) != t,
            decreases len - p,
        {
            let idx = self.filtered_indices[p];
            let id = match &self.snapshot {
                Some(s) => s.torrents[idx].torrent_id,
                None => {
                    assert(false);
                    0
                },
            };
            if id == t {
                return Some(p);
            }
            p = p + 1;
        }
        assert(!self.shows(t)) by {
            if self.shows(t) {
                let q = choose|q: int|
                    0 <= q < self.filtered_indices@.len() && #[trigger] id_in(
                        self.torrents(),
                        self.filtered_indices@,
                        q,
                    ) == t;
                assert(self.id_at(q) != t);
            }
        }
        None
    }

    /// Applies a new filter text (already trimmed by the caller).
    pub fn apply_filter_text(&mut self, value: String)
        requires
            old(self).wf(),
        ensures
            final(self).wf(),
            final(self).view_exact(),
            final(self).filter_text == value,
            final(self).filter_lower@ == lower_of(value@),
            final(self).selection_settled(*old(self)),
            final(self).pending_focus == (if final(self).focus_taken(*old(self)) {
                None
            } else {
                old(self).pending_focus
            }),
            *final(self) == (App {
                filter_text: final(self).filter_text,
                filter_lower: final(self).filter_lower,
                filtered_indices: final(self).filtered_indices,
                selected: final(self).selected,
                selected_id: final(self).selected_id,
                pending_focus: final(self).pending_focus,
                ..*old(self)
            }),
    {
        self.filter_lower = lowercase(value.as_str());
        self.filter_text = value;
        self.rebuild_indices();
    }

    /// Removes the filter, if any.
    pub fn clear_filter(&mut self)
        requires
            old(self).wf(),
        ensures
            final(self).wf(),
            old(self).filter_text@.len() == 0 ==> *final(self) == *old(self),
            old(self).filter_text@.len() > 0 ==> final(self).filter_text@.len() == 0
                && final(self).filter_lower@.len() == 0 && final(self).view_exact()
                && final(self).selection_settled(*old(self)) && final(self).pending_focus == (
            if final(self).focus_taken(*old(self)) {
                None
            } else {
                old(self).pending_focus
            }) && *final(self) == (App {
                filter_text: final(self).filter_text,
                filter_lower: final(self).filter_lower,
                filtered_indices: final(self).filtered_indices,
                selected: final(self).selected,
                selected_id: final(self).selected_id,
                pending_focus: final(self).pending_focus,
                ..*old(self)
            }),
    {
        if self.filter_text.as_str().unicode_len() == 0 {
            return;
        }
        self.filter_text = String::new();
        self.filter_lower = String::new();
        self.rebuild_indices();
    }

    /// Moves the selection by `delta` rows, stopping at the ends.
    pub fn move_selection(&mut self, delta: i64)
        requires
            old(self).wf(),
        ensures
            final(self).delete_armed_until == old(self).delete_armed_until,
            final(self).delete_armed == old(self).delete_armed,
            final(self).should_quit == old(self).should_quit,
            final(self).wf(),
            final(self).mode == old(self).mode,
            final(self).filtered_indices == old(self).filtered_indices,
            final(self).snapshot == old(self).snapshot,
            final(self).selected == old(self).moved(delta),
            final(self).selected_id == final(self).current_id() || old(self).filtered_indices@.len() == 0,
    {
        let len = self.filtered_indices.len();
        if len == 0 {
            return;
        }
        let last = (len - 1) as i128;
        let current: i128 = match self.selected {
            Some(p) => p as i128,
            None => 0,
        };
        let want: i128 = current + delta as i128;
        let next: i128 = if want < 0 {
            0
        } else if want > last {
            last
        } else {
            want
        };
        self.selected = Some(next as usize);
        self.update_selected_id();
    }

    pub fn goto_top(&mut self)
        requires
            old(self).wf(),
        ensures
            final(self).delete_armed_until == old(self).delete_armed_until,
            final(self).delete_armed == old(self).delete_armed,
            final(self).should_quit == old(self).should_quit,
            final(self).wf(),
            final(self).mode == old(self).mode,
            old(self).filtered_indices@.len() > 0 ==> final(self).selected == Some(0usize),
            old(self).filtered_indices@.len() == 0 ==> final(self).selected == old(self).selected,
    {
        if self.filtered_indices.len() == 0 {
            return;
        }
        self.selected = Some(0);
        self.update_selected_id();
    }

    pub fn goto_bottom(&mut self)
        requires
            old(self).wf(),
        ensures
            final(self).delete_armed_until == old(self).delete_armed_until,
            final(self).delete_armed == old(self).delete_armed,
            final(self).should_quit == old(self).should_quit,
            final(self).wf(),
            final(self).mode == old(self).mode,
            final(self).selected == old(self).at_bottom(),
    {
        if self.filtered_indices.len() == 0 {
            return;
        }
        self.selected = Some(self.filtered_indices.len() - 1);
        self.update_selected_id();
    }

    /// A torrent to select once the next snapshot arrives.
    pub fn set_focus(&mut self, target: Option<i64>)
        requires
            old(self).wf(),
        ensures
            final(self).wf(),
            final(self).pending_focus == target,
            final(self).mode == old(self).mode,
            final(self).selected == old(self).selected,
    {
        self.pending_focus = target;
    }

    /// Applies a refresh: the new snapshot replaces the old one, the filter
    /// is kept, and the selection settles on the pending focus, else the
    /// selected id, else the first row; the pending focus is consumed. A
    /// "Refreshed" status follows a manual refresh or an empty status line. A
    /// failure only sets an error status (and toast).
    pub fn apply_snapshot(&mut self, result: Result<Snapshot, TransmissionError>, now: u64)
        requires
            old(self).wf(),
        ensures
            final(self).wf(),
            !final(self).pending_manual_refresh,
            result is Ok ==> {
                &&& final(self).snapshot == Some(result->Ok_0)
                &&& final(self).view_exact()
                &&& final(self).selection_settled(*old(self))
                &&& final(self).pending_focus is None
                &&& (old(self).pending_manual_refresh || old(self).status is None) ==> (final(self).status matches Some(m) && m.level == StatusLevel::Success && m.text@
                    == "Refreshed "@ + decimal(result->Ok_0.torrents@.len() as nat) + " torrents"@)
                &&& !(old(self).pending_manual_refresh || old(self).status is None) ==> final(self).status == old(self).status && final(self).toast == old(self).toast
                &&& *final(self) == (App {
                    snapshot: final(self).snapshot,
                    filtered_indices: final(self).filtered_indices,
                    selected: final(self).selected,
                    selected_id: final(self).selected_id,
                    pending_focus: None,
                    status: final(self).status,
                    toast: final(self).toast,
                    pending_manual_refresh: false,
                    ..*old(self)
                })
            },
            result is Err ==> {
                &&& *final(self) == (App {
                    status: final(self).status,
                    toast: final(self).toast,
                    pending_manual_refresh: false,
                    ..*old(self)
                })
                &&& final(self).status matches Some(m) && m.level == StatusLevel::Error && m.text@
                    == "RPC error: "@ + error_text(result->Err_0)
                &&& final(self).toast == final(self).status
            },
    {
        match result {
            Ok(snapshot) => {
                let count = snapshot.torrents.len();
                self.snapshot = Some(snapshot);
                self.selected = None;
                self.filtered_indices = Vec::new();
                self.rebuild_indices();
                self.pending_focus = None;
                if self.pending_manual_refresh || self.status.is_none() {
                    let mut text = String::from_str("Refreshed ");
                    let digits = crate::text::u64_to_string(count as u64);
                    text.append(digits.as_str());
                    text.append(" torrents");
                    self.set_status(StatusUpdate::success(text), now);
                }
                self.pending_manual_refresh = false;
            },
            Err(err) => {
                let mut text = String::from_str("RPC error: ");
                let detail = err.describe();
                text.append(detail.as_str());
                self.set_status(StatusUpdate::error(text), now);
                self.pending_manual_refresh = false;
            },
        }
    }

    /// Applies fetched preferences (cached, and shown if the dialog is open)
    /// or a failure (shown in the dialog and as an error status).
    pub fn apply_preferences_event(&mut self, result: Result<DaemonPreferences, TransmissionError>, now: u64)
        requires
            old(self).wf(),
        ensures
            final(self).wf(),
            final(self).filtered_indices == old(self).filtered_indices,
            final(self).selected == old(self).selected,
            result is Ok ==> final(self).preferences_cache == Some(result->Ok_0),
            (result is Ok && old(self).mode is Preferences) ==> (final(self).mode is Preferences
                && final(self).mode->Preferences_0.view is Ready
                && final(self).mode->Preferences_0.view->Ready_0.prefs == result->Ok_0
                && !final(self).mode->Preferences_0.view->Ready_0.dirty),
            result is Err ==> (final(self).status matches Some(m) && m.level == StatusLevel::Error
                && m.text@ == "Preferences error: "@ + error_text(result->Err_0)),
            !(old(self).mode is Preferences) ==> final(self).mode == old(self).mode,
            old(self).mode is Preferences ==> final(self).mode is Preferences,
            (result is Ok && old(self).mode is Preferences && old(self).mode->Preferences_0.view is Ready)
                ==> msg_is(
                final(self).mode->Preferences_0.view->Ready_0.message,
                if old(self).mode->Preferences_0.view->Ready_0.saving {
                    "Preferences saved"@
                } else {
                    "Preferences reloaded"@
                },
            ),
            (result is Err && old(self).mode is Preferences && old(self).mode->Preferences_0.view is Ready)
                ==> final(self).mode->Preferences_0.view is Ready
                && final(self).mode->Preferences_0.view->Ready_0.prefs
                == old(self).mode->Preferences_0.view->Ready_0.prefs
                && !final(self).mode->Preferences_0.view->Ready_0.saving && msg_is(
                final(self).mode->Preferences_0.view->Ready_0.message,
                error_text(result->Err_0),
            ),
            (result is Err && old(self).mode is Preferences && !(old(self).mode->Preferences_0.view is Ready))
                ==> final(self).mode->Preferences_0.view is Error
                && final(self).mode->Preferences_0.view->Error_0@ == error_text(result->Err_0),
    {
        match result {
            Ok(prefs) => {
                self.preferences_cache = Some(prefs.clone());
                if let InputMode::Preferences(state) = &mut self.mode {
                    state.apply_loaded(prefs);
                }
            },
            Err(err) => {
                let detail = err.describe();
                let mut message = String::from_str("Preferences error: ");
                message.append(detail.as_str());
                if let InputMode::Preferences(state) = &mut self.mode {
                    state.apply_error(detail);
                }
                self.set_status(StatusUpdate::error(message), now);
            },
        }
    }

    /// Opens the preferences dialog, showing the cached preferences when there
    /// are any, and asks for fresh ones.
    pub fn open_preferences(&mut self) -> (r: RpcCommand)
        requires
            old(self).wf(),
        ensures
            final(self).delete_armed_until == old(self).delete_armed_until,
            final(self).delete_armed == old(self).delete_armed,
            final(self).should_quit == old(self).should_quit,
            final(self).wf(),
            r is FetchPreferences,
            final(self).mode is Preferences,
            old(self).preferences_cache is Some ==> (final(self).mode->Preferences_0.view is Ready
                && final(self).mode->Preferences_0.view->Ready_0.prefs
                == old(self).preferences_cache->Some_0
                && !final(self).mode->Preferences_0.view->Ready_0.dirty),
            old(self).preferences_cache is None ==> final(self).mode->Preferences_0.view is Loading,
            final(self).selected == old(self).selected,
            final(self).filtered_indices == old(self).filtered_indices,
    {
        let mut state = match &self.preferences_cache {
            Some(cache) => PreferencesState::from_cache(cache.clone()),
            None => PreferencesState::loading(),
        };
        state.mark_refreshing();
        self.mode = InputMode::Preferences(state);
        RpcCommand::FetchPreferences
    }

    fn queue_refresh(&mut self, now: u64) -> (r: RpcCommand)
        requires
            old(self).wf(),
        ensures
            final(self).delete_armed_until == old(self).delete_armed_until,
            final(self).wf(),
            r is Refresh,
            final(self).pending_manual_refresh,
            final(self).status matches Some(m) && m.level == StatusLevel::Info && m.text@ == "Refreshing…"@,
            final(self).mode == old(self).mode,
            final(self).selected == old(self).selected,
            final(self).filtered_indices == old(self).filtered_indices,
            final(self).delete_armed == old(self).delete_armed,
    {
        self.pending_manual_refresh = true;
        self.info("Refreshing…", now);
        RpcCommand::Refresh
    }

    fn arm_delete(&mut self, now: u64)
        requires
            old(self).wf(),
        ensures
            final(self).wf(),
            final(self).status matches Some(m) && m.level == StatusLevel::Info
                && m.text@ == "Press d again to delete the selected torrent"@,
            *final(self) == (App {
                delete_armed: true,
                delete_armed_until: Some(later(now, DELETE_WINDOW_MS)),
                status: final(self).status,
                ..*old(self)
            }),
    {
        self.delete_armed = true;
        self.delete_armed_until = Some(after(now, DELETE_WINDOW_MS));
        self.info("Press d again to delete the selected torrent", now);
    }

    /// Opens the removal confirmation for the selected torrent.
    fn prompt_delete_current(&mut self, now: u64)
        requires
            old(self).wf(),
        ensures
            final(self).delete_armed_until == old(self).delete_armed_until,
            final(self).wf(),
            final(self).selected == old(self).selected,
            final(self).filtered_indices == old(self).filtered_indices,
            final(self).delete_armed == old(self).delete_armed,
            old(self).selected is Some ==> final(self).confirms_removal_of(*old(self)),
            old(self).selected is None ==> final(self).mode == old(self).mode && (final(self).status matches Some(m) && m.level == StatusLevel::Error && m.text@
                == "No torrent selected to delete"@),
    {
        let target = match self.current_torrent() {
            Some(t) => Some((t.name.clone(), t.torrent_id)),
            None => None,
        };
        match target {
            Some((name, id)) => {
                self.mode = InputMode::Confirm(ConfirmState::remove_torrent(name, id));
            },
            None => {
                self.set_status(StatusUpdate::error(String::from_str("No torrent selected to delete")), now);
            },
        }
    }

    /// Asks to resume or pause the selected torrent.
    fn act_on_selected(&mut self, resume: bool, now: u64) -> (r: Option<RpcCommand>)
        requires
            old(self).wf(),
        ensures
            final(self).delete_armed_until == old(self).delete_armed_until,
            final(self).wf(),
            final(self).mode == old(self).mode,
            final(self).selected == old(self).selected,
            final(self).filtered_indices == old(self).filtered_indices,
            final(self).delete_armed == old(self).delete_armed,
            acted_on(*old(self), *final(self), r, resume),
    {
        let target = match self.current_torrent() {
            Some(t) => Some((t.name.clone(), t.torrent_id)),
            None => None,
        };
        match target {
            Some((name, id)) => {
                let mut text = String::from_str(if resume {
                    "Resuming "
                } else {
                    "Pausing "
                });
                text.append(name.as_str());
                text.append("…");
                self.set_status(StatusUpdate::info(text), now);
                if resume {
                    Some(RpcCommand::ResumeTorrent { id, name })
                } else {
                    Some(RpcCommand::PauseTorrent { id, name })
                }
            },
            None => {
                let text = if resume {
                    "No torrent selected; cannot resume"
                } else {
                    "No torrent selected; cannot pause"
                };
                self.set_status(StatusUpdate::warning(String::from_str(text)), now);
                None
            },
        }
    }

    /// One key press at instant `now`: Ctrl+c quits from anywhere; otherwise
    /// the open dialog takes the key, or the normal-mode bindings apply.
    /// Returns the command to send, if any.
    #[verifier::rlimit(40)]
    pub fn handle_key(&mut self, key: KeyPress, now: u64) -> (r: Option<RpcCommand>)
        requires
            old(self).wf(),
        ensures
            final(self).wf(),
            is_quit_key(key) ==> r is None && *final(self) == (App { should_quit: true, ..*old(self) }),
            !is_quit_key(key) && old(self).mode is Normal ==> normal_key_effect(
                *old(self),
                *final(self),
                key,
                now,
                r,
            ),
            !is_quit_key(key) && old(self).mode is Filter ==> r is None,
            (!is_quit_key(key) && old(self).mode is Filter && key.code == KeyCode::Enter) ==> {
                &&& final(self).mode is Normal
                &&& final(self).filter_text@ == trimmed(old(self).mode->buffer@)
                &&& final(self).filter_lower@ == lower_of(final(self).filter_text@)
                &&& final(self).view_exact()
                &&& final(self).selection_settled(*old(self))
            },
            (!is_quit_key(key) && old(self).mode is Filter && key.code == KeyCode::Esc) ==> *final(self)
                == (App { mode: InputMode::Normal, ..*old(self) }),
            (!is_quit_key(key) && old(self).mode is Filter && key.code is Char) ==> final(self).mode is Filter
                && final(self).mode->buffer@ == old(self).mode->buffer@.push(key.code->Char_0),
            (!is_quit_key(key) && old(self).mode is Prompt && key.code == KeyCode::Enter && trimmed(
                old(self).mode->Prompt_0.buffer@,
            ).len() == 0) ==> final(self).mode is Normal && r is None && final(self).status
                == old(self).status,
            (!is_quit_key(key) && old(self).mode is Prompt && key.code == KeyCode::Enter && trimmed(
                old(self).mode->Prompt_0.buffer@,
            ).len() > 0) ==> {
                &&& final(self).mode is Normal
                &&& r matches Some(RpcCommand::AddMagnet(m)) && m@ == trimmed(old(self).mode->Prompt_0.buffer@)
                &&& final(self).status matches Some(s) && s.level == StatusLevel::Info && s.text@
                    == "Submitting magnet…"@
            },
            (!is_quit_key(key) && old(self).mode is Confirm && (is_char(key, 'y') || key.code
                == KeyCode::Enter)) ==> {
                let c = old(self).mode->Confirm_0;
                &&& final(self).mode is Normal
                &&& r matches Some(RpcCommand::RemoveTorrent { id, name, delete_data }) && id
                    == c.target_id && name == c.target_name && delete_data == c.delete_data
                &&& final(self).status matches Some(s) && s.level == StatusLevel::Info && s.text@
                    == "Removing "@ + c.target_name@ + "…"@
            },
            (!is_quit_key(key) && old(self).mode is Confirm && (is_char(key, 'n') || key.code
                == KeyCode::Esc)) ==> final(self).mode is Normal && r is None && (final(self).status matches Some(s)
                && s.level == StatusLevel::Info && s.text@ == "Deletion cancelled"@),
            !is_quit_key(key) && old(self).mode is Help ==> r is None && ((is_char(key, '?') || is_char(key, 'q') || key.code == KeyCode::Esc || key.code == KeyCode::Enter)
                ==> final(self).mode is Normal),
            (!is_quit_key(key) && old(self).mode is Preferences) ==> (if closes_dialog(
                old(self).mode->Preferences_0,
                key,
            ) {
                final(self).mode is Normal && r is None
            } else {
                final(self).mode is Preferences && dialog_key_effect(
                    old(self).mode->Preferences_0,
                    key,
                    final(self).mode->Preferences_0,
                    r,
                )
            }),
            (!is_quit_key(key) && old(self).mode is Filter && key.code == KeyCode::Backspace) ==> r is None
                && final(self).mode is Filter && final(self).mode->buffer@ == (if old(self).mode->buffer@.len() > 0 {
                old(self).mode->buffer@.drop_last()
            } else {
                old(self).mode->buffer@
            }),
            (!is_quit_key(key) && old(self).mode is Prompt && key.code == KeyCode::Esc) ==> r is None
                && *final(self) == (App { mode: InputMode::Normal, ..*old(self) }),
            (!is_quit_key(key) && old(self).mode is Prompt && key.code is Char) ==> r is None
                && final(self).mode is Prompt && final(self).mode->Prompt_0.title
                == old(self).mode->Prompt_0.title && final(self).mode->Prompt_0.buffer@
                == old(self).mode->Prompt_0.buffer@.push(key.code->Char_0),
            (!is_quit_key(key) && old(self).mode is Prompt && key.code == KeyCode::Backspace) ==> r is None
                && final(self).mode is Prompt && final(self).mode->Prompt_0.title
                == old(self).mode->Prompt_0.title && final(self).mode->Prompt_0.buffer@ == (if old(self).mode->Prompt_0.buffer@.len() > 0 {
                old(self).mode->Prompt_0.buffer@.drop_last()
            } else {
                old(self).mode->Prompt_0.buffer@
            }),
            (!is_quit_key(key) && old(self).mode is Help && !(is_char(key, '?') || is_char(key, 'q')
                || key.code == KeyCode::Esc || key.code == KeyCode::Enter)) ==> r is None && *final(self)
                == *old(self),
            (!is_quit_key(key) && old(self).mode is Confirm && !(is_char(key, 'y') || is_char(key, 'n')
                || key.code == KeyCode::Esc || key.code == KeyCode::Enter)) ==> r is None && *final(self)
                == *old(self),
    {
        if key.ctrl && key.code == KeyCode::Char('c') {
            self.should_quit = true;
            return None;
        }
        let kind: u8 = match &self.mode {
            InputMode::Normal => 0,
            InputMode::Filter { .. } => 1,
            InputMode::Prompt(_) => 2,
            InputMode::Confirm(_) => 3,
            InputMode::Help => 4,
            InputMode::Preferences(_) => 5,
        };
        if kind == 0 {
            return self.handle_normal_key(key, now);
        }
        if kind == 1 {
            let mut apply: Option<String> = None;
            let mut cancel = false;
            if let InputMode::Filter { buffer } = &mut self.mode {
                match key.code {
                    KeyCode::Enter => {
                        apply = Some(trim(buffer.as_str()));
                    },
                    KeyCode::Esc => {
                        cancel = true;
                    },
                    KeyCode::Backspace => {
                        pop_char(buffer);
                    },
                    KeyCode::Char(c) => {
                        push_char(buffer, c);
                    },
                    _ => {},
                }
            }
            if let Some(value) = apply {
                self.mode = InputMode::Normal;
                self.apply_filter_text(value);
            } else if cancel {
                self.mode = InputMode::Normal;
            }
            return None;
        }
        if kind == 2 {
            let mut submit: Option<String> = None;
            let mut cancel = false;
            if let InputMode::Prompt(prompt) = &mut self.mode {
                match key.code {
                    KeyCode::Enter => {
                        let value = trim(prompt.buffer.as_str());
                        if value.as_str().unicode_len() == 0 {
                            cancel = true;
                        } else {
                            submit = Some(value);
                        }
                    },
                    KeyCode::Esc => {
                        cancel = true;
                    },
                    KeyCode::Backspace => {
                        pop_char(&mut prompt.buffer);
                    },
                    KeyCode::Char(c) => {
                        push_char(&mut prompt.buffer, c);
                    },
                    _ => {},
                }
            }
            if let Some(value) = submit {
                self.mode = InputMode::Normal;
                self.info("Submitting magnet…", now);
                return Some(RpcCommand::AddMagnet(value));
            } else if cancel {
                self.mode = InputMode::Normal;
            }
            return None;
        }
        if kind == 3 {
            let accept = key.code == KeyCode::Char('y') || key.code == KeyCode::Enter;
            let decline = key.code == KeyCode::Char('n') || key.code == KeyCode::Esc;
            if !accept && !decline {
                return None;
            }
            let mut mode = InputMode::Normal;
            core::mem::swap(&mut self.mode, &mut mode);
            if let InputMode::Confirm(confirm) = mode {
                if accept {
                    let mut text = String::from_str("Removing ");
                    text.append(confirm.target_name.as_str());
                    text.append("…");
                    self.set_status(StatusUpdate::info(text), now);
                    return Some(
                        RpcCommand::RemoveTorrent {
                            id: confirm.target_id,
                            name: confirm.target_name,
                            delete_data: confirm.delete_data,
                        },
                    );
                } else {
                    self.info("Deletion cancelled", now);
                }
            }
            return None;
        }
        if kind == 4 {
            match key.code {
                KeyCode::Char('?') | KeyCode::Esc | KeyCode::Enter | KeyCode::Char('q') => {
                    self.mode = InputMode::Normal;
                },
                _ => {},
            }
            return None;
        }
        let mut close = false;
        let mut command: Option<RpcCommand> = None;
        if let InputMode::Preferences(state) = &mut self.mode {
            let result = state.handle_key(key);
            close = result.close;
            command = result.command;
        }
        if close {
            self.mode = InputMode::Normal;
        }
        command
    }

    /// Normal-mode bindings. A plain `d` arms deletion for a short window and
    /// a second plain `d` inside it opens the removal confirmation; any other
    /// key disarms.
    #[verifier::rlimit(40)]
    pub fn handle_normal_key(&mut self, key: KeyPress, now: u64) -> (r: Option<RpcCommand>)
        requires
            old(self).wf(),
        ensures
            final(self).wf(),
            normal_key_effect(*old(self), *final(self), key, now, r),
    {
        let plain_d = key.code == KeyCode::Char('d') && key.is_plain();
        if !plain_d {
            self.disarm_delete();
        }
        match key.code {
            KeyCode::Char('q') => {
                self.should_quit = true;
                None
            },
            KeyCode::Char('r') => {
                if key.shift {
                    Some(self.queue_refresh(now))
                } else {
                    self.act_on_selected(true, now)
                }
            },
            KeyCode::Char('R') => Some(self.queue_refresh(now)),
            KeyCode::Char('p') => self.act_on_selected(false, now),
            KeyCode::Char('a') => {
                self.mode = InputMode::Prompt(PromptState::new("Add magnet"));
                None
            },
            KeyCode::Char('/') => {
                self.mode = InputMode::Filter { buffer: self.filter_text.clone() };
                None
            },
            KeyCode::Char('j') => {
                self.move_selection(1);
                None
            },
            KeyCode::Char('k') => {
                self.move_selection(-1);
                None
            },
            KeyCode::Char('g') => {
                if key.shift {
                    self.goto_bottom();
                } else {
                    self.goto_top();
                }
                None
            },
            KeyCode::Char('G') => {
                self.goto_bottom();
                None
            },
            KeyCode::Char('o') => Some(self.open_preferences()),
            KeyCode::Char('?') => {
                self.mode = InputMode::Help;
                None
            },
            KeyCode::Char('d') => {
                if plain_d {
                    let live = match self.delete_armed_until {
                        Some(u) => now < u,
                        None => false,
                    };
                    if self.delete_armed && live {
                        self.disarm_delete();
                        self.prompt_delete_current(now);
                    } else {
                        self.arm_delete(now);
                    }
                } else if key.ctrl {
                    self.move_selection(5);
                }
                None
            },
            KeyCode::Char('u') => {
                if key.ctrl {
                    self.move_selection(-5);
                }
                None
            },
            KeyCode::Esc => {
                self.clear_filter();
                None
            },
            _ => None,
        }
    }

    /// Pasted text goes into the open text buffer (filter, prompt, or the
    /// preferences editor); in normal mode it opens the magnet prompt holding it.
    pub fn handle_paste(&mut self, data: String)
        requires
            old(self).wf(),
        ensures
            final(self).wf(),
            old(self).mode is Normal ==> final(self).mode is Prompt && final(self).mode->Prompt_0.buffer@ == data@,
            old(self).mode is Filter ==> final(self).mode is Filter && final(self).mode->buffer@
                == old(self).mode->buffer@ + data@,
            old(self).mode is Prompt ==> final(self).mode is Prompt && final(self).mode->Prompt_0.buffer@
                == old(self).mode->Prompt_0.buffer@ + data@,
            old(self).mode is Confirm || old(self).mode is Help ==> final(self).mode == old(self).mode,
            old(self).mode is Preferences ==> final(self).mode is Preferences,
            (old(self).mode is Preferences && old(self).mode->Preferences_0.view is Ready
                && old(self).mode->Preferences_0.view->Ready_0.editing is Some) ==> {
                let f = old(self).mode->Preferences_0.view->Ready_0;
                let g = final(self).mode->Preferences_0.view->Ready_0;
                &&& final(self).mode->Preferences_0.view is Ready
                &&& g.editing is Some && g.editing->Some_0.field == f.editing->Some_0.field
                &&& g.editing->Some_0.buffer@ == f.editing->Some_0.buffer@ + data@
                &&& g.prefs == f.prefs && g.selected == f.selected && g.dirty == f.dirty
                &&& g.saving == f.saving && g.message == f.message
            },
            (old(self).mode is Preferences && !(old(self).mode->Preferences_0.view is Ready
                && old(self).mode->Preferences_0.view->Ready_0.editing is Some)) ==> final(self).mode
                == old(self).mode,
    {
        match &mut self.mode {
            InputMode::Filter { buffer } => {
                buffer.append(data.as_str());
            },
            InputMode::Prompt(prompt) => {
                prompt.buffer.append(data.as_str());
            },
            InputMode::Normal => {
                let mut prompt = PromptState::new("Add magnet");
                prompt.buffer.append(data.as_str());
                self.mode = InputMode::Prompt(prompt);
            },
            InputMode::Preferences(state) => {
                if let PreferencesView::Ready(form) = &mut state.view {
                    if let Some(editor) = &mut form.editing {
                        editor.buffer.append(data.as_str());
                    }
                }
            },
            _ => {},
        }
    }
}

/// The effect of resuming (or pausing) the selected torrent: the command
/// for its id and name with an info status, or a warning without a selection.
pub open spec fn acted_on(o: App, n: App, r: Option<RpcCommand>, resume: bool) -> bool {
    if o.selected is Some {
        let t = o.selected_torrent();
        &&& match r {
            Some(RpcCommand::ResumeTorrent { id, name }) => resume && id == t.torrent_id && name == t.name,
            Some(RpcCommand::PauseTorrent { id, name }) => !resume && id == t.torrent_id && name == t.name,
            _ => false,
        }
        &&& n.status matches Some(m) && m.level == StatusLevel::Info && m.text@ == (if resume {
            "Resuming "@
        } else {
            "Pausing "@
        }) + t.name@ + "…"@
    } else {
        &&& r is None
        &&& n.status matches Some(m) && m.level == StatusLevel::Warning && m.text@ == (if resume {
            "No torrent selected; cannot resume"@
        } else {
            "No torrent selected; cannot pause"@
        })
    }
}

/// Torrent ids within a snapshot are pairwise distinct.
pub open spec fn ids_distinct(ts: Seq<TorrentSummary>) -> bool {
    forall|a: int, b: int|
        0 <= a < ts.len() && 0 <= b < ts.len() && a != b ==> ts[a].torrent_id != ts[b].torrent_id
}

/// With distinct ids, a settled selection whose pending focus names a torrent
/// that passes the filter lands on that torrent's row.
pub proof fn lemma_focus_selects_its_row(n: App, before: App, j: int)
    requires
        n.wf(),
        n.view_exact(),
        n.selection_settled(before),
        ids_distinct(n.torrents()),
        0 <= j < n.torrents().len(),
        before.pending_focus == Some(n.torrents()[j].torrent_id),
        n.passes(j),
    ensures
        n.selected matches Some(k) && n.filtered_indices@[k as int] == j,
        n.selected_id == before.pending_focus,
{
    let i = choose|i: int| 0 <= i < n.filtered_indices@.len() && n.filtered_indices@[i] == j;
    assert(id_in(n.torrents(), n.filtered_indices@, i) == n.torrents()[j].torrent_id);
    assert(n.shows(n.torrents()[j].torrent_id));
    let k = n.selected->Some_0;
    assert(n.filtered_indices@[k as int] < n.torrents().len());
}

/// Ctrl+c, which quits from any mode.
pub open spec fn is_quit_key(k: KeyPress) -> bool {
    k.ctrl && is_char(k, 'c')
}

/// What a normal-mode key does, from state `o` to state `n` with command
/// `r`.
pub open spec fn normal_key_effect(o: App, n: App, key: KeyPress, now: u64, r: Option<RpcCommand>) -> bool {
    &&& !(is_char(key, 'd') && key.spec_plain()) ==> !n.delete_armed && n.delete_armed_until is None
    &&& is_char(key, 'q') ==> n.should_quit && r is None && n.mode == o.mode
    &&& (is_char(key, 'd') && key.spec_plain() && !o.armed_at(now)) ==> r is None && (n.status matches Some(m)
        && m.level == StatusLevel::Info && m.text@ == "Press d again to delete the selected torrent"@)
        && n == (App {
        delete_armed: true,
        delete_armed_until: Some(later(now, DELETE_WINDOW_MS)),
        status: n.status,
        ..o
    })
    &&& (is_char(key, 'd') && key.spec_plain() && o.armed_at(now)) ==> !n.delete_armed
        && n.delete_armed_until is None && r is None && (o.selected is Some
        ==> n.confirms_removal_of(o)) && (o.selected is None ==> n.mode == o.mode)
    &&& (key.code == KeyCode::Esc && o.filter_text@.len() == 0) ==> r is None && n == (App {
        delete_armed: false,
        delete_armed_until: None,
        ..o
    })
    &&& (key.code == KeyCode::Esc && o.filter_text@.len() > 0) ==> r is None && n.mode == o.mode
        && n.filter_text@.len() == 0 && n.view_exact() && n.selection_settled(o)
    &&& (is_char(key, '/') ==> n.mode is Filter && n.mode->buffer
                == o.filter_text)
    &&& (is_char(key, 'a') ==> n.mode is Prompt && n.mode->Prompt_0.buffer@.len() == 0)
    &&& (is_char(key, '?') ==> n.mode is Help)
    &&& (is_char(key, 'o') ==> n.mode is Preferences && r matches Some(RpcCommand::FetchPreferences))
    &&& (is_char(key, 'g') && !key.shift && o.filtered_indices@.len() > 0) ==> n.selected == Some(0usize)
    &&& (is_char(key, 'G') || (is_char(key, 'g') && key.shift)) ==> n.selected == o.at_bottom()
    &&& is_char(key, 'j') ==> n.selected == o.moved(1i64)
    &&& is_char(key, 'k') ==> n.selected == o.moved(-1i64)
    &&& (is_char(key, 'd') && key.ctrl) ==> n.selected == o.moved(5i64)
    &&& (is_char(key, 'u') && key.ctrl) ==> n.selected == o.moved(-5i64)
    &&& (is_char(key, 'r') && !key.shift) ==> acted_on(o, n, r, true)
    &&& is_char(key, 'p') ==> acted_on(o, n, r, false)
    &&& (is_char(key, 'R') || (is_char(key, 'r') && key.shift)) ==> (r matches Some(RpcCommand::Refresh))
        && n.pending_manual_refresh && (n.status matches Some(m) && m.level == StatusLevel::Info
        && m.text@ == "Refreshing…"@)
    &&& is_char(key, 'o') ==> (o.preferences_cache is Some ==> (n.mode->Preferences_0.view is Ready
        && n.mode->Preferences_0.view->Ready_0.prefs == o.preferences_cache->Some_0
        && !n.mode->Preferences_0.view->Ready_0.dirty)) && (o.preferences_cache is None
        ==> n.mode->Preferences_0.view is Loading)
}

/// How long a first `d` stays armed, in milliseconds.
pub const DELETE_WINDOW_MS: u64 = 2000;

} // verus!
