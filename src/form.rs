//! The preferences form: its fields, how each is shown and edited, and the
//! sub-machine of the preferences dialog.
use vstd::prelude::*;
use vstd::string::*;

use crate::events::{KeyCode, KeyPress, RpcCommand};
use crate::numbers::{centi_display, centi_text, format_centi, i64_text, parse_centi, parse_i64};
use crate::preferences::{encryption_label, DaemonPreferences, EncryptionMode, PrefsView};
use crate::text::{decimal, pop_char, push_char, trim, trimmed, u64_to_string};

verus! {

/// The editable preferences, in form order.
#[derive(Clone, Copy, Debug, PartialEq, Eq, Structural)]
pub enum PreferenceField {
    DownloadDir,
    StartWhenAdded,
    SpeedLimitUpEnabled,
    SpeedLimitUp,
    SpeedLimitDownEnabled,
    SpeedLimitDown,
    SeedRatioLimited,
    SeedRatioLimit,
    IdleSeedingEnabled,
    IdleSeedingLimit,
    PeerLimitPerTorrent,
    PeerLimitGlobal,
    Encryption,
    PexEnabled,
    DhtEnabled,
    LpdEnabled,
    BlocklistEnabled,
    BlocklistUrl,
}

/// The field shown at a position of the form.
pub open spec fn form_field(i: int) -> PreferenceField {
    if i == 0 {
        PreferenceField::DownloadDir
    } else if i == 1 {
        PreferenceField::StartWhenAdded
    } else if i == 2 {
        PreferenceField::SpeedLimitUpEnabled
    } else if i == 3 {
        PreferenceField::SpeedLimitUp
    } else if i == 4 {
        PreferenceField::SpeedLimitDownEnabled
    } else if i == 5 {
        PreferenceField::SpeedLimitDown
    } else if i == 6 {
        PreferenceField::SeedRatioLimited
    } else if i == 7 {
        PreferenceField::SeedRatioLimit
    } else if i == 8 {
        PreferenceField::IdleSeedingEnabled
    } else if i == 9 {
        PreferenceField::IdleSeedingLimit
    } else if i == 10 {
        PreferenceField::PeerLimitPerTorrent
    } else if i == 11 {
        PreferenceField::PeerLimitGlobal
    } else if i == 12 {
        PreferenceField::Encryption
    } else if i == 13 {
        PreferenceField::PexEnabled
    } else if i == 14 {
        PreferenceField::DhtEnabled
    } else if i == 15 {
        PreferenceField::LpdEnabled
    } else if i == 16 {
        PreferenceField::BlocklistEnabled
    } else {
        PreferenceField::BlocklistUrl
    }
}

/// The number of fields in the form.
pub const FORM_LEN: usize = 18;

pub fn field_at(i: usize) -> (r: PreferenceField)
    requires
        i < FORM_LEN,
    ensures
        r == form_field(i as int),
{
    if i == 0 {
        PreferenceField::DownloadDir
    } else if i == 1 {
        PreferenceField::StartWhenAdded
    } else if i == 2 {
        PreferenceField::SpeedLimitUpEnabled
    } else if i == 3 {
        PreferenceField::SpeedLimitUp
    } else if i == 4 {
        PreferenceField::SpeedLimitDownEnabled
    } else if i == 5 {
        PreferenceField::SpeedLimitDown
    } else if i == 6 {
        PreferenceField::SeedRatioLimited
    } else if i == 7 {
        PreferenceField::SeedRatioLimit
    } else if i == 8 {
        PreferenceField::IdleSeedingEnabled
    } else if i == 9 {
        PreferenceField::IdleSeedingLimit
    } else if i == 10 {
        PreferenceField::PeerLimitPerTorrent
    } else if i == 11 {
        PreferenceField::PeerLimitGlobal
    } else if i == 12 {
        PreferenceField::Encryption
    } else if i == 13 {
        PreferenceField::PexEnabled
    } else if i == 14 {
        PreferenceField::DhtEnabled
    } else if i == 15 {
        PreferenceField::LpdEnabled
    } else if i == 16 {
        PreferenceField::BlocklistEnabled
    } else {
        PreferenceField::BlocklistUrl
    }
}

pub open spec fn field_label(f: PreferenceField) -> Seq<char> {
    match f {
        PreferenceField::DownloadDir => "Download to"@,
        PreferenceField::StartWhenAdded => "Start when added"@,
        PreferenceField::SpeedLimitUpEnabled => "Upload limit enabled"@,
        PreferenceField::SpeedLimitUp => "Upload limit (KiB/s)"@,
        PreferenceField::SpeedLimitDownEnabled => "Download limit enabled"@,
        PreferenceField::SpeedLimitDown => "Download limit (KiB/s)"@,
        PreferenceField::SeedRatioLimited => "Stop at ratio"@,
        PreferenceField::SeedRatioLimit => "Ratio limit"@,
        PreferenceField::IdleSeedingEnabled => "Stop if idle"@,
        PreferenceField::IdleSeedingLimit => "Idle minutes"@,
        PreferenceField::PeerLimitPerTorrent => "Peers per torrent"@,
        PreferenceField::PeerLimitGlobal => "Peers overall"@,
        PreferenceField::Encryption => "Encryption mode"@,
        PreferenceField::PexEnabled => "Use PEX"@,
        PreferenceField::DhtEnabled => "Use DHT"@,
        PreferenceField::LpdEnabled => "Use LPD"@,
        PreferenceField::BlocklistEnabled => "Enable blocklist"@,
        PreferenceField::BlocklistUrl => "Blocklist URL"@,
    }
}

/// Fields edited as text.
pub open spec fn needs_editor(f: PreferenceField) -> bool {
    f == PreferenceField::DownloadDir || f == PreferenceField::SpeedLimitUp || f == PreferenceField::SpeedLimitDown || f == PreferenceField::SeedRatioLimit || f == PreferenceField::IdleSeedingLimit || f == PreferenceField::PeerLimitPerTorrent || f == PreferenceField::PeerLimitGlobal || f == PreferenceField::BlocklistUrl
}

/// On/off fields.
pub open spec fn is_toggle(f: PreferenceField) -> bool {
    f == PreferenceField::StartWhenAdded || f == PreferenceField::SpeedLimitUpEnabled || f == PreferenceField::SpeedLimitDownEnabled || f == PreferenceField::SeedRatioLimited || f == PreferenceField::IdleSeedingEnabled || f == PreferenceField::PexEnabled || f == PreferenceField::DhtEnabled || f == PreferenceField::LpdEnabled || f == PreferenceField::BlocklistEnabled
}

/// The preferences with an on/off field flipped; other fields leave them as they are.
pub open spec fn toggled(p: PrefsView, f: PreferenceField) -> PrefsView {
    match f {
        PreferenceField::StartWhenAdded => PrefsView { start_when_added: !p.start_when_added, ..p },
        PreferenceField::SpeedLimitUpEnabled => PrefsView { speed_limit_up_enabled: !p.speed_limit_up_enabled, ..p },
        PreferenceField::SpeedLimitDownEnabled => PrefsView { speed_limit_down_enabled: !p.speed_limit_down_enabled, ..p },
        PreferenceField::SeedRatioLimited => PrefsView { seed_ratio_limited: !p.seed_ratio_limited, ..p },
        PreferenceField::IdleSeedingEnabled => PrefsView { idle_seeding_limit_enabled: !p.idle_seeding_limit_enabled, ..p },
        PreferenceField::PexEnabled => PrefsView { pex_enabled: !p.pex_enabled, ..p },
        PreferenceField::DhtEnabled => PrefsView { dht_enabled: !p.dht_enabled, ..p },
        PreferenceField::LpdEnabled => PrefsView { lpd_enabled: !p.lpd_enabled, ..p },
        PreferenceField::BlocklistEnabled => PrefsView { blocklist_enabled: !p.blocklist_enabled, ..p },
        _ => p,
    }
}

impl PreferenceField {
    pub fn label(&self) -> (r: &'static str)
        ensures
            r@ == field_label(*self),
    {
        match self {
            PreferenceField::DownloadDir => "Download to",
            PreferenceField::StartWhenAdded => "Start when added",
            PreferenceField::SpeedLimitUpEnabled => "Upload limit enabled",
            PreferenceField::SpeedLimitUp => "Upload limit (KiB/s)",
            PreferenceField::SpeedLimitDownEnabled => "Download limit enabled",
            PreferenceField::SpeedLimitDown => "Download limit (KiB/s)",
            PreferenceField::SeedRatioLimited => "Stop at ratio",
            PreferenceField::SeedRatioLimit => "Ratio limit",
            PreferenceField::IdleSeedingEnabled => "Stop if idle",
            PreferenceField::IdleSeedingLimit => "Idle minutes",
            PreferenceField::PeerLimitPerTorrent => "Peers per torrent",
            PreferenceField::PeerLimitGlobal => "Peers overall",
            PreferenceField::Encryption => "Encryption mode",
            PreferenceField::PexEnabled => "Use PEX",
            PreferenceField::DhtEnabled => "Use DHT",
            PreferenceField::LpdEnabled => "Use LPD",
            PreferenceField::BlocklistEnabled => "Enable blocklist",
            PreferenceField::BlocklistUrl => "Blocklist URL",
        }
    }

    pub fn requires_editor(&self) -> (r: bool)
        ensures
            r == needs_editor(*self),
    {
        match self {
            PreferenceField::DownloadDir | PreferenceField::SpeedLimitUp | PreferenceField::SpeedLimitDown | PreferenceField::SeedRatioLimit | PreferenceField::IdleSeedingLimit | PreferenceField::PeerLimitPerTorrent | PreferenceField::PeerLimitGlobal | PreferenceField::BlocklistUrl => true,
            _ => false,
        }
    }

    /// Flips an on/off field; `false` for any other field.
    pub fn toggle(&self, prefs: &mut DaemonPreferences) -> (r: bool)
        ensures
            r == is_toggle(*self),
            final(prefs)@ == toggled(old(prefs)@, *self),
    {
        match self {
            PreferenceField::StartWhenAdded => {
                prefs.start_when_added = !prefs.start_when_added;
                true
            },
            PreferenceField::SpeedLimitUpEnabled => {
                prefs.speed_limit_up_enabled = !prefs.speed_limit_up_enabled;
                true
            },
            PreferenceField::SpeedLimitDownEnabled => {
                prefs.speed_limit_down_enabled = !prefs.speed_limit_down_enabled;
                true
            },
            PreferenceField::SeedRatioLimited => {
                prefs.seed_ratio_limited = !prefs.seed_ratio_limited;
                true
            },
            PreferenceField::IdleSeedingEnabled => {
                prefs.idle_seeding_limit_enabled = !prefs.idle_seeding_limit_enabled;
                true
            },
            PreferenceField::PexEnabled => {
                prefs.pex_enabled = !prefs.pex_enabled;
                true
            },
            PreferenceField::DhtEnabled => {
                prefs.dht_enabled = !prefs.dht_enabled;
                true
            },
            PreferenceField::LpdEnabled => {
                prefs.lpd_enabled = !prefs.lpd_enabled;
                true
            },
            PreferenceField::BlocklistEnabled => {
                prefs.blocklist_enabled = !prefs.blocklist_enabled;
                true
            },
            _ => false,
        }
    }
}
pub open spec fn toggle_text(v: bool) -> Seq<char> {
    if v {
        "On"@
    } else {
        "Off"@
    }
}

pub fn toggle_label(value: bool) -> (r: String)
    ensures
        r@ == toggle_text(value),
{
    if value {
        String::from_str("On")
    } else {
        String::from_str("Off")
    }
}

pub open spec fn speed_limit_text(v: u32) -> Seq<char> {
    if v == 0 {
        "Unlimited"@
    } else {
        decimal(v as nat) + " KiB/s"@
    }
}

pub fn format_speed_limit(value: u32) -> (r: String)
    ensures
        r@ == speed_limit_text(value),
{
    if value == 0 {
        String::from_str("Unlimited")
    } else {
        let mut s = u64_to_string(value as u64);
        s.append(" KiB/s");
        s
    }
}

/// An integer entry that may be zero: the number, or the message to show.
pub open spec fn non_negative_result(input: Seq<char>, label: Seq<char>) -> Result<u32, Seq<char>> {
    match i64_text(trimmed(input)) {
        None => Err("Enter a valid number for "@ + label),
        Some(v) => if v < 0 {
            Err(label + " must be zero or positive"@)
        } else if v > u32::MAX {
            Err(label + " is too large"@)
        } else {
            Ok(v as u32)
        },
    }
}

/// An integer entry that must be above zero: the number, or the message to show.
pub open spec fn positive_result(input: Seq<char>, label: Seq<char>) -> Result<u32, Seq<char>> {
    match i64_text(trimmed(input)) {
        None => Err("Enter a valid number for "@ + label),
        Some(v) => if v <= 0 {
            Err(label + " must be greater than zero"@)
        } else if v > u32::MAX {
            Err(label + " is too large"@)
        } else {
            Ok(v as u32)
        },
    }
}

pub open spec fn text_result_matches(r: Result<u32, String>, s: Result<u32, Seq<char>>) -> bool {
    match (r, s) {
        (Ok(a), Ok(b)) => a == b,
        (Err(a), Err(b)) => a@ == b,
        _ => false,
    }
}

fn invalid_number(label: &str) -> (r: String)
    ensures
        r@ == "Enter a valid number for "@ + label@,
{
    let mut m = String::from_str("Enter a valid number for ");
    m.append(label);
    m
}

pub fn parse_non_negative(input: &str, label: &str) -> (r: Result<u32, String>)
    ensures
        text_result_matches(r, non_negative_result(input@, label@)),
{
    let t = trim(input);
    match parse_i64(t.as_str()) {
        None => Err(invalid_number(label)),
        Some(v) => {
            if v < 0 {
                let mut m = String::from_str(label);
                m.append(" must be zero or positive");
                Err(m)
            } else if v > 4294967295 {
                let mut m = String::from_str(label);
                m.append(" is too large");
                Err(m)
            } else {
                Ok(v as u32)
            }
        },
    }
}

pub fn parse_positive(input: &str, label: &str) -> (r: Result<u32, String>)
    ensures
        text_result_matches(r, positive_result(input@, label@)),
{
    let t = trim(input);
    match parse_i64(t.as_str()) {
        None => Err(invalid_number(label)),
        Some(v) => {
            if v <= 0 {
                let mut m = String::from_str(label);
                m.append(" must be greater than zero");
                Err(m)
            } else if v > 4294967295 {
                let mut m = String::from_str(label);
                m.append(" is too large");
                Err(m)
            } else {
                Ok(v as u32)
            }
        },
    }
}

/// The preferences after committing `input` to field `f`, or `None` when the
/// input is rejected. Fields without an editor accept anything and change
/// nothing.
pub open spec fn input_result(f: PreferenceField, p: PrefsView, input: Seq<char>) -> Option<PrefsView> {
    let t = trimmed(input);
    match f {
        PreferenceField::DownloadDir => if t.len() == 0 {
            None
        } else {
            Some(PrefsView { download_dir: t, ..p })
        },
        PreferenceField::SpeedLimitUp => match non_negative_result(input, "upload limit"@) {
            Ok(v) => Some(PrefsView { speed_limit_up: v, ..p }),
            Err(_) => None,
        },
        PreferenceField::SpeedLimitDown => match non_negative_result(input, "download limit"@) {
            Ok(v) => Some(PrefsView { speed_limit_down: v, ..p }),
            Err(_) => None,
        },
        PreferenceField::SeedRatioLimit => match centi_text(t) {
            Some(v) => if v > 0 {
                Some(PrefsView { seed_ratio_limit: v, ..p })
            } else {
                None
            },
            None => None,
        },
        PreferenceField::IdleSeedingLimit => match non_negative_result(input, "idle minutes"@) {
            Ok(v) => Some(PrefsView { idle_seeding_limit: v, ..p }),
            Err(_) => None,
        },
        PreferenceField::PeerLimitPerTorrent => match positive_result(input, "peers per torrent"@) {
            Ok(v) => Some(PrefsView { peer_limit_per_torrent: v, ..p }),
            Err(_) => None,
        },
        PreferenceField::PeerLimitGlobal => match positive_result(input, "max peers"@) {
            Ok(v) => Some(PrefsView { peer_limit_global: v, ..p }),
            Err(_) => None,
        },
        PreferenceField::BlocklistUrl => Some(
            PrefsView {
                blocklist_url: if t.len() == 0 {
                    None
                } else {
                    Some(t)
                },
                ..p
            },
        ),
        _ => Some(p),
    }
}

/// The text a field shows.
pub open spec fn display_text(f: PreferenceField, p: PrefsView) -> Seq<char> {
    match f {
        PreferenceField::DownloadDir => p.download_dir,
        PreferenceField::StartWhenAdded => toggle_text(p.start_when_added),
        PreferenceField::SpeedLimitUpEnabled => toggle_text(p.speed_limit_up_enabled),
        PreferenceField::SpeedLimitUp => speed_limit_text(p.speed_limit_up),
        PreferenceField::SpeedLimitDownEnabled => toggle_text(p.speed_limit_down_enabled),
        PreferenceField::SpeedLimitDown => speed_limit_text(p.speed_limit_down),
        PreferenceField::SeedRatioLimited => toggle_text(p.seed_ratio_limited),
        PreferenceField::SeedRatioLimit => centi_display(p.seed_ratio_limit),
        PreferenceField::IdleSeedingEnabled => toggle_text(p.idle_seeding_limit_enabled),
        PreferenceField::IdleSeedingLimit => decimal(p.idle_seeding_limit as nat) + " minutes"@,
        PreferenceField::PeerLimitPerTorrent => decimal(p.peer_limit_per_torrent as nat),
        PreferenceField::PeerLimitGlobal => decimal(p.peer_limit_global as nat),
        PreferenceField::Encryption => encryption_label(p.encryption_mode),
        PreferenceField::PexEnabled => toggle_text(p.pex_enabled),
        PreferenceField::DhtEnabled => toggle_text(p.dht_enabled),
        PreferenceField::LpdEnabled => toggle_text(p.lpd_enabled),
        PreferenceField::BlocklistEnabled => toggle_text(p.blocklist_enabled),
        PreferenceField::BlocklistUrl => match p.blocklist_url {
            Some(u) => if u.len() > 0 {
                u
            } else {
                "(none)"@
            },
            None => "(none)"@,
        },
    }
}

/// The text an editor for the field starts with.
pub open spec fn initial_text(f: PreferenceField, p: PrefsView) -> Seq<char> {
    match f {
        PreferenceField::DownloadDir => p.download_dir,
        PreferenceField::SpeedLimitUp => decimal(p.speed_limit_up as nat),
        PreferenceField::SpeedLimitDown => decimal(p.speed_limit_down as nat),
        PreferenceField::SeedRatioLimit => centi_display(p.seed_ratio_limit),
        PreferenceField::IdleSeedingLimit => decimal(p.idle_seeding_limit as nat),
        PreferenceField::PeerLimitPerTorrent => decimal(p.peer_limit_per_torrent as nat),
        PreferenceField::PeerLimitGlobal => decimal(p.peer_limit_global as nat),
        PreferenceField::BlocklistUrl => match p.blocklist_url {
            Some(u) => u,
            None => Seq::empty(),
        },
        _ => Seq::empty(),
    }
}

impl PreferenceField {
    pub fn display_value(&self, prefs: &DaemonPreferences) -> (r: String)
        ensures
            r@ == display_text(*self, prefs@),
    {
        match self {
            PreferenceField::DownloadDir => prefs.download_dir.clone(),
            PreferenceField::StartWhenAdded => toggle_label(prefs.start_when_added),
            PreferenceField::SpeedLimitUpEnabled => toggle_label(prefs.speed_limit_up_enabled),
            PreferenceField::SpeedLimitUp => format_speed_limit(prefs.speed_limit_up),
            PreferenceField::SpeedLimitDownEnabled => toggle_label(prefs.speed_limit_down_enabled),
            PreferenceField::SpeedLimitDown => format_speed_limit(prefs.speed_limit_down),
            PreferenceField::SeedRatioLimited => toggle_label(prefs.seed_ratio_limited),
            PreferenceField::SeedRatioLimit => format_centi(prefs.seed_ratio_limit),
            PreferenceField::IdleSeedingEnabled => toggle_label(prefs.idle_seeding_limit_enabled),
            PreferenceField::IdleSeedingLimit => {
                let mut s = u64_to_string(prefs.idle_seeding_limit as u64);
                s.append(" minutes");
                s
            },
            PreferenceField::PeerLimitPerTorrent => u64_to_string(prefs.peer_limit_per_torrent as u64),
            PreferenceField::PeerLimitGlobal => u64_to_string(prefs.peer_limit_global as u64),
            PreferenceField::Encryption => String::from_str(prefs.encryption_mode.label()),
            PreferenceField::PexEnabled => toggle_label(prefs.pex_enabled),
            PreferenceField::DhtEnabled => toggle_label(prefs.dht_enabled),
            PreferenceField::LpdEnabled => toggle_label(prefs.lpd_enabled),
            PreferenceField::BlocklistEnabled => toggle_label(prefs.blocklist_enabled),
            PreferenceField::BlocklistUrl => match &prefs.blocklist_url {
                Some(u) => if u.as_str().unicode_len() > 0 {
                    u.clone()
                } else {
                    String::from_str("(none)")
                },
                None => String::from_str("(none)"),
            },
        }
    }

    pub fn initial_value(&self, prefs: &DaemonPreferences) -> (r: String)
        ensures
            r@ == initial_text(*self, prefs@),
    {
        match self {
            PreferenceField::DownloadDir => prefs.download_dir.clone(),
            PreferenceField::SpeedLimitUp => u64_to_string(prefs.speed_limit_up as u64),
            PreferenceField::SpeedLimitDown => u64_to_string(prefs.speed_limit_down as u64),
            PreferenceField::SeedRatioLimit => format_centi(prefs.seed_ratio_limit),
            PreferenceField::IdleSeedingLimit => u64_to_string(prefs.idle_seeding_limit as u64),
            PreferenceField::PeerLimitPerTorrent => u64_to_string(prefs.peer_limit_per_torrent as u64),
            PreferenceField::PeerLimitGlobal => u64_to_string(prefs.peer_limit_global as u64),
            PreferenceField::BlocklistUrl => match &prefs.blocklist_url {
                Some(u) => u.clone(),
                None => String::new(),
            },
            _ => String::new(),
        }
    }

    /// Commits an edited text to the field; on rejection the preferences are
    /// left as they were and the message says why.
    pub fn apply_input(&self, prefs: &mut DaemonPreferences, input: &str) -> (r: Result<(), String>)
        ensures
            r is Ok <==> input_result(*self, old(prefs)@, input@) is Some,
            r is Ok ==> final(prefs)@ == input_result(*self, old(prefs)@, input@)->Some_0,
            r is Err ==> final(prefs)@ == old(prefs)@,
    {
        match self {
            PreferenceField::DownloadDir => {
                let value = trim(input);
                if value.as_str().unicode_len() == 0 {
                    Err(String::from_str("Download directory cannot be empty"))
                } else {
                    prefs.download_dir = value;
                    Ok(())
                }
            },
            PreferenceField::SpeedLimitUp => match parse_non_negative(input, "upload limit") {
                Ok(v) => {
                    prefs.speed_limit_up = v;
                    Ok(())
                },
                Err(e) => Err(e),
            },
            PreferenceField::SpeedLimitDown => match parse_non_negative(input, "download limit") {
                Ok(v) => {
                    prefs.speed_limit_down = v;
                    Ok(())
                },
                Err(e) => Err(e),
            },
            PreferenceField::SeedRatioLimit => {
                let t = trim(input);
                match parse_centi(t.as_str()) {
                    None => Err(String::from_str("Enter a numeric ratio (e.g. 2 or 2.0)")),
                    Some(v) => {
                        if v <= 0 {
                            Err(String::from_str("Ratio must be greater than zero"))
                        } else {
                            prefs.seed_ratio_limit = v;
                            Ok(())
                        }
                    },
                }
            },
            PreferenceField::IdleSeedingLimit => match parse_non_negative(input, "idle minutes") {
                Ok(v) => {
                    prefs.idle_seeding_limit = v;
                    Ok(())
                },
                Err(e) => Err(e),
            },
            PreferenceField::PeerLimitPerTorrent => match parse_positive(input, "peers per torrent") {
                Ok(v) => {
                    prefs.peer_limit_per_torrent = v;
                    Ok(())
                },
                Err(e) => Err(e),
            },
            PreferenceField::PeerLimitGlobal => match parse_positive(input, "max peers") {
                Ok(v) => {
                    prefs.peer_limit_global = v;
                    Ok(())
                },
                Err(e) => Err(e),
            },
            PreferenceField::BlocklistUrl => {
                let value = trim(input);
                if value.as_str().unicode_len() == 0 {
                    prefs.blocklist_url = None;
                } else {
                    prefs.blocklist_url = Some(value);
                }
                Ok(())
            },
            _ => Ok(()),
        }
    }
}

/// A field being edited as text.
#[derive(Debug)]
pub struct PreferenceEditor {
    pub field: PreferenceField,
    pub buffer: String,
}

/// The loaded preferences being edited.
#[derive(Debug)]
pub struct PreferencesForm {
    pub prefs: DaemonPreferences,
    /// Position of the highlighted field, below `FORM_LEN`.
    pub selected: usize,
    pub editing: Option<PreferenceEditor>,
    /// Changed since loaded.
    pub dirty: bool,
    /// A save was sent and has not come back.
    pub saving: bool,
    pub message: Option<String>,
}

pub open spec fn mode_index(m: EncryptionMode) -> int {
    match m {
        EncryptionMode::Prefer => 0,
        EncryptionMode::Allow => 1,
        EncryptionMode::Require => 2,
    }
}

pub open spec fn mode_at(i: int) -> EncryptionMode {
    if i == 0 {
        EncryptionMode::Prefer
    } else if i == 1 {
        EncryptionMode::Allow
    } else {
        EncryptionMode::Require
    }
}

/// The mode `delta` steps away in the cycle Prefer, Allow, Require.
pub open spec fn cycled(m: EncryptionMode, delta: i64) -> EncryptionMode {
    mode_at((mode_index(m) + delta) % 3)
}

pub open spec fn msg_is(m: Option<String>, t: Seq<char>) -> bool {
    m matches Some(s) && s@ == t
}

impl PreferencesForm {
    pub open spec fn wf(&self) -> bool {
        self.selected < FORM_LEN
    }

    pub open spec fn spec_field(&self) -> PreferenceField {
        form_field(self.selected as int)
    }

    pub fn new(prefs: DaemonPreferences) -> (r: Self)
        ensures
            r.wf(),
            r.prefs == prefs,
            r.selected == 0,
            r.editing is None,
            !r.dirty,
            !r.saving,
            r.message is None,
    {
        PreferencesForm { prefs, selected: 0, editing: None, dirty: false, saving: false, message: None }
    }

    /// Takes freshly loaded preferences; says whether they answer a save.
    pub fn replace_prefs(&mut self, prefs: DaemonPreferences)
        ensures
            final(self).prefs == prefs,
            final(self).selected == old(self).selected,
            !final(self).dirty,
            !final(self).saving,
            final(self).editing is None,
            msg_is(final(self).message, if old(self).saving {
                "Preferences saved"@
            } else {
                "Preferences reloaded"@
            }),
    {
        let was_saving = self.saving;
        self.prefs = prefs;
        self.dirty = false;
        self.saving = false;
        self.editing = None;
        self.message = Some(
            if was_saving {
                String::from_str("Preferences saved")
            } else {
                String::from_str("Preferences reloaded")
            },
        );
    }

    pub fn selected_field(&self) -> (r: PreferenceField)
        requires
            self.wf(),
        ensures
            r == self.spec_field(),
    {
        field_at(self.selected)
    }

    /// Moves the highlight, stopping at the first and last field.
    pub fn move_selection(&mut self, delta: i64)
        requires
            old(self).wf(),
        ensures
            final(self).wf(),
            final(self).selected as int == (if old(self).selected + delta < 0 {
                0
            } else if old(self).selected + delta >= FORM_LEN {
                FORM_LEN - 1
            } else {
                old(self).selected + delta
            }),
            final(self).prefs == old(self).prefs,
            final(self).editing == old(self).editing,
            final(self).dirty == old(self).dirty,
            final(self).saving == old(self).saving,
            final(self).message == old(self).message,
    {
        let len: i64 = FORM_LEN as i64;
        let next: i64 = if delta < -len {
            -1
        } else if delta > len {
            len
        } else {
            self.selected as i64 + delta
        };
        if next < 0 {
            self.selected = 0;
        } else if next >= len {
            self.selected = FORM_LEN - 1;
        } else {
            self.selected = next as usize;
        }
    }

    /// Flips the highlighted field if it is on/off.
    pub fn toggle_selected(&mut self) -> (r: bool)
        requires
            old(self).wf(),
        ensures
            final(self).wf(),
            final(self).selected == old(self).selected,
            final(self).editing == old(self).editing,
            final(self).saving == old(self).saving,
            r == is_toggle(old(self).spec_field()),
            final(self).prefs@ == toggled(old(self).prefs@, old(self).spec_field()),
            r ==> final(self).dirty && final(self).message is None,
            !r ==> final(self).dirty == old(self).dirty && final(self).message == old(self).message,
    {
        let field = self.selected_field();
        if field.toggle(&mut self.prefs) {
            self.dirty = true;
            self.message = None;
            true
        } else {
            false
        }
    }

    /// Steps the encryption mode if it is highlighted.
    pub fn cycle_encryption(&mut self, delta: i64) -> (r: bool)
        requires
            old(self).wf(),
        ensures
            final(self).wf(),
            final(self).selected == old(self).selected,
            final(self).editing == old(self).editing,
            final(self).saving == old(self).saving,
            r == (old(self).spec_field() == PreferenceField::Encryption),
            r ==> final(self).prefs@ == (PrefsView {
                encryption_mode: cycled(old(self).prefs.encryption_mode, delta),
                ..old(self).prefs@
            }) && final(self).dirty && final(self).message is None,
            !r ==> final(self).prefs == old(self).prefs && final(self).dirty == old(self).dirty
                && final(self).message == old(self).message,
    {
        if self.selected_field() != PreferenceField::Encryption {
            return false;
        }
        let values = EncryptionMode::values();
        let index: i64 = match self.prefs.encryption_mode {
            EncryptionMode::Prefer => 0,
            EncryptionMode::Allow => 1,
            EncryptionMode::Require => 2,
        };
        let next: i64 = (index + delta % 3 + 3) % 3;
        assert(next == (mode_index(self.prefs.encryption_mode) + delta) % 3) by (nonlinear_arith)
            requires
                next == (index + delta % 3 + 3) % 3,
                index == mode_index(self.prefs.encryption_mode),
                0 <= index < 3,
        ;
        self.prefs.encryption_mode = values[next as usize];
        self.dirty = true;
        self.message = None;
        true
    }

    /// Opens a text editor on the highlighted field if it takes text.
    pub fn start_editor(&mut self) -> (r: bool)
        requires
            old(self).wf(),
        ensures
            final(self).wf(),
            final(self).selected == old(self).selected,
            final(self).prefs == old(self).prefs,
            final(self).dirty == old(self).dirty,
            final(self).saving == old(self).saving,
            r == needs_editor(old(self).spec_field()),
            r ==> (final(self).editing matches Some(e) && e.field == old(self).spec_field()
                && e.buffer@ == initial_text(old(self).spec_field(), old(self).prefs@)
                && final(self).message is None),
            !r ==> final(self).editing == old(self).editing && final(self).message == old(self).message,
    {
        let field = self.selected_field();
        if !field.requires_editor() {
            return false;
        }
        let buffer = field.initial_value(&self.prefs);
        self.editing = Some(PreferenceEditor { field, buffer });
        self.message = None;
        true
    }

    /// Commits the editor: an accepted value closes it and marks the form
    /// changed; a rejected one keeps it open with the reason as message.
    pub fn finish_edit(&mut self) -> (r: Result<(), String>)
        requires
            old(self).wf(),
        ensures
            final(self).wf(),
            final(self).selected == old(self).selected,
            final(self).saving == old(self).saving,
            old(self).editing is None ==> r is Ok && final(self).prefs == old(self).prefs
                && final(self).editing is None && final(self).dirty == old(self).dirty
                && final(self).message == old(self).message,
            old(self).editing is Some ==> {
                let e = old(self).editing->Some_0;
                let out = input_result(e.field, old(self).prefs@, e.buffer@);
                &&& (r is Ok <==> out is Some)
                &&& r is Ok ==> final(self).prefs@ == out->Some_0 && final(self).editing is None
                    && final(self).dirty && msg_is(final(self).message, "Updated value"@)
                &&& r is Err ==> final(self).prefs@ == old(self).prefs@ && final(self).editing
                    == old(self).editing && final(self).dirty == old(self).dirty
                    && final(self).message == Some(r->Err_0)
            },
    {
        let editor = match self.editing.take() {
            None => return Ok(()),
            Some(e) => e,
        };
        match editor.field.apply_input(&mut self.prefs, editor.buffer.as_str()) {
            Ok(()) => {
                self.dirty = true;
                self.message = Some(String::from_str("Updated value"));
                Ok(())
            },
            Err(err) => {
                self.editing = Some(editor);
                self.message = Some(err.clone());
                Err(err)
            },
        }
    }

    pub fn cancel_edit(&mut self)
        ensures
            final(self).editing is None,
            final(self).message is None,
            final(self).prefs == old(self).prefs,
            final(self).selected == old(self).selected,
            final(self).dirty == old(self).dirty,
            final(self).saving == old(self).saving,
    {
        self.editing = None;
        self.message = None;
    }

    pub fn push_char(&mut self, ch: char)
        ensures
            final(self).prefs == old(self).prefs,
            final(self).selected == old(self).selected,
            final(self).dirty == old(self).dirty,
            final(self).saving == old(self).saving,
            final(self).message == old(self).message,
            match old(self).editing {
                Some(e) => (final(self).editing matches Some(f) && f.field == e.field && f.buffer@
                    == e.buffer@.push(ch)),
                None => final(self).editing is None,
            },
    {
        if let Some(editor) = &mut self.editing {
            push_char(&mut editor.buffer, ch);
        }
    }

    pub fn pop_char(&mut self)
        ensures
            final(self).prefs == old(self).prefs,
            final(self).selected == old(self).selected,
            final(self).dirty == old(self).dirty,
            final(self).saving == old(self).saving,
            final(self).message == old(self).message,
            match old(self).editing {
                Some(e) => (final(self).editing matches Some(f) && f.field == e.field && f.buffer@
                    == (if e.buffer@.len() > 0 {
                    e.buffer@.drop_last()
                } else {
                    e.buffer@
                })),
                None => final(self).editing is None,
            },
    {
        if let Some(editor) = &mut self.editing {
            pop_char(&mut editor.buffer);
        }
    }

    /// Sends the edited preferences, unless a save is under way or nothing
    /// changed; the message says which.
    pub fn queue_save(&mut self) -> (r: Option<RpcCommand>)
        ensures
            final(self).prefs == old(self).prefs,
            final(self).selected == old(self).selected,
            final(self).editing == old(self).editing,
            final(self).dirty == old(self).dirty,
            old(self).saving ==> r is None && final(self).saving && msg_is(
                final(self).message,
                "Save already in progress"@,
            ),
            !old(self).saving && !old(self).dirty ==> r is None && !final(self).saving && msg_is(
                final(self).message,
                "No changes to save"@,
            ),
            !old(self).saving && old(self).dirty ==> (r matches Some(RpcCommand::UpdatePreferences(p))
                && p == old(self).prefs) && final(self).saving && msg_is(
                final(self).message,
                "Saving preferences…"@,
            ),
    {
        if self.saving {
            self.message = Some(String::from_str("Save already in progress"));
            return None;
        }
        if !self.dirty {
            self.message = Some(String::from_str("No changes to save"));
            return None;
        }
        self.saving = true;
        self.message = Some(String::from_str("Saving preferences…"));
        Some(RpcCommand::UpdatePreferences(self.prefs.clone()))
    }
}

/// What the preferences dialog shows.
#[derive(Debug)]
pub enum PreferencesView {
    Loading,
    Error(String),
    Ready(PreferencesForm),
}

/// The preferences dialog.
#[derive(Debug)]
pub struct PreferencesState {
    pub view: PreferencesView,
}

/// What a key did in the dialog: whether to close it, and a command to send.
#[derive(Debug)]
pub struct PreferenceInputResult {
    pub close: bool,
    pub command: Option<RpcCommand>,
}

pub open spec fn is_char(k: KeyPress, c: char) -> bool {
    k.code == KeyCode::Char(c)
}

pub open spec fn is_reload_key(k: KeyPress) -> bool {
    is_char(k, 'r') || is_char(k, 'R')
}

pub open spec fn is_close_key(k: KeyPress) -> bool {
    k.code == KeyCode::Esc || is_char(k, 'q')
}

/// What a key does to a form whose editor is open: Enter commits the text
/// (an accepted value closes the editor and marks the form changed, a
/// rejected one keeps it open with the reason), Esc drops the editor,
/// Backspace and characters edit its text.
pub open spec fn editor_key_effect(f: PreferencesForm, g: PreferencesForm, key: KeyPress) -> bool {
    let e = f.editing->Some_0;
    let out = input_result(e.field, f.prefs@, e.buffer@);
    &&& g.selected == f.selected
    &&& g.saving == f.saving
    &&& key.code == KeyCode::Enter ==> (if out is Some {
        g.prefs@ == out->Some_0 && g.editing is None && g.dirty && msg_is(g.message, "Updated value"@)
    } else {
        g.prefs@ == f.prefs@ && g.editing == f.editing && g.dirty == f.dirty && g.message is Some
    })
    &&& key.code == KeyCode::Esc ==> g.prefs == f.prefs && g.dirty == f.dirty && g.editing is None
        && g.message is None
    &&& key.code == KeyCode::Backspace ==> g.prefs == f.prefs && g.dirty == f.dirty && g.message
        == f.message && g.editing is Some && g.editing->Some_0.field == e.field
        && g.editing->Some_0.buffer@ == (if e.buffer@.len() > 0 {
        e.buffer@.drop_last()
    } else {
        e.buffer@
    })
    &&& key.code is Char ==> g.prefs == f.prefs && g.dirty == f.dirty && g.message == f.message
        && g.editing is Some && g.editing->Some_0.field == e.field && g.editing->Some_0.buffer@
        == e.buffer@.push(key.code->Char_0)
}

/// What a key does to a form without an open editor. `after` is the
/// dialog's view afterwards: a reload of an unchanged form leaves the form
/// for the loading view; every other key keeps a form.
pub open spec fn form_key_effect(
    f: PreferencesForm,
    after: PreferencesView,
    key: KeyPress,
    r: PreferenceInputResult,
) -> bool {
    let field = f.spec_field();
    let g = after->Ready_0;
    if is_reload_key(key) && !f.dirty {
        after is Loading && !r.close && (r.command matches Some(RpcCommand::FetchPreferences))
    } else {
        &&& after is Ready
        &&& is_close_key(key) ==> r.close && r.command is None && g == f
        &&& (is_char(key, 'j') || key.code == KeyCode::Down) ==> g == (PreferencesForm {
            selected: (if f.selected + 1 < FORM_LEN {
                f.selected + 1
            } else {
                f.selected as int
            }) as usize,
            ..f
        })
        &&& (is_char(key, 'k') || key.code == KeyCode::Up) ==> g == (PreferencesForm {
            selected: (if f.selected > 0 {
                f.selected - 1
            } else {
                0
            }) as usize,
            ..f
        })
        &&& (is_char(key, ' ') || (key.code == KeyCode::Enter && !needs_editor(field)
            && is_toggle(field))) ==> g.selected == f.selected && g.editing == f.editing
            && g.saving == f.saving && g.prefs@ == toggled(f.prefs@, field) && (is_toggle(field)
            ==> g.dirty && g.message is None) && (!is_toggle(field) ==> g.dirty == f.dirty
            && g.message == f.message)
        &&& (key.code == KeyCode::Left || key.code == KeyCode::Right || (key.code == KeyCode::Enter
            && field == PreferenceField::Encryption)) ==> g.selected == f.selected && g.editing
            == f.editing && g.saving == f.saving && (field == PreferenceField::Encryption ==> g.prefs@
            == (PrefsView {
            encryption_mode: cycled(
                f.prefs.encryption_mode,
                if key.code == KeyCode::Left {
                    -1i64
                } else {
                    1i64
                },
            ),
            ..f.prefs@
        }) && g.dirty && g.message is None) && (field != PreferenceField::Encryption ==> g == f)
        &&& (key.code == KeyCode::Enter && needs_editor(field)) ==> g.selected == f.selected
            && g.prefs == f.prefs && g.dirty == f.dirty && g.saving == f.saving && g.message is None
            && g.editing is Some && g.editing->Some_0.field == field && g.editing->Some_0.buffer@
            == initial_text(field, f.prefs@)
        &&& is_char(key, 's') ==> !r.close && g.prefs == f.prefs && g.selected == f.selected
            && g.editing == f.editing && g.dirty == f.dirty && (if f.saving {
            r.command is None && g.saving && msg_is(g.message, "Save already in progress"@)
        } else if !f.dirty {
            r.command is None && !g.saving && msg_is(g.message, "No changes to save"@)
        } else {
            (r.command matches Some(RpcCommand::UpdatePreferences(p)) && p == f.prefs) && g.saving
                && msg_is(g.message, "Saving preferences…"@)
        })
        &&& is_reload_key(key) ==> !r.close && r.command is None && g.prefs == f.prefs && g.dirty
            && g.selected == f.selected && g.editing == f.editing && g.saving == f.saving && msg_is(
            g.message,
            "Save or cancel changes before refreshing"@,
        )
    }
}

/// Whether a key closes the dialog: Esc or `q`, unless an editor is open.
pub open spec fn closes_dialog(s0: PreferencesState, key: KeyPress) -> bool {
    is_close_key(key) && !(s0.view is Ready && s0.view->Ready_0.editing is Some)
}

/// What a key does to the dialog, from `s0` to `s1`, with the command sent.
/// Without a form, `r`/`R` asks to load and every other key changes nothing;
/// a form reacts as `editor_key_effect` or `form_key_effect` say.
pub open spec fn dialog_key_effect(
    s0: PreferencesState,
    key: KeyPress,
    s1: PreferencesState,
    command: Option<RpcCommand>,
) -> bool {
    &&& closes_dialog(s0, key) ==> command is None
    &&& (command matches Some(RpcCommand::FetchPreferences)) <==> is_reload_key(key) && match s0.view {
        PreferencesView::Ready(f) => f.editing is None && !f.dirty,
        _ => true,
    }
    &&& command matches Some(c) ==> (c is FetchPreferences || c is UpdatePreferences)
    &&& command matches Some(RpcCommand::FetchPreferences) ==> s1.view is Loading
    &&& !(s0.view is Ready) ==> (if is_reload_key(key) {
        s1.view is Loading
    } else {
        s1 == s0 && command is None
    })
    &&& (s0.view is Ready && s0.view->Ready_0.editing is Some) ==> (s1.view is Ready && command is None
        && editor_key_effect(s0.view->Ready_0, s1.view->Ready_0, key))
    &&& (s0.view is Ready && s0.view->Ready_0.editing is None) ==> form_key_effect(
        s0.view->Ready_0,
        s1.view,
        key,
        PreferenceInputResult { close: is_close_key(key), command },
    )
}

impl PreferencesState {
    pub open spec fn wf(&self) -> bool {
        self.view matches PreferencesView::Ready(f) ==> f.wf()
    }

    pub fn loading() -> (r: Self)
        ensures
            r.view is Loading,
    {
        PreferencesState { view: PreferencesView::Loading }
    }

    pub fn from_cache(prefs: DaemonPreferences) -> (r: Self)
        ensures
            r.wf(),
            r.view matches PreferencesView::Ready(f) && f.prefs == prefs && !f.dirty && !f.saving
                && f.editing is None,
    {
        PreferencesState { view: PreferencesView::Ready(PreferencesForm::new(prefs)) }
    }

    /// Freshly loaded preferences: an open form takes them, otherwise a new
    /// form shows them.
    pub fn apply_loaded(&mut self, prefs: DaemonPreferences)
        requires
            old(self).wf(),
        ensures
            final(self).wf(),
            final(self).view matches PreferencesView::Ready(f) && f.prefs == prefs && !f.dirty
                && !f.saving && f.editing is None,
            (old(self).view matches PreferencesView::Ready(f) && f.saving) ==> (final(self).view matches PreferencesView::Ready(g)
                && msg_is(g.message, "Preferences saved"@)),
            (old(self).view matches PreferencesView::Ready(f) && !f.saving) ==> (final(self).view matches PreferencesView::Ready(g)
                && msg_is(g.message, "Preferences reloaded"@)),
            !(old(self).view is Ready) ==> final(self).view->Ready_0.message is None,
    {
        match &mut self.view {
            PreferencesView::Ready(form) => form.replace_prefs(prefs),
            _ => {
                self.view = PreferencesView::Ready(PreferencesForm::new(prefs));
            },
        }
    }

    /// A failed fetch or save: an open form keeps its values and shows the
    /// message, otherwise the dialog shows the failure.
    pub fn apply_error(&mut self, message: String)
        requires
            old(self).wf(),
        ensures
            final(self).wf(),
            old(self).view is Ready ==> (final(self).view is Ready && final(self).view->Ready_0.prefs
                == old(self).view->Ready_0.prefs && !final(self).view->Ready_0.saving
                && final(self).view->Ready_0.message == Some(message)),
            !(old(self).view is Ready) ==> final(self).view == PreferencesView::Error(message),
    {
        match &mut self.view {
            PreferencesView::Ready(form) => {
                form.saving = false;
                form.message = Some(message);
            },
            _ => {
                self.view = PreferencesView::Error(message);
            },
        }
    }

    pub fn mark_refreshing(&mut self)
        requires
            old(self).wf(),
        ensures
            final(self).wf(),
            old(self).view is Ready ==> (final(self).view is Ready && final(self).view->Ready_0.prefs
                == old(self).view->Ready_0.prefs && final(self).view->Ready_0.dirty
                == old(self).view->Ready_0.dirty && final(self).view->Ready_0.saving
                == old(self).view->Ready_0.saving && msg_is(
                final(self).view->Ready_0.message,
                "Refreshing from daemon…"@,
            )),
            !(old(self).view is Ready) ==> final(self).view == old(self).view,
    {
        if let PreferencesView::Ready(form) = &mut self.view {
            form.message = Some(String::from_str("Refreshing from daemon…"));
        }
    }

    /// One key in the dialog. `r`/`R` reloads (refused while a form has
    /// unsaved changes), Esc/`q` closes, `s` saves a changed form, and the
    /// form's own keys move, toggle, cycle and edit; an open editor takes
    /// every key.
    pub fn handle_key(&mut self, key: KeyPress) -> (r: PreferenceInputResult)
        requires
            old(self).wf(),
        ensures
            final(self).wf(),
            r.close == closes_dialog(*old(self), key),
            dialog_key_effect(*old(self), key, *final(self), r.command),
    {
        let kind: u8 = match &self.view {
            PreferencesView::Loading => 0,
            PreferencesView::Error(_) => 1,
            PreferencesView::Ready(_) => 2,
        };
        if kind < 2 {
            match key.code {
                KeyCode::Char('r') | KeyCode::Char('R') => {
                    self.view = PreferencesView::Loading;
                    return PreferenceInputResult { close: false, command: Some(RpcCommand::FetchPreferences) };
                },
                KeyCode::Esc | KeyCode::Char('q') => {
                    return PreferenceInputResult { close: true, command: None };
                },
                _ => {
                    return PreferenceInputResult { close: false, command: None };
                },
            }
        }
        let mut reload = false;
        let mut result = PreferenceInputResult { close: false, command: None };
        if let PreferencesView::Ready(form) = &mut self.view {
            if form.editing.is_some() {
                editor_key(form, key);
            } else {
                let (r, again) = command_key(form, key);
                result = r;
                reload = again;
            }
        }
        if reload {
            self.view = PreferencesView::Loading;
            result.command = Some(RpcCommand::FetchPreferences);
        }
        result
    }
}

/// A key for the open editor of a form.
fn editor_key(form: &mut PreferencesForm, key: KeyPress)
    requires
        old(form).wf(),
        old(form).editing is Some,
    ensures
        final(form).wf(),
        editor_key_effect(*old(form), *final(form), key),
{
    match key.code {
        KeyCode::Enter => {
            let _ = form.finish_edit();
        },
        KeyCode::Esc => form.cancel_edit(),
        KeyCode::Backspace => form.pop_char(),
        KeyCode::Char(c) => form.push_char(c),
        _ => {},
    }
}

/// The keys that change a form's values or highlight.
pub open spec fn is_form_edit_key(key: KeyPress) -> bool {
    is_char(key, 'j') || is_char(key, 'k') || is_char(key, ' ') || key.code == KeyCode::Down
        || key.code == KeyCode::Up || key.code == KeyCode::Left || key.code == KeyCode::Right
        || key.code == KeyCode::Enter
}

fn is_form_edit_key_exec(key: KeyPress) -> (r: bool)
    ensures
        r == is_form_edit_key(key),
{
    match key.code {
        KeyCode::Char('j') | KeyCode::Char('k') | KeyCode::Char(' ') | KeyCode::Down | KeyCode::Up
        | KeyCode::Left | KeyCode::Right | KeyCode::Enter => true,
        _ => false,
    }
}

/// A key that moves the highlight, toggles, cycles or opens the editor.
#[verifier::rlimit(100)]
fn form_edit_key(form: &mut PreferencesForm, key: KeyPress)
    requires
        old(form).wf(),
        old(form).editing is None,
        is_form_edit_key(key),
    ensures
        final(form).wf(),
        form_key_effect(
            *old(form),
            PreferencesView::Ready(*final(form)),
            key,
            PreferenceInputResult { close: false, command: None },
        ),
{
    match key.code {
        KeyCode::Char('j') | KeyCode::Down => form.move_selection(1),
        KeyCode::Char('k') | KeyCode::Up => form.move_selection(-1),
        KeyCode::Char(' ') => {
            form.toggle_selected();
        },
        KeyCode::Left => {
            form.cycle_encryption(-1);
        },
        KeyCode::Right => {
            form.cycle_encryption(1);
        },
        _ => {
            if !form.start_editor() {
                if !form.toggle_selected() {
                    form.cycle_encryption(1);
                }
            }
        },
    }
}

/// A key for a form without an open editor; the flag asks for a reload,
/// which leaves the form as it was.
#[verifier::rlimit(100)]
fn command_key(form: &mut PreferencesForm, key: KeyPress) -> (r: (PreferenceInputResult, bool))
    requires
        old(form).wf(),
        old(form).editing is None,
    ensures
        final(form).wf(),
        r.1 <==> is_reload_key(key) && !old(form).dirty,
        r.1 ==> *final(form) == *old(form) && !r.0.close && r.0.command is None,
        !r.1 ==> form_key_effect(*old(form), PreferencesView::Ready(*final(form)), key, r.0),
        r.0.command matches Some(c) ==> c is UpdatePreferences,
        !r.1 ==> (r.0.close <==> is_close_key(key)),
        r.0.command matches Some(RpcCommand::UpdatePreferences(p)) ==> is_char(key, 's')
            && old(form).dirty && !old(form).saving && p == old(form).prefs,
        (is_char(key, 's') && old(form).dirty && !old(form).saving) ==> r.0.command is Some,
{
    let mut result = PreferenceInputResult { close: false, command: None };
    if is_form_edit_key_exec(key) {
        form_edit_key(form, key);
        return (result, false);
    }
    match key.code {
        KeyCode::Char('s') => {
            result.command = form.queue_save();
        },
        KeyCode::Char('r') | KeyCode::Char('R') => {
            if form.dirty {
                form.message = Some(String::from_str("Save or cancel changes before refreshing"));
            } else {
                return (result, true);
            }
        },
        KeyCode::Esc | KeyCode::Char('q') => {
            result.close = true;
        },
        _ => {},
    }
    (result, false)
}

} // verus!
