//! Daemon session preferences, their argument map and its decoder.
use vstd::prelude::*;
use vstd::string::*;

use crate::rpc::{translated, RpcMethod, RpcProtocol};
use crate::names::legacy_session_name;
use crate::wire::{
    bool_of, centi_of, entries_view, entry, find_bool, find_centi, find_int, find_text, int_of,
    lookup, text_of, WireEntry, WireSpec, WireValue,
};

verus! {

/// How the daemon treats peer encryption.
#[derive(Clone, Copy, Debug, PartialEq, Eq, Structural)]
pub enum EncryptionMode {
    Prefer,
    Allow,
    Require,
}

impl Default for EncryptionMode {
    fn default() -> (r: Self)
        ensures
            r == EncryptionMode::Prefer,
    {
        EncryptionMode::Prefer
    }
}

pub open spec fn encryption_label(m: EncryptionMode) -> Seq<char> {
    match m {
        EncryptionMode::Prefer => "Prefer encryption"@,
        EncryptionMode::Allow => "Allow encryption"@,
        EncryptionMode::Require => "Require encryption"@,
    }
}

/// The wire spelling of a mode in the given dialect.
pub open spec fn encryption_wire(m: EncryptionMode, p: RpcProtocol) -> Seq<char> {
    match m {
        EncryptionMode::Prefer => "preferred"@,
        EncryptionMode::Allow => if p == RpcProtocol::Legacy {
            "tolerated"@
        } else {
            "allowed"@
        },
        EncryptionMode::Require => "required"@,
    }
}

/// Either dialect's spelling decodes; anything unknown means `Prefer`.
pub open spec fn encryption_from_wire(v: Seq<char>) -> EncryptionMode {
    if v == "required"@ {
        EncryptionMode::Require
    } else if v == "allowed"@ || v == "tolerated"@ {
        EncryptionMode::Allow
    } else {
        EncryptionMode::Prefer
    }
}

impl EncryptionMode {
    pub fn label(self) -> (r: &'static str)
        ensures
            r@ == encryption_label(self),
    {
        match self {
            EncryptionMode::Prefer => "Prefer encryption",
            EncryptionMode::Allow => "Allow encryption",
            EncryptionMode::Require => "Require encryption",
        }
    }

    /// The JSON-RPC spelling.
    pub fn rpc_value(self) -> (r: &'static str)
        ensures
            r@ == encryption_wire(self, RpcProtocol::Json),
    {
        match self {
            EncryptionMode::Prefer => "preferred",
            EncryptionMode::Allow => "allowed",
            EncryptionMode::Require => "required",
        }
    }

    /// The spelling in the given dialect.
    pub fn rpc_value_for(self, protocol: RpcProtocol) -> (r: &'static str)
        ensures
            r@ == encryption_wire(self, protocol),
    {
        match (self, protocol) {
            (EncryptionMode::Allow, RpcProtocol::Legacy) => "tolerated",
            _ => self.rpc_value(),
        }
    }

    pub fn from_rpc(value: &str) -> (r: Self)
        ensures
            r == encryption_from_wire(value@),
    {
        if crate::text::str_eq(value, "required") {
            EncryptionMode::Require
        } else if crate::text::str_eq(value, "allowed") || crate::text::str_eq(value, "tolerated") {
            EncryptionMode::Allow
        } else {
            EncryptionMode::Prefer
        }
    }

    /// All modes in cycling order.
    pub fn values() -> (r: [EncryptionMode; 3])
        ensures
            r@ == seq![EncryptionMode::Prefer, EncryptionMode::Allow, EncryptionMode::Require],
    {
        let r = [EncryptionMode::Prefer, EncryptionMode::Allow, EncryptionMode::Require];
        assert(r@ =~= seq![EncryptionMode::Prefer, EncryptionMode::Allow, EncryptionMode::Require]);
        r
    }
}

/// A mode written in either dialect reads back as itself.
pub proof fn lemma_encryption_round_trip(m: EncryptionMode, p: RpcProtocol)
    ensures
        encryption_from_wire(encryption_wire(m, p)) == m,
{
    reveal_strlit("required");
    reveal_strlit("allowed");
    reveal_strlit("tolerated");
    reveal_strlit("preferred");
    assert("preferred"@.len() != "required"@.len());
    assert("preferred"@.len() != "allowed"@.len());
    assert("preferred"@[0] != "tolerated"@[0]);
    assert("allowed"@.len() != "required"@.len());
    assert("tolerated"@.len() != "required"@.len());
}


/// Session preferences of the daemon. `seed_ratio_limit` is in hundredths.
#[derive(Debug)]
pub struct DaemonPreferences {
    pub download_dir: String,
    pub start_when_added: bool,
    pub speed_limit_up_enabled: bool,
    pub speed_limit_up: u32,
    pub speed_limit_down_enabled: bool,
    pub speed_limit_down: u32,
    pub seed_ratio_limited: bool,
    pub seed_ratio_limit: i64,
    pub idle_seeding_limit_enabled: bool,
    pub idle_seeding_limit: u32,
    pub peer_limit_per_torrent: u32,
    pub peer_limit_global: u32,
    pub encryption_mode: EncryptionMode,
    pub pex_enabled: bool,
    pub dht_enabled: bool,
    pub lpd_enabled: bool,
    pub blocklist_enabled: bool,
    pub blocklist_url: Option<String>,
}

/// Preferences with strings as character sequences.
pub struct PrefsView {
    pub download_dir: Seq<char>,
    pub start_when_added: bool,
    pub speed_limit_up_enabled: bool,
    pub speed_limit_up: u32,
    pub speed_limit_down_enabled: bool,
    pub speed_limit_down: u32,
    pub seed_ratio_limited: bool,
    pub seed_ratio_limit: i64,
    pub idle_seeding_limit_enabled: bool,
    pub idle_seeding_limit: u32,
    pub peer_limit_per_torrent: u32,
    pub peer_limit_global: u32,
    pub encryption_mode: EncryptionMode,
    pub pex_enabled: bool,
    pub dht_enabled: bool,
    pub lpd_enabled: bool,
    pub blocklist_enabled: bool,
    pub blocklist_url: Option<Seq<char>>,
}

impl View for DaemonPreferences {
    type V = PrefsView;

    open spec fn view(&self) -> PrefsView {
        PrefsView {
            download_dir: self.download_dir@,
            start_when_added: self.start_when_added,
            speed_limit_up_enabled: self.speed_limit_up_enabled,
            speed_limit_up: self.speed_limit_up,
            speed_limit_down_enabled: self.speed_limit_down_enabled,
            speed_limit_down: self.speed_limit_down,
            seed_ratio_limited: self.seed_ratio_limited,
            seed_ratio_limit: self.seed_ratio_limit,
            idle_seeding_limit_enabled: self.idle_seeding_limit_enabled,
            idle_seeding_limit: self.idle_seeding_limit,
            peer_limit_per_torrent: self.peer_limit_per_torrent,
            peer_limit_global: self.peer_limit_global,
            encryption_mode: self.encryption_mode,
            pex_enabled: self.pex_enabled,
            dht_enabled: self.dht_enabled,
            lpd_enabled: self.lpd_enabled,
            blocklist_enabled: self.blocklist_enabled,
            blocklist_url: match self.blocklist_url { Some(s) => Some(s@), None => None },
        }
    }
}

impl Clone for DaemonPreferences {
    fn clone(&self) -> (r: Self)
        ensures
            r == *self,
    {
        DaemonPreferences {
            download_dir: self.download_dir.clone(),
            start_when_added: self.start_when_added,
            speed_limit_up_enabled: self.speed_limit_up_enabled,
            speed_limit_up: self.speed_limit_up,
            speed_limit_down_enabled: self.speed_limit_down_enabled,
            speed_limit_down: self.speed_limit_down,
            seed_ratio_limited: self.seed_ratio_limited,
            seed_ratio_limit: self.seed_ratio_limit,
            idle_seeding_limit_enabled: self.idle_seeding_limit_enabled,
            idle_seeding_limit: self.idle_seeding_limit,
            peer_limit_per_torrent: self.peer_limit_per_torrent,
            peer_limit_global: self.peer_limit_global,
            encryption_mode: self.encryption_mode,
            pex_enabled: self.pex_enabled,
            dht_enabled: self.dht_enabled,
            lpd_enabled: self.lpd_enabled,
            blocklist_enabled: self.blocklist_enabled,
            blocklist_url: self.blocklist_url.clone(),
        }
    }
}

/// The argument map that carries the preferences to the daemon.
pub open spec fn rpc_map_spec(p: PrefsView) -> Seq<(Seq<char>, WireSpec)> {
    seq![
        ("download_dir"@, WireSpec::Text(p.download_dir)),
        ("start_added_torrents"@, WireSpec::Bool(p.start_when_added)),
        ("speed_limit_up_enabled"@, WireSpec::Bool(p.speed_limit_up_enabled)),
        ("speed_limit_up"@, WireSpec::Int(p.speed_limit_up as i64)),
        ("speed_limit_down_enabled"@, WireSpec::Bool(p.speed_limit_down_enabled)),
        ("speed_limit_down"@, WireSpec::Int(p.speed_limit_down as i64)),
        ("seed_ratio_limited"@, WireSpec::Bool(p.seed_ratio_limited)),
        ("seed_ratio_limit"@, WireSpec::Centi(p.seed_ratio_limit)),
        ("idle_seeding_limit_enabled"@, WireSpec::Bool(p.idle_seeding_limit_enabled)),
        ("idle_seeding_limit"@, WireSpec::Int(p.idle_seeding_limit as i64)),
        ("peer_limit_per_torrent"@, WireSpec::Int(p.peer_limit_per_torrent as i64)),
        ("peer_limit_global"@, WireSpec::Int(p.peer_limit_global as i64)),
        ("encryption"@, WireSpec::Text(encryption_wire(p.encryption_mode, RpcProtocol::Json))),
        ("pex_enabled"@, WireSpec::Bool(p.pex_enabled)),
        ("dht_enabled"@, WireSpec::Bool(p.dht_enabled)),
        ("lpd_enabled"@, WireSpec::Bool(p.lpd_enabled)),
        ("blocklist_enabled"@, WireSpec::Bool(p.blocklist_enabled)),
        ("blocklist_url"@, WireSpec::Text(match p.blocklist_url { Some(s) => s, None => Seq::empty() })),
    ]
}

/// The preference members of a reply, each absent when missing or of another type.
#[derive(Debug)]
pub struct PreferencesResponse {
    pub download_dir: Option<String>,
    pub start_added_torrents: Option<bool>,
    pub speed_limit_up_enabled: Option<bool>,
    pub speed_limit_up: Option<i64>,
    pub speed_limit_down_enabled: Option<bool>,
    pub speed_limit_down: Option<i64>,
    pub seed_ratio_limited: Option<bool>,
    pub seed_ratio_limit: Option<i64>,
    pub idle_seeding_limit_enabled: Option<bool>,
    pub idle_seeding_limit: Option<i64>,
    pub peer_limit_per_torrent: Option<i64>,
    pub peer_limit_global: Option<i64>,
    pub encryption: Option<String>,
    pub pex_enabled: Option<bool>,
    pub dht_enabled: Option<bool>,
    pub lpd_enabled: Option<bool>,
    pub blocklist_enabled: Option<bool>,
    pub blocklist_url: Option<String>,
}

pub struct ResponseView {
    pub download_dir: Option<Seq<char>>,
    pub start_added_torrents: Option<bool>,
    pub speed_limit_up_enabled: Option<bool>,
    pub speed_limit_up: Option<i64>,
    pub speed_limit_down_enabled: Option<bool>,
    pub speed_limit_down: Option<i64>,
    pub seed_ratio_limited: Option<bool>,
    pub seed_ratio_limit: Option<i64>,
    pub idle_seeding_limit_enabled: Option<bool>,
    pub idle_seeding_limit: Option<i64>,
    pub peer_limit_per_torrent: Option<i64>,
    pub peer_limit_global: Option<i64>,
    pub encryption: Option<Seq<char>>,
    pub pex_enabled: Option<bool>,
    pub dht_enabled: Option<bool>,
    pub lpd_enabled: Option<bool>,
    pub blocklist_enabled: Option<bool>,
    pub blocklist_url: Option<Seq<char>>,
}

impl View for PreferencesResponse {
    type V = ResponseView;

    open spec fn view(&self) -> ResponseView {
        ResponseView {
            download_dir: match self.download_dir { Some(s) => Some(s@), None => None },
            start_added_torrents: self.start_added_torrents,
            speed_limit_up_enabled: self.speed_limit_up_enabled,
            speed_limit_up: self.speed_limit_up,
            speed_limit_down_enabled: self.speed_limit_down_enabled,
            speed_limit_down: self.speed_limit_down,
            seed_ratio_limited: self.seed_ratio_limited,
            seed_ratio_limit: self.seed_ratio_limit,
            idle_seeding_limit_enabled: self.idle_seeding_limit_enabled,
            idle_seeding_limit: self.idle_seeding_limit,
            peer_limit_per_torrent: self.peer_limit_per_torrent,
            peer_limit_global: self.peer_limit_global,
            encryption: match self.encryption { Some(s) => Some(s@), None => None },
            pex_enabled: self.pex_enabled,
            dht_enabled: self.dht_enabled,
            lpd_enabled: self.lpd_enabled,
            blocklist_enabled: self.blocklist_enabled,
            blocklist_url: match self.blocklist_url { Some(s) => Some(s@), None => None },
        }
    }
}

/// Each member read under its underscore name or its legacy alias.
pub open spec fn response_spec(es: Seq<(Seq<char>, WireSpec)>) -> ResponseView {
    ResponseView {
        download_dir: text_of(lookup(es, "download_dir"@, "download-dir"@)),
        start_added_torrents: bool_of(lookup(es, "start_added_torrents"@, "start-added-torrents"@)),
        speed_limit_up_enabled: bool_of(lookup(es, "speed_limit_up_enabled"@, "speed-limit-up-enabled"@)),
        speed_limit_up: int_of(lookup(es, "speed_limit_up"@, "speed-limit-up"@)),
        speed_limit_down_enabled: bool_of(lookup(es, "speed_limit_down_enabled"@, "speed-limit-down-enabled"@)),
        speed_limit_down: int_of(lookup(es, "speed_limit_down"@, "speed-limit-down"@)),
        seed_ratio_limited: bool_of(lookup(es, "seed_ratio_limited"@, "seedRatioLimited"@)),
        seed_ratio_limit: centi_of(lookup(es, "seed_ratio_limit"@, "seedRatioLimit"@)),
        idle_seeding_limit_enabled: bool_of(lookup(es, "idle_seeding_limit_enabled"@, "idle-seeding-limit-enabled"@)),
        idle_seeding_limit: int_of(lookup(es, "idle_seeding_limit"@, "idle-seeding-limit"@)),
        peer_limit_per_torrent: int_of(lookup(es, "peer_limit_per_torrent"@, "peer-limit-per-torrent"@)),
        peer_limit_global: int_of(lookup(es, "peer_limit_global"@, "peer-limit-global"@)),
        encryption: text_of(lookup(es, "encryption"@, "encryption"@)),
        pex_enabled: bool_of(lookup(es, "pex_enabled"@, "pex-enabled"@)),
        dht_enabled: bool_of(lookup(es, "dht_enabled"@, "dht-enabled"@)),
        lpd_enabled: bool_of(lookup(es, "lpd_enabled"@, "lpd-enabled"@)),
        blocklist_enabled: bool_of(lookup(es, "blocklist_enabled"@, "blocklist-enabled"@)),
        blocklist_url: text_of(lookup(es, "blocklist_url"@, "blocklist-url"@)),
    }
}

/// A wire integer stored as an unsigned 32-bit value, clamped: negatives
/// become zero and values above `u32::MAX` become `u32::MAX`.
pub open spec fn wire_u32(v: i64) -> u32 {
    if v < 0 {
        0
    } else if v > u32::MAX {
        u32::MAX
    } else {
        v as u32
    }
}

/// Preferences from a reply, with the daemon's defaults for absent members.
pub open spec fn prefs_from_spec(r: ResponseView) -> PrefsView {
    PrefsView {
        download_dir: match r.download_dir { Some(s) => s, None => Seq::empty() },
        start_when_added: match r.start_added_torrents { Some(v) => v, None => true },
        speed_limit_up_enabled: match r.speed_limit_up_enabled { Some(v) => v, None => false },
        speed_limit_up: wire_u32(match r.speed_limit_up { Some(v) => v, None => 0 }),
        speed_limit_down_enabled: match r.speed_limit_down_enabled { Some(v) => v, None => false },
        speed_limit_down: wire_u32(match r.speed_limit_down { Some(v) => v, None => 0 }),
        seed_ratio_limited: match r.seed_ratio_limited { Some(v) => v, None => false },
        seed_ratio_limit: match r.seed_ratio_limit { Some(v) => v, None => 200 },
        idle_seeding_limit_enabled: match r.idle_seeding_limit_enabled { Some(v) => v, None => false },
        idle_seeding_limit: wire_u32(match r.idle_seeding_limit { Some(v) => v, None => 30 }),
        peer_limit_per_torrent: wire_u32(match r.peer_limit_per_torrent { Some(v) => v, None => 50 }),
        peer_limit_global: wire_u32(match r.peer_limit_global { Some(v) => v, None => 200 }),
        encryption_mode: match r.encryption { Some(s) => encryption_from_wire(s), None => EncryptionMode::Prefer },
        pex_enabled: match r.pex_enabled { Some(v) => v, None => true },
        dht_enabled: match r.dht_enabled { Some(v) => v, None => true },
        lpd_enabled: match r.lpd_enabled { Some(v) => v, None => true },
        blocklist_enabled: match r.blocklist_enabled { Some(v) => v, None => false },
        blocklist_url: match r.blocklist_url { Some(s) => if s.len() > 0 { Some(s) } else { None }, None => None },
    }
}

fn wire_to_u32(v: i64) -> (r: u32)
    ensures
        r == wire_u32(v),
{
    if v < 0 {
        0
    } else if v > 4294967295 {
        4294967295
    } else {
        v as u32
    }
}

impl DaemonPreferences {
    /// The argument map of a `session_set` call.
    pub fn to_rpc_map(&self) -> (r: Vec<WireEntry>)
        ensures
            entries_view(r@) == rpc_map_spec(self@),
    {
        let mut args: Vec<WireEntry> = Vec::new();
        args.push(entry("download_dir", WireValue::Text(self.download_dir.clone())));
        args.push(entry("start_added_torrents", WireValue::Bool(self.start_when_added)));
        args.push(entry("speed_limit_up_enabled", WireValue::Bool(self.speed_limit_up_enabled)));
        args.push(entry("speed_limit_up", WireValue::Int(self.speed_limit_up as i64)));
        args.push(entry("speed_limit_down_enabled", WireValue::Bool(self.speed_limit_down_enabled)));
        args.push(entry("speed_limit_down", WireValue::Int(self.speed_limit_down as i64)));
        args.push(entry("seed_ratio_limited", WireValue::Bool(self.seed_ratio_limited)));
        args.push(entry("seed_ratio_limit", WireValue::Centi(self.seed_ratio_limit)));
        args.push(entry("idle_seeding_limit_enabled", WireValue::Bool(self.idle_seeding_limit_enabled)));
        args.push(entry("idle_seeding_limit", WireValue::Int(self.idle_seeding_limit as i64)));
        args.push(entry("peer_limit_per_torrent", WireValue::Int(self.peer_limit_per_torrent as i64)));
        args.push(entry("peer_limit_global", WireValue::Int(self.peer_limit_global as i64)));
        args.push(entry("encryption", WireValue::Text(String::from_str(self.encryption_mode.rpc_value()))));
        args.push(entry("pex_enabled", WireValue::Bool(self.pex_enabled)));
        args.push(entry("dht_enabled", WireValue::Bool(self.dht_enabled)));
        args.push(entry("lpd_enabled", WireValue::Bool(self.lpd_enabled)));
        args.push(entry("blocklist_enabled", WireValue::Bool(self.blocklist_enabled)));
        args.push(entry("blocklist_url", WireValue::Text(
            match &self.blocklist_url {
                Some(s) => s.clone(),
                None => String::new(),
            },
        )));
        assert(entries_view(args@) =~= rpc_map_spec(self@));
        args
    }

    /// Preferences from a decoded reply, with defaults for absent members.
    #[verifier::rlimit(60)]
    pub fn from_response(value: PreferencesResponse) -> (r: Self)
        ensures
            r@ == prefs_from_spec(value@),
    {
        let download_dir = match value.download_dir { Some(s) => s, None => String::new() };
        let start_when_added = match value.start_added_torrents { Some(v) => v, None => true };
        let speed_limit_up_enabled = match value.speed_limit_up_enabled { Some(v) => v, None => false };
        let speed_limit_up = wire_to_u32(match value.speed_limit_up { Some(v) => v, None => 0 });
        let speed_limit_down_enabled = match value.speed_limit_down_enabled { Some(v) => v, None => false };
        let speed_limit_down = wire_to_u32(match value.speed_limit_down { Some(v) => v, None => 0 });
        let seed_ratio_limited = match value.seed_ratio_limited { Some(v) => v, None => false };
        let seed_ratio_limit = match value.seed_ratio_limit { Some(v) => v, None => 200 };
        let idle_seeding_limit_enabled = match value.idle_seeding_limit_enabled { Some(v) => v, None => false };
        let idle_seeding_limit = wire_to_u32(match value.idle_seeding_limit { Some(v) => v, None => 30 });
        let peer_limit_per_torrent = wire_to_u32(match value.peer_limit_per_torrent { Some(v) => v, None => 50 });
        let peer_limit_global = wire_to_u32(match value.peer_limit_global { Some(v) => v, None => 200 });
        let encryption_mode = match &value.encryption { Some(s) => EncryptionMode::from_rpc(s.as_str()), None => EncryptionMode::Prefer };
        let pex_enabled = match value.pex_enabled { Some(v) => v, None => true };
        let dht_enabled = match value.dht_enabled { Some(v) => v, None => true };
        let lpd_enabled = match value.lpd_enabled { Some(v) => v, None => true };
        let blocklist_enabled = match value.blocklist_enabled { Some(v) => v, None => false };
        let blocklist_url = match value.blocklist_url { Some(s) => if s.unicode_len() > 0 { Some(s) } else { None }, None => None };
        DaemonPreferences { download_dir, start_when_added, speed_limit_up_enabled, speed_limit_up, speed_limit_down_enabled, speed_limit_down, seed_ratio_limited, seed_ratio_limit, idle_seeding_limit_enabled, idle_seeding_limit, peer_limit_per_torrent, peer_limit_global, encryption_mode, pex_enabled, dht_enabled, lpd_enabled, blocklist_enabled, blocklist_url }
    }
}

impl PreferencesResponse {
    /// Reads each member under its underscore name or its legacy alias.
    pub fn from_entries(es: &Vec<WireEntry>) -> (r: Self)
        ensures
            r@ == response_spec(entries_view(es@)),
    {
        PreferencesResponse {
            download_dir: find_text(es, "download_dir", "download-dir"),
            start_added_torrents: find_bool(es, "start_added_torrents", "start-added-torrents"),
            speed_limit_up_enabled: find_bool(es, "speed_limit_up_enabled", "speed-limit-up-enabled"),
            speed_limit_up: find_int(es, "speed_limit_up", "speed-limit-up"),
            speed_limit_down_enabled: find_bool(es, "speed_limit_down_enabled", "speed-limit-down-enabled"),
            speed_limit_down: find_int(es, "speed_limit_down", "speed-limit-down"),
            seed_ratio_limited: find_bool(es, "seed_ratio_limited", "seedRatioLimited"),
            seed_ratio_limit: find_centi(es, "seed_ratio_limit", "seedRatioLimit"),
            idle_seeding_limit_enabled: find_bool(es, "idle_seeding_limit_enabled", "idle-seeding-limit-enabled"),
            idle_seeding_limit: find_int(es, "idle_seeding_limit", "idle-seeding-limit"),
            peer_limit_per_torrent: find_int(es, "peer_limit_per_torrent", "peer-limit-per-torrent"),
            peer_limit_global: find_int(es, "peer_limit_global", "peer-limit-global"),
            encryption: find_text(es, "encryption", "encryption"),
            pex_enabled: find_bool(es, "pex_enabled", "pex-enabled"),
            dht_enabled: find_bool(es, "dht_enabled", "dht-enabled"),
            lpd_enabled: find_bool(es, "lpd_enabled", "lpd-enabled"),
            blocklist_enabled: find_bool(es, "blocklist_enabled", "blocklist-enabled"),
            blocklist_url: find_text(es, "blocklist_url", "blocklist-url"),
        }
    }
}

proof fn lemma_lookup_at(es: Seq<(Seq<char>, WireSpec)>, a: Seq<char>, b: Seq<char>, i: int)
    requires
        0 <= i < es.len(),
        es[i].0 == a || es[i].0 == b,
        forall|j: int| 0 <= j < i ==> es[j].0 != a && es[j].0 != b,
    ensures
        lookup(es, a, b) == Some(es[i].1),
    decreases i,
{
    if i > 0 {
        let rest = es.drop_first();
        assert forall|j: int| 0 <= j < i - 1 implies rest[j].0 != a && rest[j].0 != b by {
            assert(rest[j] == es[j + 1]);
        }
        lemma_lookup_at(rest, a, b, i - 1);
    }
}

/// The member names of the preferences argument map, in order.
spec fn key_at(k: int) -> Seq<char> {
    if k == 0 {
        "download_dir"@
    } else if k == 1 {
        "start_added_torrents"@
    } else if k == 2 {
        "speed_limit_up_enabled"@
    } else if k == 3 {
        "speed_limit_up"@
    } else if k == 4 {
        "speed_limit_down_enabled"@
    } else if k == 5 {
        "speed_limit_down"@
    } else if k == 6 {
        "seed_ratio_limited"@
    } else if k == 7 {
        "seed_ratio_limit"@
    } else if k == 8 {
        "idle_seeding_limit_enabled"@
    } else if k == 9 {
        "idle_seeding_limit"@
    } else if k == 10 {
        "peer_limit_per_torrent"@
    } else if k == 11 {
        "peer_limit_global"@
    } else if k == 12 {
        "encryption"@
    } else if k == 13 {
        "pex_enabled"@
    } else if k == 14 {
        "dht_enabled"@
    } else if k == 15 {
        "lpd_enabled"@
    } else if k == 16 {
        "blocklist_enabled"@
    } else {
        "blocklist_url"@
    }
}

/// Writing preferences as an argument map and decoding that map gives the
/// same preferences back, for every value whose blocklist URL, when present,
/// is not empty (an empty URL reads back as absent).
pub proof fn lemma_preferences_round_trip(p: PrefsView)
    requires
        p.blocklist_url matches Some(u) ==> u.len() > 0,
    ensures
        prefs_from_spec(response_spec(rpc_map_spec(p))) == p,
{
    reveal_strlit("blocklist-enabled");
    reveal_strlit("blocklist-url");
    reveal_strlit("blocklist_enabled");
    reveal_strlit("blocklist_url");
    reveal_strlit("dht-enabled");
    reveal_strlit("dht_enabled");
    reveal_strlit("download-dir");
    reveal_strlit("download_dir");
    reveal_strlit("encryption");
    reveal_strlit("idle-seeding-limit");
    reveal_strlit("idle-seeding-limit-enabled");
    reveal_strlit("idle_seeding_limit");
    reveal_strlit("idle_seeding_limit_enabled");
    reveal_strlit("lpd-enabled");
    reveal_strlit("lpd_enabled");
    reveal_strlit("peer-limit-global");
    reveal_strlit("peer-limit-per-torrent");
    reveal_strlit("peer_limit_global");
    reveal_strlit("peer_limit_per_torrent");
    reveal_strlit("pex-enabled");
    reveal_strlit("pex_enabled");
    reveal_strlit("seedRatioLimit");
    reveal_strlit("seedRatioLimited");
    reveal_strlit("seed_ratio_limit");
    reveal_strlit("seed_ratio_limited");
    reveal_strlit("speed-limit-down");
    reveal_strlit("speed-limit-down-enabled");
    reveal_strlit("speed-limit-up");
    reveal_strlit("speed-limit-up-enabled");
    reveal_strlit("speed_limit_down");
    reveal_strlit("speed_limit_down_enabled");
    reveal_strlit("speed_limit_up");
    reveal_strlit("speed_limit_up_enabled");
    reveal_strlit("start-added-torrents");
    reveal_strlit("start_added_torrents");
    assert("blocklist-enabled"@.len() == 17);
    assert("blocklist-url"@.len() == 13);
    assert("blocklist_enabled"@.len() == 17);
    assert("blocklist_url"@.len() == 13);
    assert("dht-enabled"@.len() == 11);
    assert("dht_enabled"@.len() == 11);
    assert("download-dir"@.len() == 12);
    assert("download_dir"@.len() == 12);
    assert("encryption"@.len() == 10);
    assert("idle-seeding-limit"@.len() == 18);
    assert("idle-seeding-limit-enabled"@.len() == 26);
    assert("idle_seeding_limit"@.len() == 18);
    assert("idle_seeding_limit_enabled"@.len() == 26);
    assert("lpd-enabled"@.len() == 11);
    assert("lpd_enabled"@.len() == 11);
    assert("peer-limit-global"@.len() == 17);
    assert("peer-limit-per-torrent"@.len() == 22);
    assert("peer_limit_global"@.len() == 17);
    assert("peer_limit_per_torrent"@.len() == 22);
    assert("pex-enabled"@.len() == 11);
    assert("pex_enabled"@.len() == 11);
    assert("seedRatioLimit"@.len() == 14);
    assert("seedRatioLimited"@.len() == 16);
    assert("seed_ratio_limit"@.len() == 16);
    assert("seed_ratio_limited"@.len() == 18);
    assert("speed-limit-down"@.len() == 16);
    assert("speed-limit-down-enabled"@.len() == 24);
    assert("speed-limit-up"@.len() == 14);
    assert("speed-limit-up-enabled"@.len() == 22);
    assert("speed_limit_down"@.len() == 16);
    assert("speed_limit_down_enabled"@.len() == 24);
    assert("speed_limit_up"@.len() == 14);
    assert("speed_limit_up_enabled"@.len() == 22);
    assert("start-added-torrents"@.len() == 20);
    assert("start_added_torrents"@.len() == 20);
    assert("blocklist-enabled"@[9] != "blocklist_enabled"@[9]);
    assert("blocklist-enabled"@[0] != "peer-limit-global"@[0]);
    assert("blocklist-enabled"@[0] != "peer_limit_global"@[0]);
    assert("blocklist-url"@[9] != "blocklist_url"@[9]);
    assert("blocklist_enabled"@[0] != "peer-limit-global"@[0]);
    assert("blocklist_enabled"@[0] != "peer_limit_global"@[0]);
    assert("dht-enabled"@[3] != "dht_enabled"@[3]);
    assert("dht-enabled"@[0] != "lpd-enabled"@[0]);
    assert("dht-enabled"@[0] != "lpd_enabled"@[0]);
    assert("dht-enabled"@[0] != "pex-enabled"@[0]);
    assert("dht-enabled"@[0] != "pex_enabled"@[0]);
    assert("dht_enabled"@[0] != "lpd-enabled"@[0]);
    assert("dht_enabled"@[0] != "lpd_enabled"@[0]);
    assert("dht_enabled"@[0] != "pex-enabled"@[0]);
    assert("dht_enabled"@[0] != "pex_enabled"@[0]);
    assert("download-dir"@[8] != "download_dir"@[8]);
    assert("idle-seeding-limit"@[4] != "idle_seeding_limit"@[4]);
    assert("idle-seeding-limit"@[0] != "seed_ratio_limited"@[0]);
    assert("idle-seeding-limit-enabled"@[4] != "idle_seeding_limit_enabled"@[4]);
    assert("idle_seeding_limit"@[0] != "seed_ratio_limited"@[0]);
    assert("lpd-enabled"@[3] != "lpd_enabled"@[3]);
    assert("lpd-enabled"@[0] != "pex-enabled"@[0]);
    assert("lpd-enabled"@[0] != "pex_enabled"@[0]);
    assert("lpd_enabled"@[0] != "pex-enabled"@[0]);
    assert("lpd_enabled"@[0] != "pex_enabled"@[0]);
    assert("peer-limit-global"@[4] != "peer_limit_global"@[4]);
    assert("peer-limit-per-torrent"@[4] != "peer_limit_per_torrent"@[4]);
    assert("peer-limit-per-torrent"@[0] != "speed-limit-up-enabled"@[0]);
    assert("peer-limit-per-torrent"@[0] != "speed_limit_up_enabled"@[0]);
    assert("peer_limit_per_torrent"@[0] != "speed-limit-up-enabled"@[0]);
    assert("peer_limit_per_torrent"@[0] != "speed_limit_up_enabled"@[0]);
    assert("pex-enabled"@[3] != "pex_enabled"@[3]);
    assert("seedRatioLimit"@[1] != "speed-limit-up"@[1]);
    assert("seedRatioLimit"@[1] != "speed_limit_up"@[1]);
    assert("seedRatioLimited"@[4] != "seed_ratio_limit"@[4]);
    assert("seedRatioLimited"@[1] != "speed-limit-down"@[1]);
    assert("seedRatioLimited"@[1] != "speed_limit_down"@[1]);
    assert("seed_ratio_limit"@[1] != "speed-limit-down"@[1]);
    assert("seed_ratio_limit"@[1] != "speed_limit_down"@[1]);
    assert("speed-limit-down"@[5] != "speed_limit_down"@[5]);
    assert("speed-limit-down-enabled"@[5] != "speed_limit_down_enabled"@[5]);
    assert("speed-limit-up"@[5] != "speed_limit_up"@[5]);
    assert("speed-limit-up-enabled"@[5] != "speed_limit_up_enabled"@[5]);
    assert("start-added-torrents"@[5] != "start_added_torrents"@[5]);
    lemma_encryption_round_trip(p.encryption_mode, RpcProtocol::Json);
    let es = rpc_map_spec(p);
    assert forall|k: int| 0 <= k < 18 implies #[trigger] es[k].0 == key_at(k) by {}
    lemma_lookup_at(es, "download_dir"@, "download-dir"@, 0);
    lemma_lookup_at(es, "start_added_torrents"@, "start-added-torrents"@, 1);
    lemma_lookup_at(es, "speed_limit_up_enabled"@, "speed-limit-up-enabled"@, 2);
    lemma_lookup_at(es, "speed_limit_up"@, "speed-limit-up"@, 3);
    lemma_lookup_at(es, "speed_limit_down_enabled"@, "speed-limit-down-enabled"@, 4);
    lemma_lookup_at(es, "speed_limit_down"@, "speed-limit-down"@, 5);
    lemma_lookup_at(es, "seed_ratio_limited"@, "seedRatioLimited"@, 6);
    lemma_lookup_at(es, "seed_ratio_limit"@, "seedRatioLimit"@, 7);
    lemma_lookup_at(es, "idle_seeding_limit_enabled"@, "idle-seeding-limit-enabled"@, 8);
    lemma_lookup_at(es, "idle_seeding_limit"@, "idle-seeding-limit"@, 9);
    lemma_lookup_at(es, "peer_limit_per_torrent"@, "peer-limit-per-torrent"@, 10);
    lemma_lookup_at(es, "peer_limit_global"@, "peer-limit-global"@, 11);
    lemma_lookup_at(es, "encryption"@, "encryption"@, 12);
    lemma_lookup_at(es, "pex_enabled"@, "pex-enabled"@, 13);
    lemma_lookup_at(es, "dht_enabled"@, "dht-enabled"@, 14);
    lemma_lookup_at(es, "lpd_enabled"@, "lpd-enabled"@, 15);
    lemma_lookup_at(es, "blocklist_enabled"@, "blocklist-enabled"@, 16);
    lemma_lookup_at(es, "blocklist_url"@, "blocklist-url"@, 17);
}

/// The legacy member names of the preferences argument map, in order.
spec fn legacy_key_at(k: int) -> Seq<char> {
    if k == 0 {
        "download-dir"@
    } else if k == 1 {
        "start-added-torrents"@
    } else if k == 2 {
        "speed-limit-up-enabled"@
    } else if k == 3 {
        "speed-limit-up"@
    } else if k == 4 {
        "speed-limit-down-enabled"@
    } else if k == 5 {
        "speed-limit-down"@
    } else if k == 6 {
        "seedRatioLimited"@
    } else if k == 7 {
        "seedRatioLimit"@
    } else if k == 8 {
        "idle-seeding-limit-enabled"@
    } else if k == 9 {
        "idle-seeding-limit"@
    } else if k == 10 {
        "peer-limit-per-torrent"@
    } else if k == 11 {
        "peer-limit-global"@
    } else if k == 12 {
        "encryption"@
    } else if k == 13 {
        "pex-enabled"@
    } else if k == 14 {
        "dht-enabled"@
    } else if k == 15 {
        "lpd-enabled"@
    } else if k == 16 {
        "blocklist-enabled"@
    } else {
        "blocklist-url"@
    }
}

/// Each member name of the preferences argument map has its legacy
/// spelling as the legacy session name.
proof fn lemma_legacy_keys()
    ensures
        forall|k: int| 0 <= k < 18 ==> #[trigger] legacy_session_name(key_at(k)) == legacy_key_at(k),
{
    reveal_strlit("blocklist-enabled");
    reveal_strlit("blocklist-url");
    reveal_strlit("blocklist_enabled");
    reveal_strlit("blocklist_url");
    reveal_strlit("dht-enabled");
    reveal_strlit("dht_enabled");
    reveal_strlit("download-dir");
    reveal_strlit("download_dir");
    reveal_strlit("encryption");
    reveal_strlit("idle-seeding-limit");
    reveal_strlit("idle-seeding-limit-enabled");
    reveal_strlit("idle_seeding_limit");
    reveal_strlit("idle_seeding_limit_enabled");
    reveal_strlit("lpd-enabled");
    reveal_strlit("lpd_enabled");
    reveal_strlit("peer-limit-global");
    reveal_strlit("peer-limit-per-torrent");
    reveal_strlit("peer_limit_global");
    reveal_strlit("peer_limit_per_torrent");
    reveal_strlit("pex-enabled");
    reveal_strlit("pex_enabled");
    reveal_strlit("seedRatioLimit");
    reveal_strlit("seedRatioLimited");
    reveal_strlit("seed_ratio_limit");
    reveal_strlit("seed_ratio_limited");
    reveal_strlit("speed-limit-down");
    reveal_strlit("speed-limit-down-enabled");
    reveal_strlit("speed-limit-up");
    reveal_strlit("speed-limit-up-enabled");
    reveal_strlit("speed_limit_down");
    reveal_strlit("speed_limit_down_enabled");
    reveal_strlit("speed_limit_up");
    reveal_strlit("speed_limit_up_enabled");
    reveal_strlit("start-added-torrents");
    reveal_strlit("start_added_torrents");
    assert("blocklist-enabled"@.len() == 17);
    assert("blocklist-url"@.len() == 13);
    assert("blocklist_enabled"@.len() == 17);
    assert("blocklist_url"@.len() == 13);
    assert("dht-enabled"@.len() == 11);
    assert("dht_enabled"@.len() == 11);
    assert("download-dir"@.len() == 12);
    assert("download_dir"@.len() == 12);
    assert("encryption"@.len() == 10);
    assert("idle-seeding-limit"@.len() == 18);
    assert("idle-seeding-limit-enabled"@.len() == 26);
    assert("idle_seeding_limit"@.len() == 18);
    assert("idle_seeding_limit_enabled"@.len() == 26);
    assert("lpd-enabled"@.len() == 11);
    assert("lpd_enabled"@.len() == 11);
    assert("peer-limit-global"@.len() == 17);
    assert("peer-limit-per-torrent"@.len() == 22);
    assert("peer_limit_global"@.len() == 17);
    assert("peer_limit_per_torrent"@.len() == 22);
    assert("pex-enabled"@.len() == 11);
    assert("pex_enabled"@.len() == 11);
    assert("seedRatioLimit"@.len() == 14);
    assert("seedRatioLimited"@.len() == 16);
    assert("seed_ratio_limit"@.len() == 16);
    assert("seed_ratio_limited"@.len() == 18);
    assert("speed-limit-down"@.len() == 16);
    assert("speed-limit-down-enabled"@.len() == 24);
    assert("speed-limit-up"@.len() == 14);
    assert("speed-limit-up-enabled"@.len() == 22);
    assert("speed_limit_down"@.len() == 16);
    assert("speed_limit_down_enabled"@.len() == 24);
    assert("speed_limit_up"@.len() == 14);
    assert("speed_limit_up_enabled"@.len() == 22);
    assert("start-added-torrents"@.len() == 20);
    assert("start_added_torrents"@.len() == 20);
    assert("blocklist-enabled"@[9] != "blocklist_enabled"@[9]);
    assert("blocklist-enabled"@[0] != "peer-limit-global"@[0]);
    assert("blocklist-enabled"@[0] != "peer_limit_global"@[0]);
    assert("blocklist-url"@[9] != "blocklist_url"@[9]);
    assert("blocklist_enabled"@[0] != "peer-limit-global"@[0]);
    assert("blocklist_enabled"@[0] != "peer_limit_global"@[0]);
    assert("dht-enabled"@[3] != "dht_enabled"@[3]);
    assert("dht-enabled"@[0] != "lpd-enabled"@[0]);
    assert("dht-enabled"@[0] != "lpd_enabled"@[0]);
    assert("dht-enabled"@[0] != "pex-enabled"@[0]);
    assert("dht-enabled"@[0] != "pex_enabled"@[0]);
    assert("dht_enabled"@[0] != "lpd-enabled"@[0]);
    assert("dht_enabled"@[0] != "lpd_enabled"@[0]);
    assert("dht_enabled"@[0] != "pex-enabled"@[0]);
    assert("dht_enabled"@[0] != "pex_enabled"@[0]);
    assert("download-dir"@[8] != "download_dir"@[8]);
    assert("idle-seeding-limit"@[4] != "idle_seeding_limit"@[4]);
    assert("idle-seeding-limit"@[0] != "seed_ratio_limited"@[0]);
    assert("idle-seeding-limit-enabled"@[4] != "idle_seeding_limit_enabled"@[4]);
    assert("idle_seeding_limit"@[0] != "seed_ratio_limited"@[0]);
    assert("lpd-enabled"@[3] != "lpd_enabled"@[3]);
    assert("lpd-enabled"@[0] != "pex-enabled"@[0]);
    assert("lpd-enabled"@[0] != "pex_enabled"@[0]);
    assert("lpd_enabled"@[0] != "pex-enabled"@[0]);
    assert("lpd_enabled"@[0] != "pex_enabled"@[0]);
    assert("peer-limit-global"@[4] != "peer_limit_global"@[4]);
    assert("peer-limit-per-torrent"@[4] != "peer_limit_per_torrent"@[4]);
    assert("peer-limit-per-torrent"@[0] != "speed-limit-up-enabled"@[0]);
    assert("peer-limit-per-torrent"@[0] != "speed_limit_up_enabled"@[0]);
    assert("peer_limit_per_torrent"@[0] != "speed-limit-up-enabled"@[0]);
    assert("peer_limit_per_torrent"@[0] != "speed_limit_up_enabled"@[0]);
    assert("pex-enabled"@[3] != "pex_enabled"@[3]);
    assert("seedRatioLimit"@[1] != "speed-limit-up"@[1]);
    assert("seedRatioLimit"@[1] != "speed_limit_up"@[1]);
    assert("seedRatioLimited"@[4] != "seed_ratio_limit"@[4]);
    assert("seedRatioLimited"@[1] != "speed-limit-down"@[1]);
    assert("seedRatioLimited"@[1] != "speed_limit_down"@[1]);
    assert("seed_ratio_limit"@[1] != "speed-limit-down"@[1]);
    assert("seed_ratio_limit"@[1] != "speed_limit_down"@[1]);
    assert("speed-limit-down"@[5] != "speed_limit_down"@[5]);
    assert("speed-limit-down-enabled"@[5] != "speed_limit_down_enabled"@[5]);
    assert("speed-limit-up"@[5] != "speed_limit_up"@[5]);
    assert("speed-limit-up-enabled"@[5] != "speed_limit_up_enabled"@[5]);
    assert("start-added-torrents"@[5] != "start_added_torrents"@[5]);
    assert(legacy_session_name("download_dir"@) == "download-dir"@);
    assert(legacy_session_name("start_added_torrents"@) == "start-added-torrents"@);
    assert(legacy_session_name("speed_limit_up_enabled"@) == "speed-limit-up-enabled"@);
    assert(legacy_session_name("speed_limit_up"@) == "speed-limit-up"@);
    assert(legacy_session_name("speed_limit_down_enabled"@) == "speed-limit-down-enabled"@);
    assert(legacy_session_name("speed_limit_down"@) == "speed-limit-down"@);
    assert(legacy_session_name("seed_ratio_limited"@) == "seedRatioLimited"@);
    assert(legacy_session_name("seed_ratio_limit"@) == "seedRatioLimit"@);
    assert(legacy_session_name("idle_seeding_limit_enabled"@) == "idle-seeding-limit-enabled"@);
    assert(legacy_session_name("idle_seeding_limit"@) == "idle-seeding-limit"@);
    assert(legacy_session_name("peer_limit_per_torrent"@) == "peer-limit-per-torrent"@);
    assert(legacy_session_name("peer_limit_global"@) == "peer-limit-global"@);
    assert(legacy_session_name("encryption"@) == "encryption"@);
    assert(legacy_session_name("pex_enabled"@) == "pex-enabled"@);
    assert(legacy_session_name("dht_enabled"@) == "dht-enabled"@);
    assert(legacy_session_name("lpd_enabled"@) == "lpd-enabled"@);
    assert(legacy_session_name("blocklist_enabled"@) == "blocklist-enabled"@);
    assert(legacy_session_name("blocklist_url"@) == "blocklist-url"@);
}

/// The same holds when the map is first spelled for the legacy dialect:
/// legacy member names and the legacy encryption spelling decode back to the
/// same preferences.
#[verifier::rlimit(100)]
pub proof fn lemma_legacy_preferences_round_trip(p: PrefsView)
    requires
        p.blocklist_url matches Some(u) ==> u.len() > 0,
    ensures
        prefs_from_spec(
            response_spec(translated(RpcProtocol::Legacy, RpcMethod::SessionSet, rpc_map_spec(p))),
        ) == p,
{
    reveal_strlit("allowed");
    reveal_strlit("blocklist-enabled");
    reveal_strlit("blocklist-url");
    reveal_strlit("blocklist_enabled");
    reveal_strlit("blocklist_url");
    reveal_strlit("dht-enabled");
    reveal_strlit("dht_enabled");
    reveal_strlit("download-dir");
    reveal_strlit("download_dir");
    reveal_strlit("encryption");
    reveal_strlit("idle-seeding-limit");
    reveal_strlit("idle-seeding-limit-enabled");
    reveal_strlit("idle_seeding_limit");
    reveal_strlit("idle_seeding_limit_enabled");
    reveal_strlit("lpd-enabled");
    reveal_strlit("lpd_enabled");
    reveal_strlit("peer-limit-global");
    reveal_strlit("peer-limit-per-torrent");
    reveal_strlit("peer_limit_global");
    reveal_strlit("peer_limit_per_torrent");
    reveal_strlit("pex-enabled");
    reveal_strlit("pex_enabled");
    reveal_strlit("seedRatioLimit");
    reveal_strlit("seedRatioLimited");
    reveal_strlit("seed_ratio_limit");
    reveal_strlit("seed_ratio_limited");
    reveal_strlit("speed-limit-down");
    reveal_strlit("speed-limit-down-enabled");
    reveal_strlit("speed-limit-up");
    reveal_strlit("speed-limit-up-enabled");
    reveal_strlit("speed_limit_down");
    reveal_strlit("speed_limit_down_enabled");
    reveal_strlit("speed_limit_up");
    reveal_strlit("speed_limit_up_enabled");
    reveal_strlit("start-added-torrents");
    reveal_strlit("start_added_torrents");
    reveal_strlit("tolerated");
    assert("allowed"@.len() == 7);
    assert("blocklist-enabled"@.len() == 17);
    assert("blocklist-url"@.len() == 13);
    assert("blocklist_enabled"@.len() == 17);
    assert("blocklist_url"@.len() == 13);
    assert("dht-enabled"@.len() == 11);
    assert("dht_enabled"@.len() == 11);
    assert("download-dir"@.len() == 12);
    assert("download_dir"@.len() == 12);
    assert("encryption"@.len() == 10);
    assert("idle-seeding-limit"@.len() == 18);
    assert("idle-seeding-limit-enabled"@.len() == 26);
    assert("idle_seeding_limit"@.len() == 18);
    assert("idle_seeding_limit_enabled"@.len() == 26);
    assert("lpd-enabled"@.len() == 11);
    assert("lpd_enabled"@.len() == 11);
    assert("peer-limit-global"@.len() == 17);
    assert("peer-limit-per-torrent"@.len() == 22);
    assert("peer_limit_global"@.len() == 17);
    assert("peer_limit_per_torrent"@.len() == 22);
    assert("pex-enabled"@.len() == 11);
    assert("pex_enabled"@.len() == 11);
    assert("seedRatioLimit"@.len() == 14);
    assert("seedRatioLimited"@.len() == 16);
    assert("seed_ratio_limit"@.len() == 16);
    assert("seed_ratio_limited"@.len() == 18);
    assert("speed-limit-down"@.len() == 16);
    assert("speed-limit-down-enabled"@.len() == 24);
    assert("speed-limit-up"@.len() == 14);
    assert("speed-limit-up-enabled"@.len() == 22);
    assert("speed_limit_down"@.len() == 16);
    assert("speed_limit_down_enabled"@.len() == 24);
    assert("speed_limit_up"@.len() == 14);
    assert("speed_limit_up_enabled"@.len() == 22);
    assert("start-added-torrents"@.len() == 20);
    assert("start_added_torrents"@.len() == 20);
    assert("tolerated"@.len() == 9);
    assert("blocklist-enabled"@[9] != "blocklist_enabled"@[9]);
    assert("blocklist-enabled"@[0] != "peer-limit-global"@[0]);
    assert("blocklist-enabled"@[0] != "peer_limit_global"@[0]);
    assert("blocklist-url"@[9] != "blocklist_url"@[9]);
    assert("blocklist_enabled"@[0] != "peer-limit-global"@[0]);
    assert("blocklist_enabled"@[0] != "peer_limit_global"@[0]);
    assert("dht-enabled"@[3] != "dht_enabled"@[3]);
    assert("dht-enabled"@[0] != "lpd-enabled"@[0]);
    assert("dht-enabled"@[0] != "lpd_enabled"@[0]);
    assert("dht-enabled"@[0] != "pex-enabled"@[0]);
    assert("dht-enabled"@[0] != "pex_enabled"@[0]);
    assert("dht_enabled"@[0] != "lpd-enabled"@[0]);
    assert("dht_enabled"@[0] != "lpd_enabled"@[0]);
    assert("dht_enabled"@[0] != "pex-enabled"@[0]);
    assert("dht_enabled"@[0] != "pex_enabled"@[0]);
    assert("download-dir"@[8] != "download_dir"@[8]);
    assert("idle-seeding-limit"@[4] != "idle_seeding_limit"@[4]);
    assert("idle-seeding-limit"@[0] != "seed_ratio_limited"@[0]);
    assert("idle-seeding-limit-enabled"@[4] != "idle_seeding_limit_enabled"@[4]);
    assert("idle_seeding_limit"@[0] != "seed_ratio_limited"@[0]);
    assert("lpd-enabled"@[3] != "lpd_enabled"@[3]);
    assert("lpd-enabled"@[0] != "pex-enabled"@[0]);
    assert("lpd-enabled"@[0] != "pex_enabled"@[0]);
    assert("lpd_enabled"@[0] != "pex-enabled"@[0]);
    assert("lpd_enabled"@[0] != "pex_enabled"@[0]);
    assert("peer-limit-global"@[4] != "peer_limit_global"@[4]);
    assert("peer-limit-per-torrent"@[4] != "peer_limit_per_torrent"@[4]);
    assert("peer-limit-per-torrent"@[0] != "speed-limit-up-enabled"@[0]);
    assert("peer-limit-per-torrent"@[0] != "speed_limit_up_enabled"@[0]);
    assert("peer_limit_per_torrent"@[0] != "speed-limit-up-enabled"@[0]);
    assert("peer_limit_per_torrent"@[0] != "speed_limit_up_enabled"@[0]);
    assert("pex-enabled"@[3] != "pex_enabled"@[3]);
    assert("seedRatioLimit"@[1] != "speed-limit-up"@[1]);
    assert("seedRatioLimit"@[1] != "speed_limit_up"@[1]);
    assert("seedRatioLimited"@[4] != "seed_ratio_limit"@[4]);
    assert("seedRatioLimited"@[1] != "speed-limit-down"@[1]);
    assert("seedRatioLimited"@[1] != "speed_limit_down"@[1]);
    assert("seed_ratio_limit"@[1] != "speed-limit-down"@[1]);
    assert("seed_ratio_limit"@[1] != "speed_limit_down"@[1]);
    assert("speed-limit-down"@[5] != "speed_limit_down"@[5]);
    assert("speed-limit-down-enabled"@[5] != "speed_limit_down_enabled"@[5]);
    assert("speed-limit-up"@[5] != "speed_limit_up"@[5]);
    assert("speed-limit-up-enabled"@[5] != "speed_limit_up_enabled"@[5]);
    assert("start-added-torrents"@[5] != "start_added_torrents"@[5]);
    lemma_encryption_round_trip(p.encryption_mode, RpcProtocol::Json);
    lemma_encryption_round_trip(p.encryption_mode, RpcProtocol::Legacy);
    let es = rpc_map_spec(p);
    let es2 = translated(RpcProtocol::Legacy, RpcMethod::SessionSet, es);
    assert forall|k: int| 0 <= k < 18 implies #[trigger] es[k].0 == key_at(k) by {}
    lemma_legacy_keys();
    assert forall|k: int| 0 <= k < 18 implies #[trigger] es2[k].0 == legacy_key_at(k) by {}
    assert forall|k: int| 0 <= k < 18 && k != 12 implies #[trigger] es2[k].1 == es[k].1 by {}
    lemma_lookup_at(es2, "download_dir"@, "download-dir"@, 0);
    lemma_lookup_at(es2, "start_added_torrents"@, "start-added-torrents"@, 1);
    lemma_lookup_at(es2, "speed_limit_up_enabled"@, "speed-limit-up-enabled"@, 2);
    lemma_lookup_at(es2, "speed_limit_up"@, "speed-limit-up"@, 3);
    lemma_lookup_at(es2, "speed_limit_down_enabled"@, "speed-limit-down-enabled"@, 4);
    lemma_lookup_at(es2, "speed_limit_down"@, "speed-limit-down"@, 5);
    lemma_lookup_at(es2, "seed_ratio_limited"@, "seedRatioLimited"@, 6);
    lemma_lookup_at(es2, "seed_ratio_limit"@, "seedRatioLimit"@, 7);
    lemma_lookup_at(es2, "idle_seeding_limit_enabled"@, "idle-seeding-limit-enabled"@, 8);
    lemma_lookup_at(es2, "idle_seeding_limit"@, "idle-seeding-limit"@, 9);
    lemma_lookup_at(es2, "peer_limit_per_torrent"@, "peer-limit-per-torrent"@, 10);
    lemma_lookup_at(es2, "peer_limit_global"@, "peer-limit-global"@, 11);
    lemma_lookup_at(es2, "encryption"@, "encryption"@, 12);
    lemma_lookup_at(es2, "pex_enabled"@, "pex-enabled"@, 13);
    lemma_lookup_at(es2, "dht_enabled"@, "dht-enabled"@, 14);
    lemma_lookup_at(es2, "lpd_enabled"@, "lpd-enabled"@, 15);
    lemma_lookup_at(es2, "blocklist_enabled"@, "blocklist-enabled"@, 16);
    lemma_lookup_at(es2, "blocklist_url"@, "blocklist-url"@, 17);
    let d = prefs_from_spec(response_spec(es2));
    if p.encryption_mode == EncryptionMode::Allow {
        assert(es[12].1 == WireSpec::Text("allowed"@));
        assert(es2[12].1 == WireSpec::Text("tolerated"@));
    } else {
        reveal_strlit("preferred");
        reveal_strlit("required");
        assert("preferred"@.len() == 9);
        assert("required"@.len() == 8);
        assert(es[12].1 != WireSpec::Text("allowed"@));
        assert(es2[12].1 == es[12].1);
    }
    assert(d.encryption_mode == p.encryption_mode);
    assert(d.download_dir == p.download_dir);
    assert(d.blocklist_url == p.blocklist_url);
}

} // verus!
