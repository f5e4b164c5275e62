//! Torrents and session statistics as the client shows them, and the text
//! renderings of rates, sizes and remaining time.
use vstd::prelude::*;
use vstd::string::*;

use crate::text::{decimal, i64_to_string, signed_decimal, u64_to_string};

verus! {

/// One peer of a torrent. `progress` is in tenths of a percent.
#[derive(Debug)]
pub struct PeerSummary {
    pub address: String,
    pub client: String,
    pub progress: u32,
    pub rate_down: i64,
    pub rate_up: i64,
}

/// One torrent. `percent_done` is in tenths of a percent and `upload_ratio`
/// in hundredths.
#[derive(Debug)]
pub struct TorrentSummary {
    pub torrent_id: i64,
    pub name: String,
    pub status: String,
    pub percent_done: u32,
    pub rate_download: i64,
    pub rate_upload: i64,
    pub eta: Option<i64>,
    pub upload_ratio: i64,
    pub size_when_done: i64,
    pub left_until_done: i64,
    pub download_dir: String,
    pub peers_connected: i64,
    pub peers_sending: i64,
    pub peers_receiving: i64,
    pub error: Option<String>,
    pub peers: Vec<PeerSummary>,
}

/// A torrent as the daemon reports it: the numeric status, the ETA with a
/// negative value for "unknown", and an empty error string for "no error".
#[derive(Debug)]
pub struct TorrentRecord {
    pub id: i64,
    pub name: String,
    pub status: i64,
    pub percent_done: u32,
    pub rate_download: i64,
    pub rate_upload: i64,
    pub eta: i64,
    pub upload_ratio: i64,
    pub size_when_done: i64,
    pub left_until_done: i64,
    pub download_dir: String,
    pub peers_connected: i64,
    pub peers_sending_to_us: i64,
    pub peers_getting_from_us: i64,
    pub error_string: String,
    pub peers: Vec<PeerSummary>,
}

/// Session-wide statistics.
#[derive(Debug, Default)]
pub struct SessionStats {
    pub active_torrent_count: i64,
    pub paused_torrent_count: i64,
    pub torrent_count: i64,
    pub download_speed: i64,
    pub upload_speed: i64,
}

/// One complete view of the daemon.
#[derive(Debug)]
pub struct Snapshot {
    pub version: String,
    pub download_speed: i64,
    pub upload_speed: i64,
    pub active_torrents: i64,
    pub paused_torrents: i64,
    pub total_torrents: i64,
    pub torrents: Vec<TorrentSummary>,
}

/// The name of a daemon status code.
pub open spec fn status_name(code: i64) -> Seq<char> {
    if code == 0 {
        "stopped"@
    } else if code == 1 {
        "check-wait"@
    } else if code == 2 {
        "checking"@
    } else if code == 3 {
        "download-wait"@
    } else if code == 4 {
        "downloading"@
    } else if code == 5 {
        "seed-wait"@
    } else if code == 6 {
        "seeding"@
    } else {
        "status-"@ + signed_decimal(code as int)
    }
}

pub fn status_label(code: i64) -> (r: String)
    ensures
        r@ == status_name(code),
{
    if code == 0 {
        String::from_str("stopped")
    } else if code == 1 {
        String::from_str("check-wait")
    } else if code == 2 {
        String::from_str("checking")
    } else if code == 3 {
        String::from_str("download-wait")
    } else if code == 4 {
        String::from_str("downloading")
    } else if code == 5 {
        String::from_str("seed-wait")
    } else if code == 6 {
        String::from_str("seeding")
    } else {
        let mut s = String::from_str("status-");
        let d = i64_to_string(code);
        s.append(d.as_str());
        s
    }
}

/// `s` is the summary of the reported torrent `w`.
pub open spec fn summarizes(s: TorrentSummary, w: TorrentRecord) -> bool {
    &&& s.torrent_id == w.id
    &&& s.name == w.name
    &&& s.status@ == status_name(w.status)
    &&& s.percent_done == w.percent_done
    &&& s.rate_download == w.rate_download
    &&& s.rate_upload == w.rate_upload
    &&& s.eta == (if w.eta >= 0 {
        Some(w.eta)
    } else {
        None
    })
    &&& s.upload_ratio == w.upload_ratio
    &&& s.size_when_done == w.size_when_done
    &&& s.left_until_done == w.left_until_done
    &&& s.download_dir == w.download_dir
    &&& s.peers_connected == w.peers_connected
    &&& s.peers_sending == w.peers_sending_to_us
    &&& s.peers_receiving == w.peers_getting_from_us
    &&& s.error == (if w.error_string@.len() == 0 {
        None
    } else {
        Some(w.error_string)
    })
    &&& s.peers == w.peers
}

impl TorrentSummary {
    /// The summary of a reported torrent: the status by name, a negative ETA
    /// as absent, an empty error string as no error; the rest as reported.
    pub fn from_record(wire: TorrentRecord) -> (r: Self)
        ensures
            r.torrent_id == wire.id,
            r.name == wire.name,
            r.status@ == status_name(wire.status),
            r.percent_done == wire.percent_done,
            r.rate_download == wire.rate_download,
            r.rate_upload == wire.rate_upload,
            r.eta == (if wire.eta >= 0 {
                Some(wire.eta)
            } else {
                None
            }),
            r.upload_ratio == wire.upload_ratio,
            r.size_when_done == wire.size_when_done,
            r.left_until_done == wire.left_until_done,
            r.download_dir == wire.download_dir,
            r.peers_connected == wire.peers_connected,
            r.peers_sending == wire.peers_sending_to_us,
            r.peers_receiving == wire.peers_getting_from_us,
            r.error == (if wire.error_string@.len() == 0 {
                None
            } else {
                Some(wire.error_string)
            }),
            r.peers == wire.peers,
    {
        let eta = if wire.eta >= 0 {
            Some(wire.eta)
        } else {
            None
        };
        let status = status_label(wire.status);
        let error = if wire.error_string.as_str().unicode_len() == 0 {
            None
        } else {
            Some(wire.error_string)
        };
        TorrentSummary {
            torrent_id: wire.id,
            name: wire.name,
            status,
            percent_done: wire.percent_done,
            rate_download: wire.rate_download,
            rate_upload: wire.rate_upload,
            eta,
            upload_ratio: wire.upload_ratio,
            size_when_done: wire.size_when_done,
            left_until_done: wire.left_until_done,
            download_dir: wire.download_dir,
            peers_connected: wire.peers_connected,
            peers_sending: wire.peers_sending_to_us,
            peers_receiving: wire.peers_getting_from_us,
            error,
            peers: wire.peers,
        }
    }
}

impl Snapshot {
    /// A snapshot from the three replies of one refresh: the torrent list,
    /// the statistics and the daemon version (`"unknown"` when absent).
    pub fn compose(torrents: Vec<TorrentRecord>, stats: SessionStats, version: Option<String>) -> (r:
        Self)
        ensures
            r.torrents@.len() == torrents@.len(),
            forall|i: int|
                0 <= i < torrents@.len() ==> summarizes(#[trigger] r.torrents@[i], torrents@[i]),
            r.version@ == (match version {
                Some(v) => v@,
                None => "unknown"@,
            }),
            r.download_speed == stats.download_speed,
            r.upload_speed == stats.upload_speed,
            r.active_torrents == stats.active_torrent_count,
            r.paused_torrents == stats.paused_torrent_count,
            r.total_torrents == stats.torrent_count,
    {
        let ghost orig = torrents@;
        let n = torrents.len();
        let mut rest = torrents;
        let mut out: Vec<TorrentSummary> = Vec::new();
        let mut i: usize = 0;
        while i < n
            invariant
                n == orig.len(),
                i <= n,
                rest@ == orig.subrange(i as int, n as int),
                out@.len() == i,
                forall|k: int| 0 <= k < i ==> summarizes(#[trigger] out@[k], orig[k]),
            decreases n - i,
        {
            let w = rest.remove(0);
            assert(w == orig[i as int]);
            out.push(TorrentSummary::from_record(w));
            assert(rest@ =~= orig.subrange(i + 1, n as int));
            i = i + 1;
        }
        let version = match version {
            Some(v) => v,
            None => String::from_str("unknown"),
        };
        Snapshot {
            version,
            download_speed: stats.download_speed,
            upload_speed: stats.upload_speed,
            active_torrents: stats.active_torrent_count,
            paused_torrents: stats.paused_torrent_count,
            total_torrents: stats.torrent_count,
            torrents: out,
        }
    }
}

// ---------------------------------------------------------------------------
// Renderings

pub open spec fn pow1024(k: nat) -> nat
    decreases k,
{
    if k == 0 {
        1
    } else {
        1024 * pow1024((k - 1) as nat)
    }
}

/// The unit step for a magnitude: the largest of 0..=4 whose power of 1024
/// does not exceed it (0 for magnitudes under 1024).
pub open spec fn unit_index(v: nat) -> nat {
    if v >= pow1024(4) {
        4
    } else if v >= pow1024(3) {
        3
    } else if v >= pow1024(2) {
        2
    } else if v >= pow1024(1) {
        1
    } else {
        0
    }
}

/// `n / d` rounded to the nearest integer, ties to even.
pub open spec fn div_round_even(n: nat, d: nat) -> nat
    recommends
        d > 0,
{
    let q = n / d;
    let r = n % d;
    if 2 * r > d || (2 * r == d && q % 2 == 1) {
        q + 1
    } else {
        q
    }
}

/// A count of tenths as `int.frac`, padded on the left to four characters.
pub open spec fn tenths_text(t: nat) -> Seq<char> {
    let body = decimal(t / 10) + seq!['.'] + decimal(t % 10);
    if body.len() < 4 {
        seq![' '] + body
    } else {
        body
    }
}

/// A non-negative magnitude with one decimal, scaled by powers of 1024.
pub open spec fn scaled_text(value: i64) -> (Seq<char>, nat) {
    let v: nat = if value < 0 {
        0
    } else {
        value as nat
    };
    let u = unit_index(v);
    (tenths_text(div_round_even(v * 10, pow1024(u))), u)
}

pub open spec fn speed_unit(u: nat) -> Seq<char> {
    if u == 0 {
        "B/s"@
    } else if u == 1 {
        "KiB/s"@
    } else if u == 2 {
        "MiB/s"@
    } else if u == 3 {
        "GiB/s"@
    } else {
        "TiB/s"@
    }
}

pub open spec fn byte_unit(u: nat) -> Seq<char> {
    if u == 0 {
        "B"@
    } else if u == 1 {
        "KiB"@
    } else if u == 2 {
        "MiB"@
    } else if u == 3 {
        "GiB"@
    } else {
        "TiB"@
    }
}

pub open spec fn speed_text(value: i64) -> Seq<char> {
    scaled_text(value).0 + speed_unit(scaled_text(value).1)
}

pub open spec fn bytes_text(value: i64) -> Seq<char> {
    scaled_text(value).0 + " "@ + byte_unit(scaled_text(value).1)
}

fn scaled(value: i64) -> (r: (String, u64))
    ensures
        r.0@ == scaled_text(value).0,
        r.1 as nat == scaled_text(value).1,
{
    let v: u128 = if value < 0 {
        0
    } else {
        value as u128
    };
    let ghost vn: nat = v as nat;
    assert(pow1024(0) == 1);
    assert(pow1024(1) == 1024);
    assert(pow1024(2) == 1048576);
    assert(pow1024(3) == 1073741824);
    assert(pow1024(4) == 1099511627776);
    let (unit, div): (u64, u128) = if v >= 1099511627776 {
        (4, 1099511627776)
    } else if v >= 1073741824 {
        (3, 1073741824)
    } else if v >= 1048576 {
        (2, 1048576)
    } else if v >= 1024 {
        (1, 1024)
    } else {
        (0, 1)
    };
    assert(unit as nat == unit_index(vn));
    assert(div as nat == pow1024(unit as nat));
    let n: u128 = v * 10;
    let q: u128 = n / div;
    let r: u128 = n % div;
    let t: u128 = if 2 * r > div || (2 * r == div && q % 2 == 1) {
        q + 1
    } else {
        q
    };
    assert(t as nat == div_round_even(vn * 10, pow1024(unit as nat)));
    let whole = u64_to_string((t / 10) as u64);
    let frac = u64_to_string((t % 10) as u64);
    let mut body = whole;
    body.append(".");
    body.append(frac.as_str());
    proof {
        reveal_strlit(".");
    }
    assert(body@ =~= decimal((t / 10) as nat) + seq!['.'] + decimal((t % 10) as nat));
    let len = body.as_str().unicode_len();
    if len < 4 {
        let mut padded = String::from_str(" ");
        padded.append(body.as_str());
        proof {
            reveal_strlit(" ");
        }
        assert(padded@ =~= seq![' '] + body@);
        (padded, unit)
    } else {
        (body, unit)
    }
}

/// A transfer rate in bytes per second, e.g. `" 1.5KiB/s"`.
pub fn format_speed(value: i64) -> (r: String)
    ensures
        r@ == speed_text(value),
{
    let (text, unit) = scaled(value);
    let mut s = text;
    let u = if unit == 0 {
        "B/s"
    } else if unit == 1 {
        "KiB/s"
    } else if unit == 2 {
        "MiB/s"
    } else if unit == 3 {
        "GiB/s"
    } else {
        "TiB/s"
    };
    s.append(u);
    s
}

/// A size in bytes, e.g. `" 1.5 KiB"`.
pub fn format_bytes(value: i64) -> (r: String)
    ensures
        r@ == bytes_text(value),
{
    let (text, unit) = scaled(value);
    let mut s = text;
    s.append(" ");
    let u = if unit == 0 {
        "B"
    } else if unit == 1 {
        "KiB"
    } else if unit == 2 {
        "MiB"
    } else if unit == 3 {
        "GiB"
    } else {
        "TiB"
    };
    s.append(u);
    s
}

/// Remaining time: unknown or negative is `∞`; otherwise days and hours,
/// hours and minutes, minutes, or seconds, by the largest non-zero part.
pub open spec fn eta_text(seconds: Option<i64>) -> Seq<char> {
    match seconds {
        None => "∞"@,
        Some(raw) => if raw < 0 {
            "∞"@
        } else {
            let s = raw as nat;
            let days = s / 86400;
            let hours = (s % 86400) / 3600;
            let minutes = (s % 3600) / 60;
            if days > 0 {
                decimal(days) + "d"@ + decimal(hours) + "h"@
            } else if hours > 0 {
                decimal(hours) + "h"@ + decimal(minutes) + "m"@
            } else if minutes > 0 {
                decimal(minutes) + "m"@
            } else {
                decimal(s % 60) + "s"@
            }
        },
    }
}

pub fn format_eta(seconds: Option<i64>) -> (r: String)
    ensures
        r@ == eta_text(seconds),
{
    match seconds {
        None => String::from_str("∞"),
        Some(raw) => {
            if raw < 0 {
                return String::from_str("∞");
            }
            let s = raw as u64;
            let days = s / 86400;
            let hours = (s % 86400) / 3600;
            let minutes = (s % 3600) / 60;
            if days > 0 {
                let mut t = u64_to_string(days);
                t.append("d");
                let h = u64_to_string(hours);
                t.append(h.as_str());
                t.append("h");
                t
            } else if hours > 0 {
                let mut t = u64_to_string(hours);
                t.append("h");
                let m = u64_to_string(minutes);
                t.append(m.as_str());
                t.append("m");
                t
            } else if minutes > 0 {
                let mut t = u64_to_string(minutes);
                t.append("m");
                t
            } else {
                let mut t = u64_to_string(s % 60);
                t.append("s");
                t
            }
        },
    }
}

} // verus!
