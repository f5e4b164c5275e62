//! Field names in the two dialects: the underscore spelling of JSON-RPC and
//! the hyphenated or camelCase spelling of the legacy protocol.
use vstd::prelude::*;
use vstd::string::*;

use crate::text::str_eq;

verus! {

/// Legacy spelling of a session field; other names are kept.
pub open spec fn legacy_session_name(f: Seq<char>) -> Seq<char> {
    if f == "download_dir"@ {
        "download-dir"@
    } else if f == "start_added_torrents"@ {
        "start-added-torrents"@
    } else if f == "speed_limit_up"@ {
        "speed-limit-up"@
    } else if f == "speed_limit_up_enabled"@ {
        "speed-limit-up-enabled"@
    } else if f == "speed_limit_down"@ {
        "speed-limit-down"@
    } else if f == "speed_limit_down_enabled"@ {
        "speed-limit-down-enabled"@
    } else if f == "seed_ratio_limited"@ {
        "seedRatioLimited"@
    } else if f == "seed_ratio_limit"@ {
        "seedRatioLimit"@
    } else if f == "idle_seeding_limit_enabled"@ {
        "idle-seeding-limit-enabled"@
    } else if f == "idle_seeding_limit"@ {
        "idle-seeding-limit"@
    } else if f == "peer_limit_per_torrent"@ {
        "peer-limit-per-torrent"@
    } else if f == "peer_limit_global"@ {
        "peer-limit-global"@
    } else if f == "pex_enabled"@ {
        "pex-enabled"@
    } else if f == "dht_enabled"@ {
        "dht-enabled"@
    } else if f == "lpd_enabled"@ {
        "lpd-enabled"@
    } else if f == "blocklist_enabled"@ {
        "blocklist-enabled"@
    } else if f == "blocklist_url"@ {
        "blocklist-url"@
    } else {
        f
    }
}

/// Underscore spelling of a legacy session field; other names are kept.
pub open spec fn underscore_session_name(f: Seq<char>) -> Seq<char> {
    if f == "download-dir"@ {
        "download_dir"@
    } else if f == "start-added-torrents"@ {
        "start_added_torrents"@
    } else if f == "speed-limit-up"@ {
        "speed_limit_up"@
    } else if f == "speed-limit-up-enabled"@ {
        "speed_limit_up_enabled"@
    } else if f == "speed-limit-down"@ {
        "speed_limit_down"@
    } else if f == "speed-limit-down-enabled"@ {
        "speed_limit_down_enabled"@
    } else if f == "seedRatioLimited"@ {
        "seed_ratio_limited"@
    } else if f == "seedRatioLimit"@ {
        "seed_ratio_limit"@
    } else if f == "idle-seeding-limit-enabled"@ {
        "idle_seeding_limit_enabled"@
    } else if f == "idle-seeding-limit"@ {
        "idle_seeding_limit"@
    } else if f == "peer-limit-per-torrent"@ {
        "peer_limit_per_torrent"@
    } else if f == "peer-limit-global"@ {
        "peer_limit_global"@
    } else if f == "pex-enabled"@ {
        "pex_enabled"@
    } else if f == "dht-enabled"@ {
        "dht_enabled"@
    } else if f == "lpd-enabled"@ {
        "lpd_enabled"@
    } else if f == "blocklist-enabled"@ {
        "blocklist_enabled"@
    } else if f == "blocklist-url"@ {
        "blocklist_url"@
    } else {
        f
    }
}

/// The session fields that have a legacy spelling.
pub open spec fn is_session_field(f: Seq<char>) -> bool {
    f == "download_dir"@ || f == "start_added_torrents"@ || f == "speed_limit_up"@ || f == "speed_limit_up_enabled"@ || f == "speed_limit_down"@ || f == "speed_limit_down_enabled"@ || f == "seed_ratio_limited"@ || f == "seed_ratio_limit"@ || f == "idle_seeding_limit_enabled"@ || f == "idle_seeding_limit"@ || f == "peer_limit_per_torrent"@ || f == "peer_limit_global"@ || f == "pex_enabled"@ || f == "dht_enabled"@ || f == "lpd_enabled"@ || f == "blocklist_enabled"@ || f == "blocklist_url"@
}

/// Legacy spelling of a session field; other names are kept.
pub fn legacy_session_field_name(field: &str) -> (r: String)
    ensures
        r@ == legacy_session_name(field@),
{
    if str_eq(field, "download_dir") {
        String::from_str("download-dir")
    } else if str_eq(field, "start_added_torrents") {
        String::from_str("start-added-torrents")
    } else if str_eq(field, "speed_limit_up") {
        String::from_str("speed-limit-up")
    } else if str_eq(field, "speed_limit_up_enabled") {
        String::from_str("speed-limit-up-enabled")
    } else if str_eq(field, "speed_limit_down") {
        String::from_str("speed-limit-down")
    } else if str_eq(field, "speed_limit_down_enabled") {
        String::from_str("speed-limit-down-enabled")
    } else if str_eq(field, "seed_ratio_limited") {
        String::from_str("seedRatioLimited")
    } else if str_eq(field, "seed_ratio_limit") {
        String::from_str("seedRatioLimit")
    } else if str_eq(field, "idle_seeding_limit_enabled") {
        String::from_str("idle-seeding-limit-enabled")
    } else if str_eq(field, "idle_seeding_limit") {
        String::from_str("idle-seeding-limit")
    } else if str_eq(field, "peer_limit_per_torrent") {
        String::from_str("peer-limit-per-torrent")
    } else if str_eq(field, "peer_limit_global") {
        String::from_str("peer-limit-global")
    } else if str_eq(field, "pex_enabled") {
        String::from_str("pex-enabled")
    } else if str_eq(field, "dht_enabled") {
        String::from_str("dht-enabled")
    } else if str_eq(field, "lpd_enabled") {
        String::from_str("lpd-enabled")
    } else if str_eq(field, "blocklist_enabled") {
        String::from_str("blocklist-enabled")
    } else if str_eq(field, "blocklist_url") {
        String::from_str("blocklist-url")
    } else {
        String::from_str(field)
    }
}

/// Underscore spelling of a legacy session field; other names are kept.
pub fn underscore_session_field_name(field: &str) -> (r: String)
    ensures
        r@ == underscore_session_name(field@),
{
    if str_eq(field, "download-dir") {
        String::from_str("download_dir")
    } else if str_eq(field, "start-added-torrents") {
        String::from_str("start_added_torrents")
    } else if str_eq(field, "speed-limit-up") {
        String::from_str("speed_limit_up")
    } else if str_eq(field, "speed-limit-up-enabled") {
        String::from_str("speed_limit_up_enabled")
    } else if str_eq(field, "speed-limit-down") {
        String::from_str("speed_limit_down")
    } else if str_eq(field, "speed-limit-down-enabled") {
        String::from_str("speed_limit_down_enabled")
    } else if str_eq(field, "seedRatioLimited") {
        String::from_str("seed_ratio_limited")
    } else if str_eq(field, "seedRatioLimit") {
        String::from_str("seed_ratio_limit")
    } else if str_eq(field, "idle-seeding-limit-enabled") {
        String::from_str("idle_seeding_limit_enabled")
    } else if str_eq(field, "idle-seeding-limit") {
        String::from_str("idle_seeding_limit")
    } else if str_eq(field, "peer-limit-per-torrent") {
        String::from_str("peer_limit_per_torrent")
    } else if str_eq(field, "peer-limit-global") {
        String::from_str("peer_limit_global")
    } else if str_eq(field, "pex-enabled") {
        String::from_str("pex_enabled")
    } else if str_eq(field, "dht-enabled") {
        String::from_str("dht_enabled")
    } else if str_eq(field, "lpd-enabled") {
        String::from_str("lpd_enabled")
    } else if str_eq(field, "blocklist-enabled") {
        String::from_str("blocklist_enabled")
    } else if str_eq(field, "blocklist-url") {
        String::from_str("blocklist_url")
    } else {
        String::from_str(field)
    }
}

/// Mapping a known session field to its legacy spelling and back gives the field.
pub proof fn lemma_session_names_round_trip(f: Seq<char>)
    requires
        is_session_field(f),
    ensures
        underscore_session_name(legacy_session_name(f)) == f,
{
    reveal_strlit("blocklist-enabled");
    reveal_strlit("blocklist-url");
    reveal_strlit("blocklist_enabled");
    reveal_strlit("blocklist_url");
    reveal_strlit("dht-enabled");
    reveal_strlit("dht_enabled");
    reveal_strlit("download-dir");
    reveal_strlit("download_dir");
    reveal_strlit("idle-seeding-limit");
    reveal_strlit("idle-seeding-limit-enabled");
    reveal_strlit("idle_seeding_limit");
    reveal_strlit("idle_seeding_limit_enabled");
    reveal_strlit("lpd-enabled");
    reveal_strlit("lpd_enabled");
    reveal_strlit("peer-limit-global");
    reveal_strlit("peer-limit-per-torrent");
    reveal_strlit("peer_limit_global");
    reveal_strlit("peer_limit_per_torrent");
    reveal_strlit("pex-enabled");
    reveal_strlit("pex_enabled");
    reveal_strlit("seedRatioLimit");
    reveal_strlit("seedRatioLimited");
    reveal_strlit("seed_ratio_limit");
    reveal_strlit("seed_ratio_limited");
    reveal_strlit("speed-limit-down");
    reveal_strlit("speed-limit-down-enabled");
    reveal_strlit("speed-limit-up");
    reveal_strlit("speed-limit-up-enabled");
    reveal_strlit("speed_limit_down");
    reveal_strlit("speed_limit_down_enabled");
    reveal_strlit("speed_limit_up");
    reveal_strlit("speed_limit_up_enabled");
    reveal_strlit("start-added-torrents");
    reveal_strlit("start_added_torrents");
    assert("blocklist-enabled"@.len() == 17);
    assert("blocklist-url"@.len() == 13);
    assert("blocklist_enabled"@.len() == 17);
    assert("blocklist_url"@.len() == 13);
    assert("dht-enabled"@.len() == 11);
    assert("dht_enabled"@.len() == 11);
    assert("download-dir"@.len() == 12);
    assert("download_dir"@.len() == 12);
    assert("idle-seeding-limit"@.len() == 18);
    assert("idle-seeding-limit-enabled"@.len() == 26);
    assert("idle_seeding_limit"@.len() == 18);
    assert("idle_seeding_limit_enabled"@.len() == 26);
    assert("lpd-enabled"@.len() == 11);
    assert("lpd_enabled"@.len() == 11);
    assert("peer-limit-global"@.len() == 17);
    assert("peer-limit-per-torrent"@.len() == 22);
    assert("peer_limit_global"@.len() == 17);
    assert("peer_limit_per_torrent"@.len() == 22);
    assert("pex-enabled"@.len() == 11);
    assert("pex_enabled"@.len() == 11);
    assert("seedRatioLimit"@.len() == 14);
    assert("seedRatioLimited"@.len() == 16);
    assert("seed_ratio_limit"@.len() == 16);
    assert("seed_ratio_limited"@.len() == 18);
    assert("speed-limit-down"@.len() == 16);
    assert("speed-limit-down-enabled"@.len() == 24);
    assert("speed-limit-up"@.len() == 14);
    assert("speed-limit-up-enabled"@.len() == 22);
    assert("speed_limit_down"@.len() == 16);
    assert("speed_limit_down_enabled"@.len() == 24);
    assert("speed_limit_up"@.len() == 14);
    assert("speed_limit_up_enabled"@.len() == 22);
    assert("start-added-torrents"@.len() == 20);
    assert("start_added_torrents"@.len() == 20);
    assert("blocklist-enabled"@[9] != "blocklist_enabled"@[9]);
    assert("blocklist-enabled"@[0] != "peer-limit-global"@[0]);
    assert("blocklist-enabled"@[0] != "peer_limit_global"@[0]);
    assert("blocklist-url"@[9] != "blocklist_url"@[9]);
    assert("blocklist_enabled"@[0] != "peer-limit-global"@[0]);
    assert("blocklist_enabled"@[0] != "peer_limit_global"@[0]);
    assert("dht-enabled"@[3] != "dht_enabled"@[3]);
    assert("dht-enabled"@[0] != "lpd-enabled"@[0]);
    assert("dht-enabled"@[0] != "lpd_enabled"@[0]);
    assert("dht-enabled"@[0] != "pex-enabled"@[0]);
    assert("dht-enabled"@[0] != "pex_enabled"@[0]);
    assert("dht_enabled"@[0] != "lpd-enabled"@[0]);
    assert("dht_enabled"@[0] != "lpd_enabled"@[0]);
    assert("dht_enabled"@[0] != "pex-enabled"@[0]);
    assert("dht_enabled"@[0] != "pex_enabled"@[0]);
    assert("download-dir"@[8] != "download_dir"@[8]);
    assert("idle-seeding-limit"@[4] != "idle_seeding_limit"@[4]);
    assert("idle-seeding-limit"@[0] != "seed_ratio_limited"@[0]);
    assert("idle-seeding-limit-enabled"@[4] != "idle_seeding_limit_enabled"@[4]);
    assert("idle_seeding_limit"@[0] != "seed_ratio_limited"@[0]);
    assert("lpd-enabled"@[3] != "lpd_enabled"@[3]);
    assert("lpd-enabled"@[0] != "pex-enabled"@[0]);
    assert("lpd-enabled"@[0] != "pex_enabled"@[0]);
    assert("lpd_enabled"@[0] != "pex-enabled"@[0]);
    assert("lpd_enabled"@[0] != "pex_enabled"@[0]);
    assert("peer-limit-global"@[4] != "peer_limit_global"@[4]);
    assert("peer-limit-per-torrent"@[4] != "peer_limit_per_torrent"@[4]);
    assert("peer-limit-per-torrent"@[0] != "speed-limit-up-enabled"@[0]);
    assert("peer-limit-per-torrent"@[0] != "speed_limit_up_enabled"@[0]);
    assert("peer_limit_per_torrent"@[0] != "speed-limit-up-enabled"@[0]);
    assert("peer_limit_per_torrent"@[0] != "speed_limit_up_enabled"@[0]);
    assert("pex-enabled"@[3] != "pex_enabled"@[3]);
    assert("seedRatioLimit"@[1] != "speed-limit-up"@[1]);
    assert("seedRatioLimit"@[1] != "speed_limit_up"@[1]);
    assert("seedRatioLimited"@[4] != "seed_ratio_limit"@[4]);
    assert("seedRatioLimited"@[1] != "speed-limit-down"@[1]);
    assert("seedRatioLimited"@[1] != "speed_limit_down"@[1]);
    assert("seed_ratio_limit"@[1] != "speed-limit-down"@[1]);
    assert("seed_ratio_limit"@[1] != "speed_limit_down"@[1]);
    assert("speed-limit-down"@[5] != "speed_limit_down"@[5]);
    assert("speed-limit-down-enabled"@[5] != "speed_limit_down_enabled"@[5]);
    assert("speed-limit-up"@[5] != "speed_limit_up"@[5]);
    assert("speed-limit-up-enabled"@[5] != "speed_limit_up_enabled"@[5]);
    assert("start-added-torrents"@[5] != "start_added_torrents"@[5]);
    if f == "download_dir"@ {
        assert(legacy_session_name(f) == "download-dir"@);
    } else if f == "start_added_torrents"@ {
        assert(legacy_session_name(f) == "start-added-torrents"@);
    } else if f == "speed_limit_up"@ {
        assert(legacy_session_name(f) == "speed-limit-up"@);
    } else if f == "speed_limit_up_enabled"@ {
        assert(legacy_session_name(f) == "speed-limit-up-enabled"@);
    } else if f == "speed_limit_down"@ {
        assert(legacy_session_name(f) == "speed-limit-down"@);
    } else if f == "speed_limit_down_enabled"@ {
        assert(legacy_session_name(f) == "speed-limit-down-enabled"@);
    } else if f == "seed_ratio_limited"@ {
        assert(legacy_session_name(f) == "seedRatioLimited"@);
    } else if f == "seed_ratio_limit"@ {
        assert(legacy_session_name(f) == "seedRatioLimit"@);
    } else if f == "idle_seeding_limit_enabled"@ {
        assert(legacy_session_name(f) == "idle-seeding-limit-enabled"@);
    } else if f == "idle_seeding_limit"@ {
        assert(legacy_session_name(f) == "idle-seeding-limit"@);
    } else if f == "peer_limit_per_torrent"@ {
        assert(legacy_session_name(f) == "peer-limit-per-torrent"@);
    } else if f == "peer_limit_global"@ {
        assert(legacy_session_name(f) == "peer-limit-global"@);
    } else if f == "pex_enabled"@ {
        assert(legacy_session_name(f) == "pex-enabled"@);
    } else if f == "dht_enabled"@ {
        assert(legacy_session_name(f) == "dht-enabled"@);
    } else if f == "lpd_enabled"@ {
        assert(legacy_session_name(f) == "lpd-enabled"@);
    } else if f == "blocklist_enabled"@ {
        assert(legacy_session_name(f) == "blocklist-enabled"@);
    } else if f == "blocklist_url"@ {
        assert(legacy_session_name(f) == "blocklist-url"@);
    }
}

/// Legacy spelling of a torrent field; other names are kept.
pub open spec fn legacy_torrent_name(f: Seq<char>) -> Seq<char> {
    if f == "percent_done"@ {
        "percentDone"@
    } else if f == "rate_download"@ {
        "rateDownload"@
    } else if f == "rate_upload"@ {
        "rateUpload"@
    } else if f == "upload_ratio"@ {
        "uploadRatio"@
    } else if f == "size_when_done"@ {
        "sizeWhenDone"@
    } else if f == "left_until_done"@ {
        "leftUntilDone"@
    } else if f == "download_dir"@ {
        "downloadDir"@
    } else if f == "peers_connected"@ {
        "peersConnected"@
    } else if f == "peers_sending_to_us"@ {
        "peersSendingToUs"@
    } else if f == "peers_getting_from_us"@ {
        "peersGettingFromUs"@
    } else if f == "error_string"@ {
        "errorString"@
    } else {
        f
    }
}

/// Underscore spelling of a legacy torrent field; other names are kept.
pub open spec fn underscore_torrent_name(f: Seq<char>) -> Seq<char> {
    if f == "percentDone"@ {
        "percent_done"@
    } else if f == "rateDownload"@ {
        "rate_download"@
    } else if f == "rateUpload"@ {
        "rate_upload"@
    } else if f == "uploadRatio"@ {
        "upload_ratio"@
    } else if f == "sizeWhenDone"@ {
        "size_when_done"@
    } else if f == "leftUntilDone"@ {
        "left_until_done"@
    } else if f == "downloadDir"@ {
        "download_dir"@
    } else if f == "peersConnected"@ {
        "peers_connected"@
    } else if f == "peersSendingToUs"@ {
        "peers_sending_to_us"@
    } else if f == "peersGettingFromUs"@ {
        "peers_getting_from_us"@
    } else if f == "errorString"@ {
        "error_string"@
    } else {
        f
    }
}

/// The torrent fields that have a legacy spelling.
pub open spec fn is_torrent_field(f: Seq<char>) -> bool {
    f == "percent_done"@ || f == "rate_download"@ || f == "rate_upload"@ || f == "upload_ratio"@ || f == "size_when_done"@ || f == "left_until_done"@ || f == "download_dir"@ || f == "peers_connected"@ || f == "peers_sending_to_us"@ || f == "peers_getting_from_us"@ || f == "error_string"@
}

/// Legacy spelling of a torrent field; other names are kept.
pub fn legacy_torrent_field_name(field: &str) -> (r: String)
    ensures
        r@ == legacy_torrent_name(field@),
{
    if str_eq(field, "percent_done") {
        String::from_str("percentDone")
    } else if str_eq(field, "rate_download") {
        String::from_str("rateDownload")
    } else if str_eq(field, "rate_upload") {
        String::from_str("rateUpload")
    } else if str_eq(field, "upload_ratio") {
        String::from_str("uploadRatio")
    } else if str_eq(field, "size_when_done") {
        String::from_str("sizeWhenDone")
    } else if str_eq(field, "left_until_done") {
        String::from_str("leftUntilDone")
    } else if str_eq(field, "download_dir") {
        String::from_str("downloadDir")
    } else if str_eq(field, "peers_connected") {
        String::from_str("peersConnected")
    } else if str_eq(field, "peers_sending_to_us") {
        String::from_str("peersSendingToUs")
    } else if str_eq(field, "peers_getting_from_us") {
        String::from_str("peersGettingFromUs")
    } else if str_eq(field, "error_string") {
        String::from_str("errorString")
    } else {
        String::from_str(field)
    }
}

/// Underscore spelling of a legacy torrent field; other names are kept.
pub fn underscore_torrent_field_name(field: &str) -> (r: String)
    ensures
        r@ == underscore_torrent_name(field@),
{
    if str_eq(field, "percentDone") {
        String::from_str("percent_done")
    } else if str_eq(field, "rateDownload") {
        String::from_str("rate_download")
    } else if str_eq(field, "rateUpload") {
        String::from_str("rate_upload")
    } else if str_eq(field, "uploadRatio") {
        String::from_str("upload_ratio")
    } else if str_eq(field, "sizeWhenDone") {
        String::from_str("size_when_done")
    } else if str_eq(field, "leftUntilDone") {
        String::from_str("left_until_done")
    } else if str_eq(field, "downloadDir") {
        String::from_str("download_dir")
    } else if str_eq(field, "peersConnected") {
        String::from_str("peers_connected")
    } else if str_eq(field, "peersSendingToUs") {
        String::from_str("peers_sending_to_us")
    } else if str_eq(field, "peersGettingFromUs") {
        String::from_str("peers_getting_from_us")
    } else if str_eq(field, "errorString") {
        String::from_str("error_string")
    } else {
        String::from_str(field)
    }
}

/// Mapping a known torrent field to its legacy spelling and back gives the field.
pub proof fn lemma_torrent_names_round_trip(f: Seq<char>)
    requires
        is_torrent_field(f),
    ensures
        underscore_torrent_name(legacy_torrent_name(f)) == f,
{
    reveal_strlit("downloadDir");
    reveal_strlit("download_dir");
    reveal_strlit("errorString");
    reveal_strlit("error_string");
    reveal_strlit("leftUntilDone");
    reveal_strlit("left_until_done");
    reveal_strlit("peersConnected");
    reveal_strlit("peersGettingFromUs");
    reveal_strlit("peersSendingToUs");
    reveal_strlit("peers_connected");
    reveal_strlit("peers_getting_from_us");
    reveal_strlit("peers_sending_to_us");
    reveal_strlit("percentDone");
    reveal_strlit("percent_done");
    reveal_strlit("rateDownload");
    reveal_strlit("rateUpload");
    reveal_strlit("rate_download");
    reveal_strlit("rate_upload");
    reveal_strlit("sizeWhenDone");
    reveal_strlit("size_when_done");
    reveal_strlit("uploadRatio");
    reveal_strlit("upload_ratio");
    assert("downloadDir"@.len() == 11);
    assert("download_dir"@.len() == 12);
    assert("errorString"@.len() == 11);
    assert("error_string"@.len() == 12);
    assert("leftUntilDone"@.len() == 13);
    assert("left_until_done"@.len() == 15);
    assert("peersConnected"@.len() == 14);
    assert("peersGettingFromUs"@.len() == 18);
    assert("peersSendingToUs"@.len() == 16);
    assert("peers_connected"@.len() == 15);
    assert("peers_getting_from_us"@.len() == 21);
    assert("peers_sending_to_us"@.len() == 19);
    assert("percentDone"@.len() == 11);
    assert("percent_done"@.len() == 12);
    assert("rateDownload"@.len() == 12);
    assert("rateUpload"@.len() == 10);
    assert("rate_download"@.len() == 13);
    assert("rate_upload"@.len() == 11);
    assert("sizeWhenDone"@.len() == 12);
    assert("size_when_done"@.len() == 14);
    assert("uploadRatio"@.len() == 11);
    assert("upload_ratio"@.len() == 12);
    assert("downloadDir"@[0] != "errorString"@[0]);
    assert("downloadDir"@[0] != "percentDone"@[0]);
    assert("downloadDir"@[0] != "rate_upload"@[0]);
    assert("downloadDir"@[0] != "uploadRatio"@[0]);
    assert("download_dir"@[0] != "error_string"@[0]);
    assert("download_dir"@[0] != "percent_done"@[0]);
    assert("download_dir"@[0] != "rateDownload"@[0]);
    assert("download_dir"@[0] != "sizeWhenDone"@[0]);
    assert("download_dir"@[0] != "upload_ratio"@[0]);
    assert("errorString"@[0] != "percentDone"@[0]);
    assert("errorString"@[0] != "rate_upload"@[0]);
    assert("errorString"@[0] != "uploadRatio"@[0]);
    assert("error_string"@[0] != "percent_done"@[0]);
    assert("error_string"@[0] != "rateDownload"@[0]);
    assert("error_string"@[0] != "sizeWhenDone"@[0]);
    assert("error_string"@[0] != "upload_ratio"@[0]);
    assert("leftUntilDone"@[0] != "rate_download"@[0]);
    assert("left_until_done"@[0] != "peers_connected"@[0]);
    assert("peersConnected"@[0] != "size_when_done"@[0]);
    assert("percentDone"@[0] != "rate_upload"@[0]);
    assert("percentDone"@[0] != "uploadRatio"@[0]);
    assert("percent_done"@[0] != "rateDownload"@[0]);
    assert("percent_done"@[0] != "sizeWhenDone"@[0]);
    assert("percent_done"@[0] != "upload_ratio"@[0]);
    assert("rateDownload"@[0] != "sizeWhenDone"@[0]);
    assert("rateDownload"@[0] != "upload_ratio"@[0]);
    assert("rate_upload"@[0] != "uploadRatio"@[0]);
    assert("sizeWhenDone"@[0] != "upload_ratio"@[0]);
    if f == "percent_done"@ {
        assert(legacy_torrent_name(f) == "percentDone"@);
    } else if f == "rate_download"@ {
        assert(legacy_torrent_name(f) == "rateDownload"@);
    } else if f == "rate_upload"@ {
        assert(legacy_torrent_name(f) == "rateUpload"@);
    } else if f == "upload_ratio"@ {
        assert(legacy_torrent_name(f) == "uploadRatio"@);
    } else if f == "size_when_done"@ {
        assert(legacy_torrent_name(f) == "sizeWhenDone"@);
    } else if f == "left_until_done"@ {
        assert(legacy_torrent_name(f) == "leftUntilDone"@);
    } else if f == "download_dir"@ {
        assert(legacy_torrent_name(f) == "downloadDir"@);
    } else if f == "peers_connected"@ {
        assert(legacy_torrent_name(f) == "peersConnected"@);
    } else if f == "peers_sending_to_us"@ {
        assert(legacy_torrent_name(f) == "peersSendingToUs"@);
    } else if f == "peers_getting_from_us"@ {
        assert(legacy_torrent_name(f) == "peersGettingFromUs"@);
    } else if f == "error_string"@ {
        assert(legacy_torrent_name(f) == "errorString"@);
    }
}
} // verus!
