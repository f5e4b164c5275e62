use transmission_tui::config::{AppConfig, RpcConfig};
use transmission_tui::events::{KeyCode, KeyPress, RpcCommand, StatusLevel};
use transmission_tui::form::{parse_non_negative, parse_positive, PreferenceField, PreferencesForm};
use transmission_tui::model::{
    format_bytes, format_eta, format_speed, SessionStats, Snapshot, TorrentRecord, TorrentSummary,
};
use transmission_tui::names::{
    legacy_session_field_name, legacy_torrent_field_name, underscore_session_field_name,
    underscore_torrent_field_name,
};
use transmission_tui::numbers::{format_centi, parse_centi, parse_i64};
use transmission_tui::preferences::{DaemonPreferences, EncryptionMode, PreferencesResponse};
use transmission_tui::rpc::{
    ids_arguments, interpret_reply, translate_arguments_for_protocol, remove_arguments, should_retry_in_legacy, AddTorrentOutcome,
    AddTorrentResponse, HttpStep, PayloadMember, ReplyBody, RpcMethod, RpcProtocol, RpcSession,
    TorrentRef, TransmissionError, fields_arguments, snapshot_fields,
};
use transmission_tui::ui::{App, InputMode};
use transmission_tui::wire::{WireEntry, WireValue};
use transmission_tui::worker::{action_reply, add_reply, magnet_request, update_preferences_status, TorrentAction};

fn config() -> AppConfig {
    AppConfig {
        rpc: RpcConfig {
            scheme: "http".to_string(),
            host: "localhost".to_string(),
            port: 9091,
            path: "transmission/rpc".to_string(),
            username: None,
            password: None,
            timeout_ms: 10_000,
            verify_ssl: true,
            user_agent: "transmission-tui".to_string(),
            url: None,
        },
        poll_interval_ms: 3000,
        log_level: "info".to_string(),
    }
}

fn prefs() -> DaemonPreferences {
    DaemonPreferences {
        download_dir: "/data".to_string(),
        start_when_added: true,
        speed_limit_up_enabled: true,
        speed_limit_up: 100,
        speed_limit_down_enabled: false,
        speed_limit_down: 0,
        seed_ratio_limited: true,
        seed_ratio_limit: 250,
        idle_seeding_limit_enabled: false,
        idle_seeding_limit: 30,
        peer_limit_per_torrent: 50,
        peer_limit_global: 200,
        encryption_mode: EncryptionMode::Allow,
        pex_enabled: true,
        dht_enabled: false,
        lpd_enabled: true,
        blocklist_enabled: false,
        blocklist_url: Some("http://list".to_string()),
    }
}

fn same_prefs(a: &DaemonPreferences, b: &DaemonPreferences) -> bool {
    a.download_dir == b.download_dir
        && a.start_when_added == b.start_when_added
        && a.speed_limit_up_enabled == b.speed_limit_up_enabled
        && a.speed_limit_up == b.speed_limit_up
        && a.speed_limit_down_enabled == b.speed_limit_down_enabled
        && a.speed_limit_down == b.speed_limit_down
        && a.seed_ratio_limited == b.seed_ratio_limited
        && a.seed_ratio_limit == b.seed_ratio_limit
        && a.idle_seeding_limit_enabled == b.idle_seeding_limit_enabled
        && a.idle_seeding_limit == b.idle_seeding_limit
        && a.peer_limit_per_torrent == b.peer_limit_per_torrent
        && a.peer_limit_global == b.peer_limit_global
        && a.encryption_mode == b.encryption_mode
        && a.pex_enabled == b.pex_enabled
        && a.dht_enabled == b.dht_enabled
        && a.lpd_enabled == b.lpd_enabled
        && a.blocklist_enabled == b.blocklist_enabled
        && a.blocklist_url == b.blocklist_url
}

fn torrent(id: i64, name: &str) -> TorrentSummary {
    TorrentSummary {
        torrent_id: id,
        name: name.to_string(),
        status: "seeding".to_string(),
        percent_done: 1000,
        rate_download: 0,
        rate_upload: 0,
        eta: None,
        upload_ratio: 100,
        size_when_done: 0,
        left_until_done: 0,
        download_dir: "/data".to_string(),
        peers_connected: 0,
        peers_sending: 0,
        peers_receiving: 0,
        error: None,
        peers: Vec::new(),
    }
}

fn snapshot(torrents: Vec<TorrentSummary>) -> Snapshot {
    Snapshot {
        version: "4.0".to_string(),
        download_speed: 0,
        upload_speed: 0,
        active_torrents: 0,
        paused_torrents: 0,
        total_torrents: torrents.len() as i64,
        torrents,
    }
}

fn key(c: char) -> KeyPress {
    KeyPress { code: KeyCode::Char(c), ctrl: false, shift: false, alt: false }
}

fn special(code: KeyCode) -> KeyPress {
    KeyPress { code, ctrl: false, shift: false, alt: false }
}

fn selected_id(app: &App) -> Option<i64> {
    app.current_torrent().map(|t| t.torrent_id)
}

fn record(status: i64, eta: i64) -> TorrentRecord {
    TorrentRecord {
        id: 3,
        name: "linux.iso".to_string(),
        status,
        percent_done: 500,
        rate_download: 10,
        rate_upload: 20,
        eta,
        upload_ratio: 0,
        size_when_done: 100,
        left_until_done: 50,
        download_dir: "/data".to_string(),
        peers_connected: 1,
        peers_sending_to_us: 1,
        peers_getting_from_us: 0,
        error_string: String::new(),
        peers: Vec::new(),
    }
}

#[test]
fn encryption_round_trips_in_both_dialects() {
    for mode in EncryptionMode::values() {
        assert_eq!(EncryptionMode::from_rpc(mode.rpc_value_for(RpcProtocol::Json)), mode);
        assert_eq!(EncryptionMode::from_rpc(mode.rpc_value_for(RpcProtocol::Legacy)), mode);
    }
    assert_eq!(EncryptionMode::from_rpc("tolerated"), EncryptionMode::Allow);
    assert_eq!(EncryptionMode::Allow.rpc_value(), "allowed");
    assert_eq!(EncryptionMode::Allow.rpc_value_for(RpcProtocol::Legacy), "tolerated");
    assert_eq!(EncryptionMode::from_rpc("bogus"), EncryptionMode::Prefer);
    assert_eq!(EncryptionMode::Require.label(), "Require encryption");
}

#[test]
fn preferences_survive_the_argument_map() {
    let p = prefs();
    let map = p.to_rpc_map();
    assert_eq!(map.len(), 18);
    let back = DaemonPreferences::from_response(PreferencesResponse::from_entries(&map));
    assert!(same_prefs(&p, &back));
}

#[test]
fn preferences_decoder_reads_legacy_names_and_defaults() {
    let entries = vec![
        WireEntry { key: "speed-limit-up".to_string(), value: WireValue::Int(40) },
        WireEntry { key: "seedRatioLimit".to_string(), value: WireValue::Int(3) },
        WireEntry { key: "encryption".to_string(), value: WireValue::Text("tolerated".to_string()) },
        WireEntry { key: "blocklist-url".to_string(), value: WireValue::Text(String::new()) },
        WireEntry { key: "peer-limit-global".to_string(), value: WireValue::Int(-5) },
    ];
    let p = DaemonPreferences::from_response(PreferencesResponse::from_entries(&entries));
    assert_eq!(p.speed_limit_up, 40);
    assert_eq!(p.seed_ratio_limit, 300);
    assert_eq!(p.encryption_mode, EncryptionMode::Allow);
    assert_eq!(p.blocklist_url, None);
    assert_eq!(p.peer_limit_global, 0);
    assert_eq!(p.peer_limit_per_torrent, 50);
    assert_eq!(p.idle_seeding_limit, 30);
    assert!(p.start_when_added);
    assert!(p.pex_enabled);
    assert_eq!(p.download_dir, "");
}

#[test]
fn legacy_field_names_invert() {
    for f in ["download_dir", "seed_ratio_limit", "blocklist_url", "peer_limit_global"] {
        assert_eq!(underscore_session_field_name(&legacy_session_field_name(f)), f);
    }
    for f in ["percent_done", "peers_getting_from_us", "error_string"] {
        assert_eq!(underscore_torrent_field_name(&legacy_torrent_field_name(f)), f);
    }
    assert_eq!(legacy_session_field_name("seed_ratio_limited"), "seedRatioLimited");
    assert_eq!(legacy_session_field_name("encryption"), "encryption");
    assert_eq!(legacy_torrent_field_name("percent_done"), "percentDone");
    assert_eq!(legacy_torrent_field_name("id"), "id");
}

#[test]
fn empty_id_lists_make_no_call() {
    assert!(remove_arguments(&Vec::new(), true).is_none());
    assert!(ids_arguments(&Vec::new()).is_none());
    let args = remove_arguments(&vec![4], false).unwrap();
    assert_eq!(args[0].key, "ids");
    assert_eq!(args[1].key, "delete_local_data");
}

#[test]
fn blank_magnet_is_only_reported() {
    let r = magnet_request("   ");
    let status = r.unwrap_err();
    assert_eq!(status.level, StatusLevel::Info);
    assert_eq!(status.text, "Ignoring empty magnet input");
    assert_eq!(magnet_request("  magnet:?xt=1 ").unwrap(), "magnet:?xt=1");
}

#[test]
fn negative_eta_becomes_absent() {
    assert_eq!(TorrentSummary::from_record(record(4, -1)).eta, None);
    assert_eq!(TorrentSummary::from_record(record(4, 0)).eta, Some(0));
}

#[test]
fn unknown_status_codes_are_named_by_number() {
    assert_eq!(TorrentSummary::from_record(record(9, 5)).status, "status-9");
    assert_eq!(TorrentSummary::from_record(record(-2, 5)).status, "status--2");
    assert_eq!(TorrentSummary::from_record(record(4, 5)).status, "downloading");
    assert_eq!(TorrentSummary::from_record(record(0, 5)).status, "stopped");
}

#[test]
fn saving_unchanged_preferences_does_nothing() {
    let mut form = PreferencesForm::new(prefs());
    assert!(form.queue_save().is_none());
    assert_eq!(form.message.as_deref(), Some("No changes to save"));
    assert!(!form.saving);
}

#[test]
fn session_token_handshake() {
    let mut session = RpcSession::new();
    assert!(session.session_header().is_none());
    match session.on_status(409, Some("abc123".to_string())) {
        HttpStep::Resend => {}
        other => panic!("unexpected {:?}", other),
    }
    assert_eq!(session.session_header().as_deref(), Some("abc123"));
    assert!(matches!(session.on_status(200, None), HttpStep::ReadBody));
    assert!(matches!(session.on_status(409, None), HttpStep::Fail(TransmissionError::Session)));
    assert!(matches!(session.on_status(401, None), HttpStep::Fail(TransmissionError::Authentication)));
    assert!(matches!(session.on_status(500, None), HttpStep::Fail(TransmissionError::HttpStatus(500))));
}

#[test]
fn dialect_downgrade_after_unknown_method() {
    let mut session = RpcSession::new();
    let first = session
        .build_request(session.protocol(), RpcMethod::TorrentGet, fields_arguments(snapshot_fields()))
        .unwrap();
    assert_eq!(first.method, "torrent_get");
    let err = TransmissionError::Rpc { code: -32601, message: "Method not found".to_string(), context: String::new() };
    assert!(session.downgrade_after(first.protocol, &err));
    assert_eq!(session.protocol(), RpcProtocol::Legacy);
    let retry = session
        .build_request(session.protocol(), RpcMethod::TorrentGet, fields_arguments(snapshot_fields()))
        .unwrap();
    assert_eq!(retry.method, "torrent-get");
    assert_eq!(retry.tag, first.tag + 1);
    match &retry.arguments.as_ref().unwrap()[0].value {
        WireValue::TextList(names) => {
            assert_eq!(names[0], "id");
            assert_eq!(names[3], "percentDone");
            assert_eq!(names[13], "peersGettingFromUs");
        }
        other => panic!("unexpected {:?}", other),
    }
    let next = session.build_request(session.protocol(), RpcMethod::SessionGet, None).unwrap();
    assert_eq!(next.method, "session-get");
    assert!(!session.downgrade_after(RpcProtocol::Legacy, &err));
    assert_eq!(session.protocol(), RpcProtocol::Legacy);
}

#[test]
fn retry_rule_reads_message_case_insensitively() {
    let by_message = TransmissionError::Rpc { code: 1, message: "METHOD NAME NOT RECOGNIZED".to_string(), context: String::new() };
    assert!(should_retry_in_legacy(&by_message));
    let other = TransmissionError::Rpc { code: 1, message: "busy".to_string(), context: String::new() };
    assert!(!should_retry_in_legacy(&other));
    assert!(!should_retry_in_legacy(&TransmissionError::Session));
}

#[test]
fn tags_strictly_increase() {
    let mut session = RpcSession::new();
    let a = session.next_tag().unwrap();
    let b = session.next_tag().unwrap();
    let c = session.build_request(RpcProtocol::Json, RpcMethod::SessionStats, None).unwrap().tag;
    assert!(a < b && b < c);
}

#[test]
fn duplicate_magnet_warns_and_focuses() {
    let outcome = AddTorrentOutcome::from_response(AddTorrentResponse {
        torrent_added: None,
        torrent_duplicate: Some(TorrentRef { id: Some(7), name: Some("foo".to_string()) }),
    });
    assert!(outcome.duplicate && !outcome.added);
    let reply = add_reply(Ok(outcome));
    let status = reply.status.unwrap();
    assert_eq!(status.level, StatusLevel::Warning);
    assert_eq!(status.text, "Magnet already present (foo)");
    assert_eq!(reply.focus, Some(7));
    assert!(reply.refresh);

    let mut app = App::new(&config());
    app.apply_snapshot(Ok(snapshot(vec![torrent(1, "a"), torrent(7, "foo")])), 0);
    assert_eq!(selected_id(&app), Some(1));
    app.set_focus(reply.focus);
    app.apply_snapshot(Ok(snapshot(vec![torrent(1, "a"), torrent(7, "foo")])), 10);
    assert_eq!(selected_id(&app), Some(7));
    assert_eq!(app.pending_focus, None);
}

#[test]
fn delete_needs_two_presses_then_confirmation() {
    let mut app = App::new(&config());
    app.apply_snapshot(Ok(snapshot(vec![torrent(12, "x")])), 0);
    assert!(app.handle_key(key('d'), 100).is_none());
    assert!(app.delete_armed);
    assert_eq!(app.status.as_ref().unwrap().level, StatusLevel::Info);
    assert!(app.handle_key(key('d'), 600).is_none());
    assert!(matches!(app.mode, InputMode::Confirm(_)));
    match app.handle_key(key('y'), 700) {
        Some(RpcCommand::RemoveTorrent { id, name, delete_data }) => {
            assert_eq!(id, 12);
            assert_eq!(name, "x");
            assert!(!delete_data);
        }
        other => panic!("unexpected {:?}", other),
    }
    assert_eq!(app.status.as_ref().unwrap().text, "Removing x…");
    assert!(matches!(app.mode, InputMode::Normal));
    let reply = action_reply(TorrentAction::Remove, "x", Ok(()));
    assert_eq!(reply.status.unwrap().text, "Removed x");
    assert!(reply.refresh);
}

#[test]
fn delete_arming_expires() {
    let mut app = App::new(&config());
    app.apply_snapshot(Ok(snapshot(vec![torrent(12, "x")])), 0);
    app.handle_key(key('d'), 100);
    app.handle_key(key('d'), 2100);
    assert!(matches!(app.mode, InputMode::Normal));
    assert!(app.delete_armed);
    app.handle_key(key('j'), 2200);
    assert!(!app.delete_armed);
}

#[test]
fn preferences_save_sends_edited_values() {
    let mut app = App::new(&config());
    let cached = prefs();
    app.apply_preferences_event(Ok(cached.clone()), 0);
    match app.handle_key(key('o'), 10) {
        Some(RpcCommand::FetchPreferences) => {}
        other => panic!("unexpected {:?}", other),
    }
    for _ in 0..3 {
        app.handle_key(key('j'), 20);
    }
    app.handle_key(special(KeyCode::Enter), 30);
    for _ in 0..3 {
        app.handle_key(special(KeyCode::Backspace), 31);
    }
    for c in "250".chars() {
        app.handle_key(key(c), 32);
    }
    app.handle_key(special(KeyCode::Enter), 40);
    let sent = match app.handle_key(key('s'), 50) {
        Some(RpcCommand::UpdatePreferences(p)) => p,
        other => panic!("unexpected {:?}", other),
    };
    assert_eq!(sent.speed_limit_up, 250);
    assert_eq!(sent.speed_limit_up_enabled, cached.speed_limit_up_enabled);
    let status = update_preferences_status(true).unwrap();
    assert_eq!(status.level, StatusLevel::Success);
    assert!(update_preferences_status(false).is_none());
    app.apply_preferences_event(Ok(sent), 60);
    match &app.mode {
        InputMode::Preferences(state) => match &state.view {
            transmission_tui::form::PreferencesView::Ready(form) => {
                assert!(!form.dirty);
                assert_eq!(form.message.as_deref(), Some("Preferences saved"));
            }
            _ => panic!("form expected"),
        },
        _ => panic!("preferences expected"),
    }
}

#[test]
fn filter_and_selection_preservation() {
    let mut app = App::new(&config());
    app.apply_snapshot(Ok(snapshot(vec![torrent(1, "alpha"), torrent(2, "echo"), torrent(3, "gamma")])), 0);
    app.handle_key(key('j'), 1);
    assert_eq!(selected_id(&app), Some(2));
    app.handle_key(key('/'), 2);
    app.handle_key(key('a'), 3);
    app.handle_key(special(KeyCode::Enter), 4);
    assert_eq!(app.filtered_indices, vec![0, 2]);
    assert_eq!(app.selected, Some(0));
    assert_eq!(selected_id(&app), Some(1));
    app.handle_key(special(KeyCode::Esc), 5);
    assert_eq!(app.filtered_indices, vec![0, 1, 2]);
    assert_eq!(selected_id(&app), Some(1));
}

#[test]
fn substring_filter_keeps_every_containing_name() {
    let mut app = App::new(&config());
    app.apply_snapshot(Ok(snapshot(vec![torrent(1, "alpha"), torrent(2, "beta"), torrent(3, "gamma")])), 0);
    app.handle_key(key('j'), 1);
    app.apply_filter_text("a".to_string());
    assert_eq!(app.filtered_indices, vec![0, 1, 2]);
    assert_eq!(selected_id(&app), Some(2));
}

#[test]
fn filter_with_no_match_clears_selection() {
    let mut app = App::new(&config());
    app.apply_snapshot(Ok(snapshot(vec![torrent(1, "Alpha")])), 0);
    app.apply_filter_text("ALP".to_string());
    assert_eq!(app.selected, Some(0));
    app.apply_filter_text("zzz".to_string());
    assert!(app.filtered_indices.is_empty());
    assert_eq!(app.selected, None);
}

#[test]
fn paste_in_normal_mode_opens_prompt() {
    let mut app = App::new(&config());
    app.handle_paste("magnet:?xt=abc".to_string());
    match &app.mode {
        InputMode::Prompt(p) => assert_eq!(p.buffer, "magnet:?xt=abc"),
        _ => panic!("prompt expected"),
    }
    match app.handle_key(special(KeyCode::Enter), 1) {
        Some(RpcCommand::AddMagnet(m)) => assert_eq!(m, "magnet:?xt=abc"),
        other => panic!("unexpected {:?}", other),
    }
}

#[test]
fn statuses_expire_by_level() {
    let mut app = App::new(&config());
    app.apply_snapshot(Err(TransmissionError::Authentication), 1000);
    let status = app.status.as_ref().unwrap();
    assert_eq!(status.text, "RPC error: authentication failed");
    assert_eq!(status.expires_at, Some(9000));
    assert!(app.toast.is_some());
    app.expire_status(8999);
    assert!(app.status.is_some());
    app.expire_status(9000);
    assert!(app.status.is_none());
    assert!(app.toast.is_none());
}

#[test]
fn ctrl_c_quits_from_a_dialog() {
    let mut app = App::new(&config());
    app.handle_key(key('?'), 0);
    assert!(matches!(app.mode, InputMode::Help));
    app.handle_key(KeyPress { code: KeyCode::Char('c'), ctrl: true, shift: false, alt: false }, 1);
    assert!(app.should_quit);
}

#[test]
fn rates_sizes_and_times_render() {
    assert_eq!(format_speed(0), " 0.0B/s");
    assert_eq!(format_speed(1536), " 1.5KiB/s");
    assert_eq!(format_speed(-5), " 0.0B/s");
    assert_eq!(format_bytes(1048576 * 25), "25.0 MiB");
    assert_eq!(format_bytes(1023), "1023.0 B");
    assert_eq!(format_eta(None), "∞");
    assert_eq!(format_eta(Some(-3)), "∞");
    assert_eq!(format_eta(Some(90061)), "1d1h");
    assert_eq!(format_eta(Some(3720)), "1h2m");
    assert_eq!(format_eta(Some(125)), "2m");
    assert_eq!(format_eta(Some(42)), "42s");
}

#[test]
fn endpoint_is_assembled() {
    let mut c = config();
    assert_eq!(c.rpc.endpoint(), "http://localhost:9091/transmission/rpc");
    c.rpc.url = Some("https://box/rpc".to_string());
    assert_eq!(c.rpc.endpoint(), "https://box/rpc");
}

#[test]
fn numeric_entries_are_checked() {
    assert_eq!(parse_non_negative(" 12 ", "upload limit"), Ok(12));
    assert_eq!(parse_non_negative("-1", "upload limit"), Err("upload limit must be zero or positive".to_string()));
    assert_eq!(parse_non_negative("x", "upload limit"), Err("Enter a valid number for upload limit".to_string()));
    assert_eq!(parse_positive("0", "max peers"), Err("max peers must be greater than zero".to_string()));
    assert_eq!(parse_i64("+42"), Some(42));
    assert_eq!(parse_i64("-9223372036854775808"), Some(i64::MIN));
    assert_eq!(parse_i64("9223372036854775808"), None);
    assert_eq!(parse_centi("2.5"), Some(250));
    assert_eq!(parse_centi(".75"), Some(75));
    assert_eq!(parse_centi("1.239"), Some(124));
    assert_eq!(parse_centi("2.555"), Some(256));
    assert_eq!(parse_centi("2.5549"), Some(255));
    assert_eq!(parse_centi("0.001"), Some(1));
    assert_eq!(parse_centi("0.000"), Some(0));
    assert_eq!(parse_centi("+2"), Some(200));
    assert_eq!(parse_centi("-1.5"), Some(-150));
    assert_eq!(parse_centi("1.2x"), None);
    assert_eq!(parse_centi("."), None);
    assert_eq!(format_centi(250), "2.50");
    assert_eq!(format_centi(-5), "-0.05");
}

#[test]
fn ratio_field_rejects_zero() {
    let mut p = prefs();
    assert!(PreferenceField::SeedRatioLimit.apply_input(&mut p, "0").is_err());
    assert_eq!(p.seed_ratio_limit, 250);
    assert!(PreferenceField::SeedRatioLimit.apply_input(&mut p, " 1.5 ").is_ok());
    assert_eq!(p.seed_ratio_limit, 150);
    assert!(PreferenceField::DownloadDir.apply_input(&mut p, "   ").is_err());
    assert!(PreferenceField::BlocklistUrl.apply_input(&mut p, "  ").is_ok());
    assert_eq!(p.blocklist_url, None);
    assert_eq!(PreferenceField::SpeedLimitUp.display_value(&p), "100 KiB/s");
    assert_eq!(PreferenceField::SeedRatioLimit.display_value(&p), "1.50");
}

#[test]
fn legacy_failures_carry_their_context() {
    let body = ReplyBody {
        jsonrpc: false,
        error: None,
        legacy_result: Some("duplicate torrent".to_string()),
        arguments: None,
    };
    let err = interpret_reply(&body).unwrap_err();
    assert_eq!(err.describe(), "rpc error -1: duplicate torrent");
    let ok = ReplyBody { jsonrpc: false, error: None, legacy_result: Some("success".to_string()), arguments: None };
    assert_eq!(interpret_reply(&ok).unwrap(), PayloadMember::Arguments);
    let missing = ReplyBody { jsonrpc: false, error: None, legacy_result: None, arguments: None };
    assert_eq!(interpret_reply(&missing).unwrap_err().describe(), "response parse error: missing legacy result");
}

#[test]
fn snapshot_is_composed_from_three_replies() {
    let stats = SessionStats { active_torrent_count: 1, paused_torrent_count: 2, torrent_count: 3, download_speed: 4, upload_speed: 5 };
    let s = Snapshot::compose(vec![record(6, 1)], stats, None);
    assert_eq!(s.version, "unknown");
    assert_eq!(s.total_torrents, 3);
    assert_eq!(s.torrents[0].status, "seeding");
}

#[test]
fn every_error_has_a_message() {
    assert_eq!(TransmissionError::Http("timed out".to_string()).describe(), "http error: timed out");
    assert_eq!(TransmissionError::Authentication.describe(), "authentication failed");
    assert_eq!(TransmissionError::Session.describe(), "session negotiation failed");
    assert_eq!(TransmissionError::HttpStatus(502).describe(), "unexpected http status 502");
    let rpc = TransmissionError::Rpc { code: -32601, message: "Method not found".to_string(), context: " (x)".to_string() };
    assert_eq!(rpc.describe(), "rpc error -32601: Method not found (x)");
    assert_eq!(TransmissionError::Parse("bad".to_string()).describe(), "response parse error: bad");
}

#[test]
fn add_failure_reports_only_the_error() {
    let reply = add_reply(Err(TransmissionError::Session));
    let status = reply.status.unwrap();
    assert_eq!(status.level, StatusLevel::Error);
    assert_eq!(status.text, "Add failed: session negotiation failed");
    assert!(!reply.refresh);
    assert_eq!(reply.focus, None);
}

#[test]
fn absent_focus_falls_back_to_selected_id() {
    let mut app = App::new(&config());
    app.apply_snapshot(Ok(snapshot(vec![torrent(1, "a"), torrent(2, "b")])), 0);
    app.handle_key(key('j'), 1);
    assert_eq!(selected_id(&app), Some(2));
    app.set_focus(Some(99));
    app.apply_snapshot(Ok(snapshot(vec![torrent(1, "a"), torrent(2, "b")])), 2);
    assert_eq!(selected_id(&app), Some(2));
    assert_eq!(app.selected, Some(1));
    assert_eq!(app.pending_focus, None);
}

#[test]
fn blank_prompt_and_filter_escape_change_nothing_else() {
    let mut app = App::new(&config());
    app.apply_snapshot(Ok(snapshot(vec![torrent(1, "a"), torrent(2, "b")])), 0);
    app.handle_key(key('j'), 1);
    app.handle_key(key('a'), 2);
    app.handle_key(key(' '), 3);
    let before = app.status.as_ref().unwrap().text.clone();
    assert!(app.handle_key(special(KeyCode::Enter), 4).is_none());
    assert!(matches!(app.mode, InputMode::Normal));
    assert_eq!(app.status.as_ref().unwrap().text, before);
    app.handle_key(key('/'), 5);
    app.handle_key(key('z'), 6);
    app.handle_key(special(KeyCode::Esc), 7);
    assert!(matches!(app.mode, InputMode::Normal));
    assert_eq!(app.filter_text, "");
    assert_eq!(app.filtered_indices, vec![0, 1]);
    assert_eq!(selected_id(&app), Some(2));
}

#[test]
fn ratio_accepts_any_positive_decimal() {
    let mut p = prefs();
    assert!(PreferenceField::SeedRatioLimit.apply_input(&mut p, "2.555").is_ok());
    assert_eq!(p.seed_ratio_limit, 256);
    assert!(PreferenceField::SeedRatioLimit.apply_input(&mut p, "0.001").is_ok());
    assert_eq!(p.seed_ratio_limit, 1);
    assert_eq!(
        PreferenceField::SeedRatioLimit.apply_input(&mut p, "-1"),
        Err("Ratio must be greater than zero".to_string())
    );
    assert_eq!(
        PreferenceField::SeedRatioLimit.apply_input(&mut p, "abc"),
        Err("Enter a numeric ratio (e.g. 2 or 2.0)".to_string())
    );
    assert_eq!(p.seed_ratio_limit, 1);
}

#[test]
fn limits_beyond_u32_are_refused_or_clamped() {
    assert_eq!(parse_positive("4294967296", "max peers"), Err("max peers is too large".to_string()));
    assert_eq!(parse_non_negative("4294967295", "upload limit"), Ok(u32::MAX));
    let entries = vec![WireEntry { key: "peer-limit-global".to_string(), value: WireValue::Int(5_000_000_000) }];
    let p = DaemonPreferences::from_response(PreferencesResponse::from_entries(&entries));
    assert_eq!(p.peer_limit_global, u32::MAX);
}

#[test]
fn resume_pause_and_big_moves() {
    let torrents: Vec<TorrentSummary> = (1..=8).map(|i| torrent(i, &format!("t{i}"))).collect();
    let mut app = App::new(&config());
    app.apply_snapshot(Ok(snapshot(torrents)), 0);
    match app.handle_key(key('r'), 1) {
        Some(RpcCommand::ResumeTorrent { id, name }) => {
            assert_eq!(id, 1);
            assert_eq!(name, "t1");
        }
        other => panic!("unexpected {:?}", other),
    }
    assert_eq!(app.status.as_ref().unwrap().text, "Resuming t1…");
    assert!(matches!(app.handle_key(key('p'), 2), Some(RpcCommand::PauseTorrent { id: 1, .. })));
    app.handle_key(KeyPress { code: KeyCode::Char('d'), ctrl: true, shift: false, alt: false }, 3);
    assert_eq!(app.selected, Some(5));
    app.handle_key(KeyPress { code: KeyCode::Char('u'), ctrl: true, shift: false, alt: false }, 4);
    assert_eq!(app.selected, Some(0));
    app.handle_key(key('G'), 5);
    assert_eq!(app.selected, Some(7));
    assert_eq!(selected_id(&app), Some(8));
}

#[test]
fn paste_reaches_the_preferences_editor_and_errors_show_in_dialog() {
    let mut app = App::new(&config());
    app.apply_preferences_event(Ok(prefs()), 0);
    app.handle_key(key('o'), 1);
    app.handle_key(special(KeyCode::Enter), 2);
    app.handle_paste("/x".to_string());
    match &app.mode {
        InputMode::Preferences(state) => match &state.view {
            transmission_tui::form::PreferencesView::Ready(form) => {
                assert_eq!(form.editing.as_ref().unwrap().buffer, "/data/x");
            }
            _ => panic!("form expected"),
        },
        _ => panic!("preferences expected"),
    }
    app.apply_preferences_event(Err(TransmissionError::Session), 3);
    match &app.mode {
        InputMode::Preferences(state) => match &state.view {
            transmission_tui::form::PreferencesView::Ready(form) => {
                assert_eq!(form.message.as_deref(), Some("session negotiation failed"));
            }
            _ => panic!("form expected"),
        },
        _ => panic!("preferences expected"),
    }
    let mut fresh = App::new(&config());
    fresh.handle_key(key('o'), 0);
    fresh.apply_preferences_event(Err(TransmissionError::Session), 1);
    match &fresh.mode {
        InputMode::Preferences(state) => {
            assert!(matches!(&state.view, transmission_tui::form::PreferencesView::Error(m) if m == "session negotiation failed"));
        }
        _ => panic!("preferences expected"),
    }
}

#[test]
fn legacy_spelled_preferences_decode_back() {
    let p = prefs();
    let legacy = translate_arguments_for_protocol(RpcProtocol::Legacy, RpcMethod::SessionSet, Some(p.to_rpc_map())).unwrap();
    assert!(legacy.iter().any(|e| e.key == "seedRatioLimited"));
    assert!(legacy.iter().any(|e| e.key == "encryption" && matches!(&e.value, WireValue::Text(t) if t == "tolerated")));
    let back = DaemonPreferences::from_response(PreferencesResponse::from_entries(&legacy));
    assert!(same_prefs(&p, &back));
}
