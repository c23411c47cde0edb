use std::str::FromStr;

use pumpfun_sniper::clock::{clock_reading, signed_nanos, unix_time_nanos};
use pumpfun_sniper::config::{
    AppConfig, HttpRpcConfig, HttpRpcEndpointConfig, LoggingConfig, MayhemProgramConfig,
    NetworkConfig, RuntimeConfig, WalletConfig, WatcherConfig, WatcherWebSocketConfig,
    YellowstoneConfig,
};
use pumpfun_sniper::decoder::{
    artifact_dir_name, extract_program_data_logs, log_messages_file_name, unix_secs,
    DecodeConfidence, DecodedEventKind, DecodedMayhemEvent, MayhemStatus,
};
use pumpfun_sniper::errors::{AppError, ConfigError, LoggingError, WalletError};
use pumpfun_sniper::network::{parse_commitment, CommitmentLevel, RpcStartupReport};
use pumpfun_sniper::qualifier::{
    qualify_decoded_event, qualify_decoded_event_at, shorten, CandidateDecisionKind,
    CandidateDecisionReason, QualifierState,
};
use pumpfun_sniper::state::AppState;
use pumpfun_sniper::text::{
    abbreviate, first_chars, is_blank, normalize_word, starts_with, to_ascii_lowercase, trim,
};
use pumpfun_sniper::wallet::{shorten_pubkey, shorten_pubkey_text, LoadedWallet};
use pumpfun_sniper::watcher::{
    event_age_secs, shorten_signature, watcher_start_decision, LogsNotificationEntry,
    MalformedWsMessage, RawActivityKind,
    RawActivitySourceKind, WatcherMode, WatcherStart, WatcherState, WsTextMessage,
};

fn valid_config() -> AppConfig {
    AppConfig {
        runtime: RuntimeConfig { app_name: "sniper".to_string(), environment: "dev".to_string() },
        logging: LoggingConfig { level: "info".to_string() },
        wallet: WalletConfig { keypair_path: "wallet.json".to_string(), mode: "paper".to_string() },
        network: NetworkConfig {
            http_rpc: HttpRpcConfig {
                label: "primary".to_string(),
                url: "https://rpc.example".to_string(),
                request_timeout_secs: 10,
                health_check_interval_secs: 30,
                blockhash_refresh_interval_secs: 5,
                heartbeat_interval_secs: 60,
                commitment: "confirmed".to_string(),
            },
            yellowstone: None,
            fallback_http_rpc: None,
        },
        watcher: WatcherConfig {
            enabled: true,
            heartbeat_interval_secs: 30,
            silence_warning_secs: 120,
            websocket: WatcherWebSocketConfig {
                enabled: true,
                url: "wss://rpc.example".to_string(),
                commitment: "processed".to_string(),
            },
            mayhem: MayhemProgramConfig { program_id: "MayhemProgram1111111111111111".to_string() },
        },
    }
}

fn yellowstone() -> YellowstoneConfig {
    YellowstoneConfig {
        endpoint: "https://grpc.example".to_string(),
        auth_token: None,
        connect_timeout_secs: 5,
        reconnect_base_delay_secs: 1,
        reconnect_max_delay_secs: 30,
        stream_liveness_timeout_secs: 20,
    }
}

fn validation_message(config: &AppConfig) -> Option<String> {
    match config.validate() {
        Ok(()) => None,
        Err(ConfigError::Validation(message)) => Some(message),
        Err(other) => panic!("unexpected error {:?}", other),
    }
}

fn creation_event(mint: &str) -> DecodedMayhemEvent {
    DecodedMayhemEvent {
        signature: "5sigABCDEFGHIJKLMNOP".to_string(),
        slot: 321,
        mint: Some(mint.to_string()),
        event_kind: DecodedEventKind::Creation,
        is_creation_event: true,
        is_first_seen_mint: true,
        mayhem_status: MayhemStatus::On,
        decode_confidence: DecodeConfidence::High,
        matched_program_id: "MayhemProgram".to_string(),
        relevant_accounts: vec!["acct1".to_string(), "acct2".to_string()],
    }
}

// ---------- text ----------

#[test]
fn blank_strings_are_detected() {
    assert!(is_blank(""));
    assert!(is_blank("  \t\n"));
    assert!(is_blank("\u{3000}\u{a0}\u{2028}"));
    assert!(!is_blank(" a "));
    assert!(!is_blank("\u{200b}"));
}

#[test]
fn trim_removes_white_space_at_both_ends() {
    assert_eq!(trim("  a b \t"), "a b");
    assert_eq!(trim("\u{3000}x\u{85}"), "x");
    assert_eq!(trim("   "), "");
    assert_eq!(trim(trim("  a  ")), trim("  a  "));
}

#[test]
fn normalize_word_trims_and_lowercases() {
    assert_eq!(normalize_word("  FinaLIZED\n"), "finalized");
    assert_eq!(normalize_word(" ÄBC "), "Äbc");
}

#[test]
fn starts_with_and_first_chars() {
    assert!(starts_with("Program data: x", "Program data:"));
    assert!(!starts_with("Program log", "Program data:"));
    assert!(starts_with("abc", ""));
    assert_eq!(first_chars("héllo", 2), "hé");
    assert_eq!(first_chars("ab", 8), "ab");
}

#[test]
fn abbreviate_cuts_long_values() {
    assert_eq!(abbreviate("abcdefghijklmnopq", 12, 6, 4), "abcdef...nopq");
    assert_eq!(abbreviate("abcdefghijkl", 12, 6, 4), "abcdefghijkl");
    assert_eq!(abbreviate("abcdefghijklm", 12, 6, 4), "abcdef...jklm");
    assert_eq!(abbreviate("ééé-abcdefgh", 10, 6, 4), "ééé...efgh");
}

#[test]
fn shorten_is_idempotent() {
    let once = shorten("5xKq9mBzWvLp2hTn8cRdYe");
    assert_eq!(once, "5xKq9m...RdYe");
    assert_eq!(shorten(&once), once);
    let once = shorten_pubkey_text("TokenkegQfeZyiNwAJbNbGKPFXCWuBvf9Ss623VQ5DA");
    assert_eq!(once, "Toke...Q5DA");
    assert_eq!(shorten_pubkey_text(&once), once);
}

#[test]
fn shorten_keeps_short_values() {
    assert_eq!(shorten("short"), "short");
    assert_eq!(shorten(""), "");
    assert_eq!(shorten_signature("abcdefghijkl"), "abcdefghijkl");
    assert_eq!(shorten_signature("abcdefghijklmnop"), "abcdef...mnop");
}

// ---------- config ----------

#[test]
fn valid_configuration_passes() {
    assert!(valid_config().validate().is_ok());
    let mut config = valid_config();
    config.network.yellowstone = Some(yellowstone());
    config.network.fallback_http_rpc = Some(HttpRpcEndpointConfig {
        label: "backup".to_string(),
        url: "https://backup.example".to_string(),
    });
    assert!(config.validate().is_ok());
}

#[test]
fn blank_app_name_is_the_first_violation() {
    let mut config = valid_config();
    config.runtime.app_name = "   ".to_string();
    config.logging.level = String::new();
    assert_eq!(validation_message(&config).unwrap(), "runtime.app_name must not be empty");
}

#[test]
fn each_required_text_is_checked() {
    let mut config = valid_config();
    config.runtime.environment = "\t".to_string();
    assert_eq!(validation_message(&config).unwrap(), "runtime.environment must not be empty");

    let mut config = valid_config();
    config.logging.level = String::new();
    assert_eq!(validation_message(&config).unwrap(), "logging.level must not be empty");

    let mut config = valid_config();
    config.wallet.keypair_path = " ".to_string();
    assert_eq!(validation_message(&config).unwrap(), "wallet.keypair_path must not be empty");

    let mut config = valid_config();
    config.network.http_rpc.url = String::new();
    assert_eq!(validation_message(&config).unwrap(), "network.http_rpc.url must not be empty");

    let mut config = valid_config();
    config.network.http_rpc.commitment = " ".to_string();
    assert_eq!(
        validation_message(&config).unwrap(),
        "network.http_rpc.commitment must not be empty"
    );

    let mut config = valid_config();
    config.network.http_rpc.label = String::new();
    assert_eq!(validation_message(&config).unwrap(), "network.http_rpc.label must not be empty");
}

#[test]
fn each_interval_must_be_positive() {
    let mut config = valid_config();
    config.network.http_rpc.request_timeout_secs = 0;
    assert_eq!(
        validation_message(&config).unwrap(),
        "network.http_rpc.request_timeout_secs must be greater than 0"
    );

    let mut config = valid_config();
    config.network.http_rpc.health_check_interval_secs = 0;
    assert_eq!(
        validation_message(&config).unwrap(),
        "network.http_rpc.health_check_interval_secs must be greater than 0"
    );

    let mut config = valid_config();
    config.network.http_rpc.blockhash_refresh_interval_secs = 0;
    assert_eq!(
        validation_message(&config).unwrap(),
        "network.http_rpc.blockhash_refresh_interval_secs must be greater than 0"
    );

    let mut config = valid_config();
    config.network.http_rpc.heartbeat_interval_secs = 0;
    assert_eq!(
        validation_message(&config).unwrap(),
        "network.http_rpc.heartbeat_interval_secs must be greater than 0"
    );
}

#[test]
fn yellowstone_section_is_checked() {
    let mut config = valid_config();
    let mut y = yellowstone();
    y.endpoint = " ".to_string();
    config.network.yellowstone = Some(y);
    assert_eq!(
        validation_message(&config).unwrap(),
        "network.yellowstone.endpoint must not be empty when yellowstone is provided"
    );

    let mut y = yellowstone();
    y.connect_timeout_secs = 0;
    config.network.yellowstone = Some(y);
    assert_eq!(
        validation_message(&config).unwrap(),
        "network.yellowstone.connect_timeout_secs must be greater than 0"
    );

    let mut y = yellowstone();
    y.reconnect_base_delay_secs = 0;
    config.network.yellowstone = Some(y);
    assert_eq!(
        validation_message(&config).unwrap(),
        "network.yellowstone.reconnect_base_delay_secs must be greater than 0"
    );

    let mut y = yellowstone();
    y.reconnect_max_delay_secs = 0;
    config.network.yellowstone = Some(y);
    assert_eq!(
        validation_message(&config).unwrap(),
        "network.yellowstone.reconnect_max_delay_secs must be greater than 0"
    );

    let mut y = yellowstone();
    y.stream_liveness_timeout_secs = 0;
    config.network.yellowstone = Some(y);
    assert_eq!(
        validation_message(&config).unwrap(),
        "network.yellowstone.stream_liveness_timeout_secs must be greater than 0"
    );

    let mut y = yellowstone();
    y.reconnect_base_delay_secs = 31;
    config.network.yellowstone = Some(y);
    assert_eq!(
        validation_message(&config).unwrap(),
        "network.yellowstone.reconnect_base_delay_secs must be less than or equal to network.yellowstone.reconnect_max_delay_secs"
    );

    let mut y = yellowstone();
    y.reconnect_base_delay_secs = 30;
    config.network.yellowstone = Some(y);
    assert!(config.validate().is_ok());
}

#[test]
fn fallback_endpoint_is_checked() {
    let mut config = valid_config();
    config.network.fallback_http_rpc =
        Some(HttpRpcEndpointConfig { label: "backup".to_string(), url: " ".to_string() });
    assert_eq!(
        validation_message(&config).unwrap(),
        "network.fallback_http_rpc.url must not be empty when provided"
    );
    config.network.fallback_http_rpc =
        Some(HttpRpcEndpointConfig { label: String::new(), url: "https://b".to_string() });
    assert_eq!(
        validation_message(&config).unwrap(),
        "network.fallback_http_rpc.label must not be empty when provided"
    );
}

#[test]
fn yellowstone_is_checked_before_fallback() {
    let mut config = valid_config();
    let mut y = yellowstone();
    y.connect_timeout_secs = 0;
    config.network.yellowstone = Some(y);
    config.network.fallback_http_rpc =
        Some(HttpRpcEndpointConfig { label: String::new(), url: String::new() });
    assert_eq!(
        validation_message(&config).unwrap(),
        "network.yellowstone.connect_timeout_secs must be greater than 0"
    );
}

// ---------- network ----------

#[test]
fn commitment_levels_are_parsed() {
    assert_eq!(parse_commitment("processed").unwrap(), CommitmentLevel::Processed);
    assert_eq!(parse_commitment("  Confirmed\n").unwrap(), CommitmentLevel::Confirmed);
    assert_eq!(parse_commitment("FINALIZED").unwrap(), CommitmentLevel::Finalized);
}

#[test]
fn unknown_commitment_is_rejected_with_normalized_word() {
    match parse_commitment("  MAX ") {
        Err(AppError::Config(ConfigError::Validation(message))) => assert_eq!(
            message,
            "network.http_rpc.commitment must be one of: processed, confirmed, finalized; got 'max'"
        ),
        other => panic!("unexpected {:?}", other),
    }
    assert!(parse_commitment("").is_err());
    assert!(parse_commitment("processed!").is_err());
}

#[test]
fn commitment_word_is_normal() {
    for raw in ["  PROCESSED\t", "Confirmed", "x"] {
        let word = normalize_word(raw);
        assert_eq!(normalize_word(&word), word);
        assert_eq!(parse_commitment(raw).is_ok(), parse_commitment(&word).is_ok());
    }
}

#[test]
fn startup_report_copies_configuration() {
    let config = valid_config();
    let report = RpcStartupReport::from_measurements(&config, 12, 34, "hash".to_string());
    assert_eq!(report.url, "https://rpc.example");
    assert_eq!(report.commitment, "confirmed");
    assert_eq!(report.health_check_latency_ms, 12);
    assert_eq!(report.blockhash_latency_ms, 34);
    assert_eq!(report.latest_blockhash, "hash");
}

// ---------- errors ----------

#[test]
fn errors_convert_into_app_error() {
    assert!(matches!(
        AppError::from(ConfigError::Validation("x".to_string())),
        AppError::Config(ConfigError::Validation(_))
    ));
    assert!(matches!(
        AppError::from(LoggingError::Init("bad".to_string())),
        AppError::Logging(LoggingError::Init(_))
    ));
    assert!(matches!(
        AppError::from(WalletError::Empty { path: "w".to_string() }),
        AppError::Wallet(WalletError::Empty { .. })
    ));
    let io = std::io::Error::new(std::io::ErrorKind::NotFound, "missing");
    assert!(matches!(
        AppError::from(WalletError::Read { path: "w".to_string(), source: io }),
        AppError::Wallet(WalletError::Read { .. })
    ));
}

// ---------- qualifier ----------

#[test]
fn decision_words() {
    assert_eq!(CandidateDecisionKind::Accepted.as_str(), "accepted");
    assert_eq!(CandidateDecisionKind::Rejected.as_str(), "rejected");
    assert_eq!(CandidateDecisionKind::Ignored.as_str(), "ignored");
    assert_eq!(CandidateDecisionReason::Qualified.as_str(), "qualified");
    assert_eq!(CandidateDecisionReason::MissingMint.as_str(), "missing_mint");
    assert_eq!(CandidateDecisionReason::NotCreation.as_str(), "not_creation");
    assert_eq!(CandidateDecisionReason::NotFirstSeen.as_str(), "not_first_seen");
    assert_eq!(CandidateDecisionReason::MayhemNotOn.as_str(), "mayhem_not_on");
    assert_eq!(
        CandidateDecisionReason::DecodeConfidenceTooLow.as_str(),
        "decode_confidence_too_low"
    );
    assert_eq!(CandidateDecisionReason::AlreadyArmed.as_str(), "already_armed");
    assert_eq!(MayhemStatus::On.as_str(), "on");
    assert_eq!(DecodeConfidence::High.as_str(), "high");
}

#[test]
fn qualifying_accepts_a_fresh_mint() {
    let mut state = QualifierState::default();
    let event = creation_event("MintA");
    let decision = qualify_decoded_event_at(&mut state, &event, 42);
    assert_eq!(decision.kind, CandidateDecisionKind::Accepted);
    assert_eq!(decision.reason, CandidateDecisionReason::Qualified);
    assert_eq!(decision.mint.as_deref(), Some("MintA"));
    assert_eq!(decision.signature, "5sigABCDEFGHIJKLMNOP");
    assert_eq!(decision.slot, 321);
    let armed = decision.armed_candidate.expect("armed");
    assert_eq!(armed.mint, "MintA");
    assert_eq!(armed.armed_at, 42);
    assert_eq!(armed.initial_mayhem_status, MayhemStatus::On);
    assert_eq!(armed.decode_confidence, DecodeConfidence::High);
    assert_eq!(armed.matched_program_id, "MayhemProgram");
    assert_eq!(armed.relevant_accounts, vec!["acct1".to_string(), "acct2".to_string()]);
    assert_eq!(armed.mayhem_tracking_refs.mint, "MintA");
    assert_eq!(armed.mayhem_tracking_refs.relevant_accounts.len(), 2);
    assert!(state.is_armed(&"MintA".to_string()));
}

#[test]
fn qualifying_stamps_the_current_time() {
    let mut state = QualifierState::new();
    let decision = qualify_decoded_event(&mut state, &creation_event("MintT"));
    let armed = decision.armed_candidate.expect("armed");
    assert!(armed.armed_at > 1_600_000_000i128 * 1_000_000_000);
}

#[test]
fn a_mint_is_armed_only_once() {
    let mut state = QualifierState::new();
    let first = qualify_decoded_event_at(&mut state, &creation_event("MintB"), 1);
    let second = qualify_decoded_event_at(&mut state, &creation_event("MintB"), 2);
    let other = qualify_decoded_event_at(&mut state, &creation_event("MintC"), 3);
    let third = qualify_decoded_event_at(&mut state, &creation_event("MintB"), 4);
    assert_eq!(first.kind, CandidateDecisionKind::Accepted);
    assert_eq!(second.kind, CandidateDecisionKind::Ignored);
    assert_eq!(second.reason, CandidateDecisionReason::AlreadyArmed);
    assert!(second.armed_candidate.is_none());
    assert_eq!(other.kind, CandidateDecisionKind::Accepted);
    assert_eq!(third.kind, CandidateDecisionKind::Ignored);
}

#[test]
fn each_rejection_reason() {
    let mut state = QualifierState::new();

    let mut event = creation_event("M");
    event.mint = None;
    let d = qualify_decoded_event_at(&mut state, &event, 0);
    assert_eq!((d.kind, d.reason), (CandidateDecisionKind::Rejected, CandidateDecisionReason::MissingMint));
    assert!(d.mint.is_none());

    let mut event = creation_event("M");
    event.event_kind = DecodedEventKind::Other;
    let d = qualify_decoded_event_at(&mut state, &event, 0);
    assert_eq!(d.reason, CandidateDecisionReason::NotCreation);

    let mut event = creation_event("M");
    event.is_creation_event = false;
    let d = qualify_decoded_event_at(&mut state, &event, 0);
    assert_eq!(d.reason, CandidateDecisionReason::NotCreation);
    assert_eq!(d.mint.as_deref(), Some("M"));

    let mut event = creation_event("M");
    event.is_first_seen_mint = false;
    let d = qualify_decoded_event_at(&mut state, &event, 0);
    assert_eq!(d.reason, CandidateDecisionReason::NotFirstSeen);

    let mut event = creation_event("M");
    event.mayhem_status = MayhemStatus::Unknown;
    let d = qualify_decoded_event_at(&mut state, &event, 0);
    assert_eq!(d.reason, CandidateDecisionReason::MayhemNotOn);

    let mut event = creation_event("M");
    event.decode_confidence = DecodeConfidence::Medium;
    let d = qualify_decoded_event_at(&mut state, &event, 0);
    assert_eq!(d.kind, CandidateDecisionKind::Rejected);
    assert_eq!(d.reason, CandidateDecisionReason::DecodeConfidenceTooLow);

    assert!(!state.is_armed(&"M".to_string()));
}

#[test]
fn rejection_does_not_depend_on_armed_mints() {
    let mut empty = QualifierState::new();
    let mut armed = QualifierState::new();
    qualify_decoded_event_at(&mut armed, &creation_event("M"), 0);
    let mut event = creation_event("M");
    event.mayhem_status = MayhemStatus::Off;
    let a = qualify_decoded_event_at(&mut empty, &event, 0);
    let b = qualify_decoded_event_at(&mut armed, &event, 0);
    assert_eq!((a.kind, a.reason), (b.kind, b.reason));
    assert_eq!(a.reason, CandidateDecisionReason::MayhemNotOn);
}

// ---------- watcher ----------

#[test]
fn watcher_words() {
    assert_eq!(RawActivitySourceKind::WebSocketLogs.as_str(), "websocket_logs");
    assert_eq!(RawActivityKind::MayhemLogMatch.as_str(), "mayhem_log_match");
    assert_eq!(WatcherMode::Connecting.as_str(), "connecting");
    assert_eq!(WatcherMode::Healthy.as_str(), "healthy");
    assert_eq!(WatcherMode::Silent.as_str(), "silent");
    assert_eq!(WatcherMode::Disconnected.as_str(), "disconnected");
}

#[test]
fn new_watcher_state_is_connecting() {
    let config = valid_config();
    let state = WatcherState::new(&config);
    assert!(state.enabled);
    assert_eq!(state.rpc_label, "primary");
    assert_eq!(state.matched_program_id, "MayhemProgram1111111111111111");
    assert_eq!(state.mode, WatcherMode::Connecting);
    assert_eq!(state.total_notifications_seen, 0);
    assert_eq!(state.total_candidates_forwarded, 0);
    assert_eq!(state.ignored_notifications, 0);
    assert_eq!(state.reconnect_count, 0);
    assert!(state.last_event_at.is_none());
    assert!(state.last_signature.is_none());
    assert!(state.last_slot.is_none());
}

#[test]
fn mode_follows_silence_and_reconnects() {
    let config = valid_config();
    let mut state = WatcherState::new(&config);
    state.recompute_mode_at(1_000, 100);
    assert_eq!(state.mode, WatcherMode::Connecting);
    state.record_disconnect();
    assert_eq!(state.reconnect_count, 1);
    assert_eq!(state.mode, WatcherMode::Disconnected);
    state.recompute_mode_at(1_000, 100);
    assert_eq!(state.mode, WatcherMode::Disconnected);

    state.last_event_at = Some(1_000);
    state.recompute_mode_at(1_000, 100);
    assert_eq!(state.mode, WatcherMode::Healthy);
    state.recompute_mode_at(1_100, 100);
    assert_eq!(state.mode, WatcherMode::Healthy);
    state.recompute_mode_at(1_101, 100);
    assert_eq!(state.mode, WatcherMode::Silent);
    state.recompute_mode_at(999, 100);
    assert_eq!(state.mode, WatcherMode::Connecting);
}

#[test]
fn recompute_mode_reads_the_clock() {
    let config = valid_config();
    let mut state = WatcherState::new(&config);
    state.last_event_at = Some(1);
    state.recompute_mode(1_000_000_000);
    assert_eq!(state.mode, WatcherMode::Silent);
    state.last_event_at = Some(i128::MAX);
    state.recompute_mode(1_000_000_000);
    assert_eq!(state.mode, WatcherMode::Connecting);
}

#[test]
fn log_notification_becomes_a_candidate() {
    let config = valid_config();
    let mut state = WatcherState::new(&config);
    let entry = LogsNotificationEntry {
        signature: "SigXYZ".to_string(),
        slot: 77,
        err: Some("{\"InstructionError\":[0,\"Custom\"]}".to_string()),
        logs: vec!["Program log: a".to_string()],
    };
    let candidate = state
        .handle_ws_text_message_at(WsTextMessage::LogsNotification(entry), &config, 5_000)
        .expect("readable")
        .expect("candidate");
    assert_eq!(candidate.source_kind, RawActivitySourceKind::WebSocketLogs);
    assert_eq!(candidate.activity_kind, RawActivityKind::MayhemLogMatch);
    assert_eq!(candidate.rpc_label, "primary");
    assert_eq!(candidate.observed_at, 5_000);
    assert_eq!(candidate.signature, "SigXYZ");
    assert_eq!(candidate.slot, 77);
    assert!(candidate.err.is_some());
    assert_eq!(candidate.logs, vec!["Program log: a".to_string()]);
    assert_eq!(candidate.matched_program_id, "MayhemProgram1111111111111111");
    assert_eq!(state.total_notifications_seen, 1);
    assert_eq!(state.total_candidates_forwarded, 1);
    assert_eq!(state.last_event_at, Some(5_000));
    assert_eq!(state.last_signature.as_deref(), Some("SigXYZ"));
    assert_eq!(state.last_slot, Some(77));
    assert_eq!(state.mode, WatcherMode::Healthy);
}

#[test]
fn other_and_malformed_messages() {
    let config = valid_config();
    let mut state = WatcherState::new(&config);
    assert!(state.handle_ws_text_message(WsTextMessage::OtherMethod, &config).unwrap().is_none());
    assert_eq!(state.ignored_notifications, 0);
    assert_eq!(state.mode, WatcherMode::Connecting);
    assert_eq!(
        state.handle_ws_text_message(WsTextMessage::Malformed, &config).unwrap_err(),
        MalformedWsMessage
    );
    assert_eq!(state.ignored_notifications, 0);
    assert_eq!(state.total_notifications_seen, 0);
    state.record_ignored_notification();
    state.record_ignored_notification();
    assert_eq!(state.ignored_notifications, 2);
    assert_eq!(state.total_notifications_seen, 0);
    assert_eq!(state.mode, WatcherMode::Connecting);
}

#[test]
fn counters_move_together() {
    let config = valid_config();
    let mut state = WatcherState::new(&config);
    let messages = vec![
        WsTextMessage::Malformed,
        WsTextMessage::LogsNotification(LogsNotificationEntry {
            signature: "a".to_string(),
            slot: 1,
            err: None,
            logs: vec![],
        }),
        WsTextMessage::OtherMethod,
        WsTextMessage::LogsNotification(LogsNotificationEntry {
            signature: "b".to_string(),
            slot: 2,
            err: None,
            logs: vec![],
        }),
    ];
    for message in messages {
        if state.handle_ws_text_message(message, &config).is_err() {
            state.record_ignored_notification();
        }
        assert_eq!(state.total_notifications_seen, state.total_candidates_forwarded);
    }
    assert_eq!(state.total_notifications_seen, 2);
    assert_eq!(state.ignored_notifications, 1);
    assert_eq!(state.last_slot, Some(2));
    let observed = state.last_event_at.unwrap();
    state.recompute_mode_at(observed, 0);
    assert_eq!(state.mode, WatcherMode::Healthy);
}

#[test]
fn watcher_start_depends_on_switches() {
    let mut config = valid_config();
    assert_eq!(watcher_start_decision(&config), WatcherStart::Run);
    config.watcher.websocket.enabled = false;
    assert_eq!(watcher_start_decision(&config), WatcherStart::WebSocketDisabled);
    config.watcher.enabled = false;
    assert_eq!(watcher_start_decision(&config), WatcherStart::Disabled);
}

// ---------- decoder ----------

#[test]
fn artifact_names_come_from_the_signature() {
    assert_eq!(artifact_dir_name("5KtPn1LGuxhFiwjxErkxTb"), "5KtP_5KtPn1LG");
    assert_eq!(artifact_dir_name("ab"), "ab_ab");
    assert_eq!(artifact_dir_name(""), "_");
    assert_eq!(log_messages_file_name("5KtPn1LG"), "5KtP_log_messages.json");
}

#[test]
fn unix_seconds_of_nanoseconds() {
    assert_eq!(unix_secs(1_700_000_000_999_999_999), 1_700_000_000);
    assert_eq!(unix_secs(0), 0);
    assert_eq!(unix_secs(-5_000_000_000), 0);
}

#[test]
fn program_data_lines_are_extracted() {
    let logs = Some(vec![
        Some("Program data: AAEC".to_string()),
        None,
        Some("Program log: Instruction: Create".to_string()),
        Some("Program data:".to_string()),
        Some(" Program data: x".to_string()),
    ]);
    let lines = extract_program_data_logs(&logs);
    assert_eq!(lines, vec!["Program data: AAEC".to_string(), "Program data:".to_string()]);
    let again = extract_program_data_logs(&Some(lines.iter().cloned().map(Some).collect()));
    assert_eq!(again, lines);
    assert!(extract_program_data_logs(&None).is_empty());
}

// ---------- wallet and state ----------

#[test]
fn pubkey_is_shortened_from_its_base58_text() {
    let key = solana_sdk::pubkey::Pubkey::from_str("TokenkegQfeZyiNwAJbNbGKPFXCWuBvf9Ss623VQ5DA")
        .unwrap();
    let bytes = key.to_bytes();
    assert_eq!(shorten_pubkey(&bytes), "Toke...Q5DA");
    assert_eq!(shorten_pubkey(&[0u8; 32]), "1111...1111");
    let wallet = LoadedWallet::from_pubkey("wallet.json".to_string(), bytes);
    assert_eq!(wallet.keypair_path, "wallet.json");
    assert_eq!(wallet.pubkey, bytes);
    assert_eq!(wallet.pubkey_short, "Toke...Q5DA");
}

#[test]
fn app_state_copies_runtime_identity() {
    let mut config = valid_config();
    config.network.yellowstone = Some(yellowstone());
    config.watcher.websocket.enabled = false;
    let wallet = LoadedWallet::from_pubkey("w.json".to_string(), [0u8; 32]);
    let state = AppState::new(config, wallet);
    assert_eq!(state.runtime.app_name, "sniper");
    assert_eq!(state.runtime.environment, "dev");
    assert_eq!(state.wallet.pubkey_short, "1111...1111");
    let statuses = state.startup_statuses();
    assert_eq!(statuses.fallback_rpc, "not configured");
    assert_eq!(statuses.yellowstone, "configured");
    assert_eq!(statuses.watcher, "enabled");
    assert_eq!(statuses.watcher_websocket, "disabled");
}

#[test]
fn event_age_in_whole_seconds() {
    assert_eq!(event_age_secs(1_000_000_000, 4_500_000_000), Some(3));
    assert_eq!(event_age_secs(5, 5), Some(0));
    assert_eq!(event_age_secs(6, 5), None);
    assert_eq!(event_age_secs(-2_000_000_000, 1_000_000_000), Some(3));
    assert_eq!(event_age_secs(i128::MIN, i128::MAX), Some(u128::MAX / 1_000_000_000));
}

#[test]
fn clock_reads_after_the_epoch() {
    let now = unix_time_nanos();
    assert!(now > 1_600_000_000i128 * 1_000_000_000);
    assert!(now / 1_000_000_000 <= u64::MAX as i128);
}

#[test]
fn mark_connecting_changes_only_the_mode() {
    let config = valid_config();
    let mut state = WatcherState::new(&config);
    state.record_disconnect();
    state.mark_connecting();
    assert_eq!(state.mode, WatcherMode::Connecting);
    assert_eq!(state.reconnect_count, 1);
}

#[test]
fn every_passing_event_after_the_first_is_ignored() {
    let mut state = QualifierState::new();
    let kinds: Vec<_> = (0..4)
        .map(|i| qualify_decoded_event_at(&mut state, &creation_event("MintZ"), i).kind)
        .collect();
    assert_eq!(
        kinds,
        vec![
            CandidateDecisionKind::Accepted,
            CandidateDecisionKind::Ignored,
            CandidateDecisionKind::Ignored,
            CandidateDecisionKind::Ignored
        ]
    );
    assert!(state.is_armed(&"MintZ".to_string()));
}

#[test]
fn signed_nanos_follows_the_side_of_the_epoch() {
    assert_eq!(signed_nanos(Ok(5)), 5);
    assert_eq!(signed_nanos(Err(5)), -5);
    assert_eq!(signed_nanos(Ok(0)), 0);
    match clock_reading() {
        Ok(n) => assert!(n > 1_600_000_000u128 * 1_000_000_000),
        Err(_) => panic!("clock before 1970"),
    }
}

#[test]
fn ascii_lowercase_changes_only_ascii_letters() {
    assert_eq!(to_ascii_lowercase("AbC-xyZ 09"), "abc-xyz 09");
    assert_eq!(to_ascii_lowercase("ÄÖÜ ß"), "ÄÖÜ ß");
    assert_eq!(to_ascii_lowercase(""), "");
}

#[test]
fn kth_failed_attempt_reports_count_k() {
    let config = valid_config();
    let mut state = WatcherState::new(&config);
    for k in 1..=5u64 {
        state.mark_connecting();
        assert_eq!(state.mode, WatcherMode::Connecting);
        state.record_disconnect();
        assert_eq!(state.reconnect_count, k);
        assert_eq!(state.mode, WatcherMode::Disconnected);
        state.recompute_mode_at(0, 1);
        assert_eq!(state.reconnect_count, k);
    }
    assert_eq!(state.total_notifications_seen, 0);
}
