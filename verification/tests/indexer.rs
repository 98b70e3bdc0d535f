use pifp::api::{AllEventsResponse, EventsResponse, HealthResponse};
use pifp::config::{Config, ConfigError, parse_u64_dec};
use pifp::events::EventKind;
use pifp::indexer::{next_start_ledger, resume_ledger};
use pifp::json::{JsonNum, JsonValue};
use pifp::rpc::{
    FetchOutcome, FetchStep, RawEvent, decode_events, extract_symbol, extract_u64_or_raw,
    parse_iso_to_unix,
};

#[test]
fn event_kind_from_topic() {
    assert_eq!(EventKind::from_topic("created"), EventKind::ProjectCreated);
    assert_eq!(EventKind::from_topic("funded"), EventKind::ProjectFunded);
    assert_eq!(
        EventKind::from_topic("verified"),
        EventKind::ProjectVerified
    );
    assert_eq!(EventKind::from_topic("released"), EventKind::FundsReleased);
    assert_eq!(EventKind::from_topic("role_set"), EventKind::RoleSet);
    assert_eq!(EventKind::from_topic("role_del"), EventKind::RoleDel);
    assert_eq!(EventKind::from_topic("paused"), EventKind::ProtocolPaused);
    assert_eq!(
        EventKind::from_topic("unpaused"),
        EventKind::ProtocolUnpaused
    );
    assert_eq!(EventKind::from_topic("something_else"), EventKind::Unknown);
}

#[test]
fn event_kind_as_str() {
    assert_eq!(EventKind::ProjectCreated.as_str(), "project_created");
    assert_eq!(EventKind::ProjectFunded.as_str(), "project_funded");
    assert_eq!(EventKind::ProjectVerified.as_str(), "project_verified");
    assert_eq!(EventKind::FundsReleased.as_str(), "funds_released");
    assert_eq!(EventKind::RoleSet.as_str(), "role_set");
    assert_eq!(EventKind::RoleDel.as_str(), "role_del");
}

#[test]
fn extract_symbol_from_json() {
    let raw = r#"{"type":"symbol","value":"funded"}"#;
    assert_eq!(extract_symbol(raw), "funded");
}

#[test]
fn extract_symbol_raw_fallback() {
    assert_eq!(extract_symbol("verified"), "verified");
}

#[test]
fn extract_u64_from_json_topic() {
    assert_eq!(extract_u64_or_raw(r#"{"type":"u64","value":"42"}"#), "42");
    assert_eq!(extract_u64_or_raw(r#"{"type":"u64","value":7}"#), "7");
    assert_eq!(extract_u64_or_raw("plain"), "plain");
}

#[test]
fn decode_funded_event() {
    let raw = RawEvent {
        topic: vec![
            r#"{"type":"symbol","value":"funded"}"#.to_string(),
            r#"{"type":"u64","value":"42"}"#.to_string(),
        ],
        value: JsonValue::Entries(vec![
            ("donator".to_string(), JsonValue::Text("GABC123".to_string())),
            ("amount".to_string(), JsonValue::Text("5000".to_string())),
        ]),
        contract_id: Some("CONTRACT1".to_string()),
        tx_hash: Some("TX1".to_string()),
        id: None,
        ledger: Some(1000),
        ledger_closed_at: Some("2024-01-01T00:00:00Z".to_string()),
        in_successful_contract_call: Some(true),
        paging_token: None,
    };

    let events = decode_events(&vec![raw], "CONTRACT1");
    assert_eq!(events.len(), 1);
    let ev = &events[0];
    assert_eq!(ev.event_type, "project_funded");
    assert_eq!(ev.project_id.as_deref(), Some("42"));
    assert_eq!(ev.actor.as_deref(), Some("GABC123"));
    assert_eq!(ev.amount.as_deref(), Some("5000"));
    assert_eq!(ev.ledger, 1000);
}

#[test]
fn decode_role_set_event() {
    let raw = RawEvent {
        topic: vec![
            r#"{"type":"symbol","value":"role_set"}"#.to_string(),
            r#"{"type":"address","value":"GADMIN123"}"#.to_string(),
            r#"{"type":"symbol","value":"admin"}"#.to_string(),
        ],
        value: JsonValue::Text("GCALLER".to_string()),
        contract_id: Some("CONTRACT1".to_string()),
        tx_hash: Some("TX2".to_string()),
        id: None,
        ledger: Some(1001),
        ledger_closed_at: Some("2024-01-01T00:00:01Z".to_string()),
        in_successful_contract_call: Some(true),
        paging_token: None,
    };

    let events = decode_events(&vec![raw], "CONTRACT1");
    assert_eq!(events.len(), 1);
    assert_eq!(events[0].event_type, "role_set");
    assert_eq!(events[0].actor.as_deref(), Some("GCALLER"));
}

#[test]
fn decode_created_event_nested_creator() {
    let raw = RawEvent {
        topic: vec![r#"{"type":"symbol","value":"created"}"#.to_string()],
        value: JsonValue::Entries(vec![
            (
                "data".to_string(),
                JsonValue::Entries(vec![(
                    "creator".to_string(),
                    JsonValue::Text("GCREATOR".to_string()),
                )]),
            ),
            (
                "goal".to_string(),
                JsonValue::Num(JsonNum {
                    text: "5000".to_string(),
                    uval: Some(5000),
                    ival: Some(5000),
                }),
            ),
        ]),
        contract_id: None,
        tx_hash: None,
        id: None,
        ledger: None,
        ledger_closed_at: None,
        in_successful_contract_call: None,
        paging_token: None,
    };

    let events = decode_events(&vec![raw], "CFALLBACK");
    assert_eq!(events.len(), 1);
    assert_eq!(events[0].event_type, "project_created");
    assert_eq!(events[0].actor.as_deref(), Some("GCREATOR"));
    assert_eq!(events[0].amount.as_deref(), Some("5000"));
    assert_eq!(events[0].contract_id, "CFALLBACK");
    assert_eq!(events[0].ledger, 0);
    assert_eq!(events[0].timestamp, 0);
}

#[test]
fn decode_skips_topicless_events() {
    let raw = RawEvent {
        topic: vec![],
        value: JsonValue::Null,
        contract_id: None,
        tx_hash: None,
        id: None,
        ledger: None,
        ledger_closed_at: None,
        in_successful_contract_call: None,
        paging_token: None,
    };
    let events = decode_events(&vec![raw], "C");
    assert_eq!(events.len(), 0);
}

#[test]
fn parse_iso_timestamp() {
    let ts = parse_iso_to_unix("2024-01-01T00:00:00Z").unwrap();
    assert_eq!(ts, 1_704_067_200);
}

#[test]
fn parse_u64_dec_exact() {
    assert_eq!(parse_u64_dec("0"), Some(0));
    assert_eq!(parse_u64_dec("3001"), Some(3001));
    assert_eq!(parse_u64_dec("18446744073709551615"), Some(u64::MAX));
    assert_eq!(parse_u64_dec("18446744073709551616"), None);
    assert_eq!(parse_u64_dec(""), None);
    assert_eq!(parse_u64_dec("12a"), None);
    assert_eq!(parse_u64_dec("-3"), None);
}

#[test]
fn config_defaults_apply() {
    let c = Config::from_vars(
        None,
        Some("CONTRACT".to_string()),
        None,
        None,
        None,
        None,
        None,
    )
    .unwrap();
    assert_eq!(c.rpc_url, "https://soroban-testnet.stellar.org");
    assert_eq!(c.contract_id, "CONTRACT");
    assert_eq!(c.database_url, "sqlite:./pifp_events.db");
    assert_eq!(c.api_port, 3001);
    assert_eq!(c.poll_interval_secs, 5);
    assert_eq!(c.events_per_page, 100);
    assert_eq!(c.start_ledger, 0);
}

#[test]
fn config_rejects_bad_values() {
    let r = Config::from_vars(None, None, None, None, None, None, None);
    assert_eq!(r, Err(ConfigError::MissingContractId));
    assert_eq!(
        ConfigError::MissingContractId.message(),
        "CONTRACT_ID environment variable is required"
    );

    let r = Config::from_vars(
        None,
        Some("C".to_string()),
        None,
        Some("70000".to_string()),
        None,
        None,
        None,
    );
    assert_eq!(r, Err(ConfigError::InvalidApiPort));
    assert_eq!(ConfigError::InvalidApiPort.message(), "Invalid API_PORT");

    let r = Config::from_vars(
        None,
        Some("C".to_string()),
        None,
        None,
        Some("fast".to_string()),
        None,
        None,
    );
    assert_eq!(r, Err(ConfigError::InvalidPollInterval));

    let r = Config::from_vars(
        None,
        Some("C".to_string()),
        None,
        None,
        None,
        Some("-1".to_string()),
        None,
    );
    assert_eq!(r, Err(ConfigError::InvalidEventsPerPage));

    let r = Config::from_vars(
        None,
        Some("C".to_string()),
        None,
        None,
        None,
        None,
        Some("4294967296".to_string()),
    );
    assert_eq!(r, Err(ConfigError::InvalidStartLedger));
}

#[test]
fn config_parses_given_values() {
    let c = Config::from_vars(
        Some("http://localhost:8000".to_string()),
        Some("CID".to_string()),
        Some("sqlite:/tmp/x.db".to_string()),
        Some("8080".to_string()),
        Some("2".to_string()),
        Some("250".to_string()),
        Some("12345".to_string()),
    )
    .unwrap();
    assert_eq!(c.rpc_url, "http://localhost:8000");
    assert_eq!(c.api_port, 8080);
    assert_eq!(c.poll_interval_secs, 2);
    assert_eq!(c.events_per_page, 250);
    assert_eq!(c.start_ledger, 12345);
}

#[test]
fn fetch_step_backoff_policy() {
    assert_eq!(
        pifp::rpc::fetch_step(FetchOutcome::NetworkError, 2),
        FetchStep::Retry { delay: 2, next_backoff: 4 }
    );
    assert_eq!(
        pifp::rpc::fetch_step(FetchOutcome::RateLimited, 32),
        FetchStep::Retry { delay: 32, next_backoff: 60 }
    );
    assert_eq!(
        pifp::rpc::fetch_step(FetchOutcome::NetworkError, 60),
        FetchStep::Retry { delay: 60, next_backoff: 60 }
    );
    assert_eq!(
        pifp::rpc::fetch_step(FetchOutcome::RpcFault { code: -32600 }, 2),
        FetchStep::GiveUp
    );
    assert_eq!(
        pifp::rpc::fetch_step(FetchOutcome::RpcFault { code: -32601 }, 2),
        FetchStep::GiveUp
    );
    assert_eq!(
        pifp::rpc::fetch_step(FetchOutcome::RpcFault { code: -32000 }, 4),
        FetchStep::Retry { delay: 4, next_backoff: 8 }
    );
    assert_eq!(
        pifp::rpc::fetch_step(FetchOutcome::EmptyResult, 2),
        FetchStep::GiveUp
    );
    assert_eq!(
        pifp::rpc::fetch_step(FetchOutcome::PageReceived, 2),
        FetchStep::Done
    );
}

#[test]
fn ledger_cursor_decisions() {
    assert_eq!(resume_ledger(0, 7), 7);
    assert_eq!(resume_ledger(-5, 7), 7);
    assert_eq!(resume_ledger(42, 7), 42);

    assert_eq!(next_start_ledger(None, 10), 10);
    assert_eq!(next_start_ledger(Some(5), 10), 10);
    assert_eq!(next_start_ledger(Some(99), 10), 99);
}

#[test]
fn response_shapes_count_events() {
    let r = EventsResponse::new("7".to_string(), vec![]);
    assert_eq!(r.count, 0);
    assert_eq!(r.project_id, "7");

    let r = AllEventsResponse::new(vec![]);
    assert_eq!(r.count, 0);

    let h = HealthResponse::new("0.1.0");
    assert_eq!(h.status, "ok");
    assert_eq!(h.version, "0.1.0");
}
