use playit::api::{AccountStatus as ApiAccountStatus, PortType};
use playit::ids::uuid_text;
use playit::model::{AccountStatus, AgentLifecycle, AgentState, TunnelState};
use playit::state::{
    agent_state, uptime_secs, wants_login_link, GuestLoginCache, OriginTarget, PollNews, RunData,
    RunNotice, RunPending, RunTunnel, RunningSummary, StateCache, StatePolling,
};
use playit::text::{
    decimal_text, is_whitespace, parse_number, starts_with, trim, NumberError,
};

#[test]
fn running_summary_counts_tunnel_state() {
    let state = AgentState {
        account_status: AccountStatus::Verified,
        tunnels: vec![
            TunnelState { is_disabled: false, ..TunnelState::default() },
            TunnelState { is_disabled: true, ..TunnelState::default() },
        ],
        pending_tunnels: vec![Default::default()],
        ..AgentState::default()
    };

    let summary = RunningSummary::from_state(&state);
    assert_eq!(summary.tunnel_count, 2);
    assert_eq!(summary.pending_tunnel_count, 1);
    assert_eq!(summary.disabled_tunnel_count, 1);
    assert_eq!(summary.account_status, "verified");
}

#[test]
fn state_cache_exposes_one_subscription_snapshot() {
    let cache = StateCache::default();
    let snapshot = cache.subscription_snapshot();
    assert_eq!(snapshot.stats.bytes_in, 0);
    assert!(matches!(snapshot.lifecycle, AgentLifecycle::Starting));
}

fn tunnel(id: &str, target: Option<OriginTarget>) -> RunTunnel {
    RunTunnel {
        id: id.to_string(),
        name: format!("name of {id}"),
        display_address: format!("{id}.example"),
        port_type: PortType::Both,
        port_count: 2,
        disabled_reason: None,
        target,
    }
}

fn notice(rank: u32, message: &str) -> RunNotice {
    RunNotice {
        rank,
        priority: "High".to_string(),
        message: message.to_string(),
        resolve_link: None,
    }
}

fn run_data() -> RunData {
    RunData {
        agent_id: "agent".to_string(),
        account_status: ApiAccountStatus::Guest,
        tunnels: vec![
            tunnel("a", Some(OriginTarget::Port { ip: "127.0.0.1".to_string(), port: 25565 })),
            tunnel("b", None),
            tunnel(
                "c",
                Some(OriginTarget::Https {
                    ip: "10.0.0.1".to_string(),
                    http_port: 80,
                    https_port: 443,
                }),
            ),
        ],
        pending: vec![RunPending { id: "p".to_string(), status_msg: "soon".to_string() }],
        notices: vec![notice(3, "third"), notice(1, "first"), notice(3, "fourth")],
    }
}

#[test]
fn run_data_becomes_the_state_that_is_shown() {
    let state = agent_state(&run_data(), "1.2.3", Some("link".to_string()), 42);
    assert_eq!(state.agent_id, "agent");
    assert_eq!(state.version, "1.2.3");
    assert_eq!(state.start_time, 42);
    assert_eq!(state.login_link.as_deref(), Some("link"));
    assert_eq!(state.tunnels.len(), 2);
    assert_eq!(state.tunnels[0].id, "a");
    assert_eq!(state.tunnels[0].local_address.as_deref(), Some("127.0.0.1"));
    assert_eq!(state.tunnels[0].local_port, Some(25565));
    assert_eq!(state.tunnels[1].id, "c");
    assert_eq!(state.pending_tunnels[0].status_msg, "soon");
    let messages: Vec<&str> = state.notices.iter().map(|n| n.message.as_str()).collect();
    assert_eq!(messages, vec!["first", "third", "fourth"]);
}

#[test]
fn guests_get_a_login_link() {
    assert!(wants_login_link(&run_data()));
    let verified = RunData { account_status: ApiAccountStatus::Verified, ..run_data() };
    assert!(!wants_login_link(&verified));
    let state = agent_state(&verified, "1.2.3", Some("link".to_string()), 42);
    assert!(state.login_link.is_none());
}

#[test]
fn polls_tell_what_is_new() {
    let mut polling = StatePolling::new();
    let empty = AgentState::default();
    let state = agent_state(&run_data(), "v", None, 0);
    assert!(!polling.answered());
    assert!(matches!(polling.polled(&empty), PollNews::Loaded));
    assert!(matches!(polling.polled(&empty), PollNews::Unchanged));
    assert!(matches!(polling.polled(&state), PollNews::Updated));
    assert!(polling.failed());
    assert!(!polling.failed());
    assert!(polling.answered());
    assert!(!polling.answered());
}

#[test]
fn guest_logins_are_kept_for_fifteen_seconds() {
    let mut cache = GuestLoginCache::new();
    assert!(cache.lookup(0).is_none());
    let url = cache.store("key", 100);
    assert_eq!(url, "https://playit.gg/login/guest-account/key");
    assert_eq!(cache.lookup(15_099).as_deref(), Some(url.as_str()));
    assert!(cache.lookup(15_101).is_none());
    assert_eq!(uptime_secs(1_000, 4_999), 3);
    assert_eq!(uptime_secs(5_000, 1), 0);
}

#[test]
fn identifiers_are_written_as_usual() {
    for id in [0u128, 1, u128::MAX, 0x67e5504410b1426f9247bb680e5fe0c8] {
        assert_eq!(uuid_text(id), uuid::Uuid::from_u128(id).to_string());
    }
}

#[test]
fn whitespace_is_that_of_the_language() {
    for code in 0..=0x10_FFFFu32 {
        if let Some(c) = char::from_u32(code) {
            assert_eq!(is_whitespace(c), c.is_whitespace(), "{code:x}");
        }
    }
    for text in ["", " ", "  a b\t\n", "\u{2003}é\u{3000}", "x", "\u{85}\u{1680}"] {
        assert_eq!(trim(text), text.trim());
    }
    assert!(starts_with("abc", "ab"));
    assert!(!starts_with("a", "ab"));
}

#[test]
fn numbers_are_read_as_the_language_does() {
    for text in ["0", "1", "+7", "007", "4294967295", "4294967296", "", "+", "-1", "1x", " 1", "é"] {
        let own = parse_number(text, u32::MAX as u64);
        match text.parse::<u32>() {
            Ok(value) => assert_eq!(own.ok(), Some(value as u64), "{text}"),
            Err(_) => assert!(own.is_err(), "{text}"),
        }
    }
    assert!(matches!(parse_number("", 9), Err(NumberError::Empty)));
    assert!(matches!(parse_number("x", 9), Err(NumberError::InvalidDigit)));
    assert!(matches!(parse_number("10", 9), Err(NumberError::TooLarge)));
    for value in [0, 9, 10, 12345, u64::MAX] {
        assert_eq!(decimal_text(value), value.to_string());
        assert_eq!(parse_number(&decimal_text(value), u64::MAX).ok(), Some(value));
    }
}
