use playit::control::address_selector::{AddressSelector, Reply, SelectorAction, SelectorEvent};
use playit::control::maintained_control::{
    ControlConnectionState, FeedOutcome, MaintainedControl, PongAddresses, UpdateAction,
    UpdateEvent, UpdateProgress,
};
use playit::control::{same_addresses, SocketAddress};

fn v4(ip: u128, port: u16) -> SocketAddress {
    SocketAddress { is_ipv6: false, ip, port, flow_info: 0, scope_id: 0 }
}

fn v6(ip: u128) -> SocketAddress {
    SocketAddress { is_ipv6: true, ip, port: 5525, flow_info: 0, scope_id: 0 }
}

fn test_control() -> MaintainedControl {
    MaintainedControl::setup(Vec::new(), 1_000_000)
}

#[test]
fn three_control_failures_request_a_hard_reconnect() {
    let mut control = test_control();

    assert_eq!(control.note_control_failure(), 1);
    assert!(!control.take_hard_reconnect_request());
    assert_eq!(control.note_control_failure(), 2);
    assert!(!control.take_hard_reconnect_request());
    assert_eq!(control.note_control_failure(), 3);
    assert!(control.take_hard_reconnect_request());
    assert!(!control.take_hard_reconnect_request());
}

#[test]
fn expired_sessions_are_authenticated_first() {
    let mut control = test_control();
    let mut progress = UpdateProgress::begin();
    let step = control.update(&mut progress, UpdateEvent::Begin { expired: true });
    assert_eq!(step.action, UpdateAction::Authenticate);
    assert_eq!(control.control_state, ControlConnectionState::Reconnecting);
    let step =
        control.update(&mut progress, UpdateEvent::Authenticated { ok: false, now: 1_000_100 });
    assert_eq!(step.action, UpdateAction::BackOff);
    assert_eq!(control.soft_reconnect_failures, 1);
    let step =
        control.update(&mut progress, UpdateEvent::Authenticated { ok: true, now: 1_000_200 });
    assert_eq!(step.action, UpdateAction::ReadTime);
    assert_eq!(control.soft_reconnect_failures, 0);
    assert_eq!(control.last_pong, 1_000_200);
    assert_eq!(control.control_state, ControlConnectionState::Connected);
}

#[test]
fn pings_and_keep_alives_are_sent_when_due() {
    let mut control = test_control();
    let mut progress = UpdateProgress::begin();
    let now = 1_000_500;
    assert_eq!(
        control.update(&mut progress, UpdateEvent::Begin { expired: false }).action,
        UpdateAction::ReadTime
    );
    assert_eq!(
        control.update(&mut progress, UpdateEvent::Time { now }).action,
        UpdateAction::SendPing { now }
    );
    assert_eq!(
        control.update(&mut progress, UpdateEvent::PingSent { ok: true }).action,
        UpdateAction::ReadExpiry
    );
    assert_eq!(
        control.update(&mut progress, UpdateEvent::ExpiresAt { at: now + 60_000 }).action,
        UpdateAction::SendKeepAlive
    );
    assert_eq!(control.last_keep_alive, now);
    let failed = control.update(&mut progress, UpdateEvent::KeepAliveSent { ok: false });
    assert!(failed.expire);
    assert_eq!(failed.action, UpdateAction::Receive);
    assert_eq!(control.soft_reconnect_failures, 1);

    let mut progress = UpdateProgress::begin();
    assert_eq!(
        control.update(&mut progress, UpdateEvent::Time { now: now + 1_000 }).action,
        UpdateAction::ReadExpiry
    );
    let mut progress = UpdateProgress::begin();
    assert_eq!(
        control.update(&mut progress, UpdateEvent::Time { now: now + 10_001 }).action,
        UpdateAction::SendPing { now: now + 10_001 }
    );
    assert_eq!(
        control.update(&mut progress, UpdateEvent::ExpiresAt { at: now + 60_000 }).action,
        UpdateAction::Receive
    );
    assert_eq!(
        control.update(&mut progress, UpdateEvent::ExpiresAt { at: now + 20_000 }).action,
        UpdateAction::SendKeepAlive
    );
}

#[test]
fn updates_wait_for_a_bounded_number_of_messages() {
    let mut control = test_control();
    let mut progress = UpdateProgress::begin();
    let mut waits = 0;
    loop {
        waits += 1;
        let step =
            control.update(&mut progress, UpdateEvent::Received(FeedOutcome::OtherResponse));
        if step.action == UpdateAction::ReadEnd {
            break;
        }
        assert_eq!(step.action, UpdateAction::Receive);
    }
    assert_eq!(waits, 30);
    let mut progress = UpdateProgress::begin();
    let mut timeouts = 0;
    loop {
        timeouts += 1;
        let step = control.update(&mut progress, UpdateEvent::Received(FeedOutcome::TimedOut));
        if step.action == UpdateAction::ReadEnd {
            break;
        }
    }
    assert_eq!(timeouts, 10);
    let mut progress = UpdateProgress::begin();
    for outcome in [FeedOutcome::NewClient, FeedOutcome::UdpChannelDetails] {
        let step = control.update(&mut progress, UpdateEvent::Received(outcome));
        assert_eq!(step.action, UpdateAction::Deliver);
    }
    let step = control.update(&mut progress, UpdateEvent::Received(FeedOutcome::Unauthorized));
    assert!(step.expire);
    assert_eq!(control.control_state, ControlConnectionState::Reconnecting);
}

#[test]
fn silence_counts_as_one_failure() {
    let mut control = test_control();
    let mut progress = UpdateProgress::begin();
    let step = control.update(&mut progress, UpdateEvent::Ended { now: 1_006_000 });
    assert!(!step.expire);
    let _ = control.update(
        &mut progress,
        UpdateEvent::Received(FeedOutcome::Pong { now: 1_001_000 }),
    );
    let step = control.update(&mut progress, UpdateEvent::Ended { now: 1_007_000 });
    assert!(!step.expire);
    let step = control.update(&mut progress, UpdateEvent::Ended { now: 1_007_001 });
    assert!(step.expire);
    assert_eq!(control.soft_reconnect_failures, 1);
    assert_eq!(control.last_pong, 0);
    let step = control.update(&mut progress, UpdateEvent::Ended { now: 1_020_000 });
    assert!(!step.expire);
}

#[test]
fn udp_sessions_are_authenticated_now_and_again() {
    let mut control = test_control();
    assert!(control.send_udp_session_auth(1_000_000, 5_000));
    assert!(!control.send_udp_session_auth(1_004_999, 5_000));
    assert!(control.send_udp_session_auth(1_005_000, 5_000));
    assert!(!control.udp_session_auth_sent(true));
    assert!(control.udp_session_auth_sent(false));
    assert_eq!(control.soft_reconnect_failures, 1);
}

#[test]
fn endpoints_are_changed_only_for_new_ones() {
    let mut control = MaintainedControl::setup(vec![v4(1, 1)], 0);
    control.reload_control_addr(false);
    assert!(!control.reload_found(&vec![v4(1, 1)], false));
    assert_eq!(control.control_state, ControlConnectionState::Connected);
    assert!(control.reload_found(&vec![v4(2, 1)], false));
    assert_eq!(control.control_state, ControlConnectionState::Reconnecting);
    control.reload_done(vec![v4(2, 1)], 50);
    assert_eq!(control.control_state, ControlConnectionState::Connected);
    assert_eq!(control.last_control_targets, vec![v4(2, 1)]);
    assert!(control.reload_found(&vec![v4(2, 1)], true));

    let current = PongAddresses { client: v4(1, 1), tunnel: v4(9, 9) };
    let moved = PongAddresses { client: v4(1, 2), tunnel: v4(9, 9) };
    let other = PongAddresses { client: v4(2, 1), tunnel: v4(9, 9) };
    assert!(!control.replace_connection(&current, &moved, false));
    assert!(control.replace_connection(&current, &other, false));
    assert!(control.replace_connection(&current, &moved, true));
    control.note_control_failure();
    control.connection_replaced(77);
    assert_eq!(control.soft_reconnect_failures, 0);
    assert_eq!(control.last_pong, 77);
    control.reload_control_addr(true);
    assert_eq!(control.control_state, ControlConnectionState::Reconnecting);
}

#[test]
fn address_lists_are_compared_in_order() {
    assert!(same_addresses(&vec![v4(1, 1), v6(2)], &vec![v4(1, 1), v6(2)]));
    assert!(!same_addresses(&vec![v6(2), v4(1, 1)], &vec![v4(1, 1), v6(2)]));
    assert!(!same_addresses(&vec![v4(1, 1)], &vec![]));
    assert!(v4(1, 1).same_ip(&v4(1, 2)));
    assert!(!v4(1, 1).same_ip(&v6(1)));
}

#[test]
fn the_first_endpoint_that_answers_is_taken() {
    let mut selector = AddressSelector::new(vec![v6(1), v4(2, 5525)]);
    assert_eq!(selector.connect_to_first(), SelectorAction::Ping(v6(1)));
    assert_eq!(
        selector.step(SelectorEvent::PingSent { sent: false }),
        SelectorAction::Ping(v4(2, 5525))
    );
    assert_eq!(
        selector.step(SelectorEvent::PingSent { sent: true }),
        SelectorAction::Receive(v4(2, 5525))
    );
    let pong = |peer, request_id| SelectorEvent::Received(Reply::Pong { peer, request_id });
    assert_eq!(selector.step(pong(v4(3, 1), 1)), SelectorAction::Receive(v4(2, 5525)));
    assert_eq!(selector.step(pong(v4(2, 5525), 2)), SelectorAction::Receive(v4(2, 5525)));
    assert_eq!(selector.step(pong(v4(2, 5525), 1)), SelectorAction::Connected(v4(2, 5525)));
}

#[test]
fn silent_endpoints_are_asked_a_few_times() {
    for (address, pings, waits) in [(v6(1), 1, 3), (v4(1, 1), 3, 15)] {
        let mut selector = AddressSelector::new(vec![address]);
        let mut action = selector.connect_to_first();
        let (mut pinged, mut waited) = (0, 0);
        loop {
            action = match action {
                SelectorAction::Ping(_) => {
                    pinged += 1;
                    selector.step(SelectorEvent::PingSent { sent: true })
                }
                SelectorAction::Receive(_) => {
                    waited += 1;
                    selector.step(SelectorEvent::Received(Reply::TimedOut))
                }
                SelectorAction::Unavailable => break,
                SelectorAction::Connected(_) => panic!("nobody answered"),
            };
        }
        assert_eq!((pinged, waited), (pings, waits));
    }
    assert_eq!(AddressSelector::new(vec![]).connect_to_first(), SelectorAction::Unavailable);
}
