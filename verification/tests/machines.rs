//! State-machine tests: keepalive timers, restart supervision, and the
//! credential watchdog.

use mattermost_structs::keepalive::{
    CloseReason, KeepaliveSupervisor, TimerKind, TransportCmd, TransportEvent,
    IDLE_EXPIRY_MS, KEEPALIVE_INTERVAL_MS,
};
use mattermost_structs::api::UserRole;
use mattermost_structs::supervisor::{
    auth_challenge_frame, watchdog_alert, SessionPhase, SessionSupervisor, SupervisorAction,
    SupervisorEvent, RECONNECT_BACKOFF_MS,
};

#[test]
fn open_arms_both_timers() {
    let mut ka = KeepaliveSupervisor::new();
    let cmds = ka.on_event(TransportEvent::Opened);
    assert_eq!(
        cmds,
        vec![
            TransportCmd::ArmTimer {
                kind: TimerKind::Keepalive,
                delay_ms: KEEPALIVE_INTERVAL_MS,
            },
            TransportCmd::ArmTimer { kind: TimerKind::IdleExpiry, delay_ms: IDLE_EXPIRY_MS },
        ]
    );
}

#[test]
fn keepalive_tick_probes_and_rearms() {
    let mut ka = KeepaliveSupervisor::new();
    let cmds = ka.on_event(TransportEvent::TimerFired { kind: TimerKind::Keepalive });
    assert_eq!(
        cmds,
        vec![
            TransportCmd::SendProbe,
            TransportCmd::ArmTimer {
                kind: TimerKind::Keepalive,
                delay_ms: KEEPALIVE_INTERVAL_MS,
            },
        ]
    );
}

#[test]
fn ack_before_deadline_replaces_idle_timer() {
    let mut ka = KeepaliveSupervisor::new();
    ka.on_event(TransportEvent::Opened);
    // the transport issues the first idle timer: nothing to cancel yet
    let cmds = ka.on_event(TransportEvent::TimerIssued {
        kind: TimerKind::IdleExpiry,
        timer: 1,
    });
    assert_eq!(cmds, Vec::new());
    assert_eq!(ka.idle_timer, Some(1));
    // a liveness ack asks for a fresh idle timer
    let cmds = ka.on_event(TransportEvent::ProbeAck);
    assert_eq!(
        cmds,
        vec![TransportCmd::ArmTimer { kind: TimerKind::IdleExpiry, delay_ms: IDLE_EXPIRY_MS }]
    );
    // when it is issued, exactly the previous one is cancelled
    let cmds = ka.on_event(TransportEvent::TimerIssued {
        kind: TimerKind::IdleExpiry,
        timer: 2,
    });
    assert_eq!(cmds, vec![TransportCmd::CancelTimer { timer: 1 }]);
    assert_eq!(ka.idle_timer, Some(2));
}

#[test]
fn idle_expiry_closes_connection() {
    let mut ka = KeepaliveSupervisor::new();
    ka.on_event(TransportEvent::Opened);
    ka.on_event(TransportEvent::TimerIssued { kind: TimerKind::IdleExpiry, timer: 1 });
    // no ack ever arrives; the idle deadline fires
    let cmds = ka.on_event(TransportEvent::TimerFired { kind: TimerKind::IdleExpiry });
    assert_eq!(cmds, vec![TransportCmd::Close { reason: CloseReason::Away }]);
}

#[test]
fn reserved_bits_abort() {
    let mut ka = KeepaliveSupervisor::new();
    let cmds = ka.on_event(TransportEvent::ReservedBitsFrame);
    assert_eq!(cmds, vec![TransportCmd::Close { reason: CloseReason::Protocol }]);
}

#[test]
fn repeated_failures_each_earn_one_reconnect() {
    let mut sup = SessionSupervisor::new();
    assert_eq!(sup.phase, SessionPhase::Connecting);
    let acts = sup.on_event(SupervisorEvent::ConnectionOpened);
    assert_eq!(acts, vec![SupervisorAction::SendAuthChallenge]);
    for _ in 0..5 {
        let acts = sup.on_event(SupervisorEvent::ConnectionEnded);
        assert_eq!(
            acts,
            vec![SupervisorAction::Sleep { delay_ms: RECONNECT_BACKOFF_MS }]
        );
        assert_eq!(sup.phase, SessionPhase::Backoff);
        let acts = sup.on_event(SupervisorEvent::BackoffElapsed);
        assert_eq!(acts, vec![SupervisorAction::StartConnection]);
        assert_eq!(sup.phase, SessionPhase::Connecting);
        let acts = sup.on_event(SupervisorEvent::ConnectionOpened);
        assert_eq!(acts, vec![SupervisorAction::SendAuthChallenge]);
        assert_eq!(sup.phase, SessionPhase::Running);
    }
}

#[test]
fn stray_events_do_nothing() {
    let mut sup = SessionSupervisor::new();
    let acts = sup.on_event(SupervisorEvent::BackoffElapsed);
    assert_eq!(acts, Vec::new());
    assert_eq!(sup.phase, SessionPhase::Connecting);
}

#[test]
fn auth_challenge_has_exact_shape() {
    assert_eq!(
        auth_challenge_frame("SECRET-REDACTED"),
        "{\"seq\":1,\"action\":\"authentication_challenge\",\
         \"data\":{\"token\":\"SECRET-REDACTED\"}}"
    );
}

#[test]
fn watchdog_alerts_only_on_unconfirmed_token() {
    assert_eq!(watchdog_alert(true, "work"), None);
    assert_eq!(
        watchdog_alert(false, "work"),
        Some("Token for work expired!".to_string())
    );
}

#[test]
fn role_names_parse_with_exact_error() {
    assert_eq!(UserRole::from_str("system_user"), Ok(UserRole::SystemUser));
    assert_eq!(UserRole::from_str("channel_user"), Ok(UserRole::ChannelUser));
    assert_eq!(
        UserRole::from_str("admin"),
        Err("Unexpected value 'admin', expected one of 'system_user', 'system_admin'"
            .to_string())
    );
    assert_eq!(UserRole::SystemAdmin.wire_name(), "system_admin");
}
