//! The connection-level keepalive state machine: a periodic liveness probe
//! and an idle-expiry watchdog, with at most one idle-expiry timer
//! outstanding at any time. The machine only decides; the transport
//! performs the commands and reports its observations back.

use vstd::prelude::*;

verus! {

/// How often a liveness probe is sent while the connection is open.
pub const KEEPALIVE_INTERVAL_MS: u64 = 10_000;

/// How long the connection may go without a liveness acknowledgement.
pub const IDLE_EXPIRY_MS: u64 = 60_000;

/// The transport's token for the keepalive timer.
pub const TOKEN_PING: u64 = 1;

/// The transport's token for the idle-expiry timer.
pub const TOKEN_EXPIRE: u64 = 2;

/// The two timers the machine drives.
#[derive(Clone, Copy, Debug, PartialEq, Eq, Structural)]
pub enum TimerKind {
    Keepalive,
    IdleExpiry,
}

/// Why the machine closes the connection.
#[derive(Clone, Copy, Debug, PartialEq, Eq, Structural)]
pub enum CloseReason {
    /// the idle deadline passed: a normal, going-away closure
    Away,
    /// a frame broke the protocol (reserved bits set): abort
    Protocol,
}

/// A command for the transport.
#[derive(Clone, Copy, Debug, PartialEq, Eq, Structural)]
pub enum TransportCmd {
    ArmTimer { kind: TimerKind, delay_ms: u64 },
    CancelTimer { timer: u64 },
    SendProbe,
    Close { reason: CloseReason },
}

/// An observation the transport reports.
#[derive(Clone, Copy, Debug, PartialEq, Eq, Structural)]
pub enum TransportEvent {
    /// the connection finished its handshake
    Opened,
    /// an armed timer fired
    TimerFired { kind: TimerKind },
    /// the transport allocated a requested timer and handed back its handle
    TimerIssued { kind: TimerKind, timer: u64 },
    /// a pong frame matching this session's probe payload arrived
    ProbeAck,
    /// any other well-formed frame arrived
    OtherFrame,
    /// a frame with a transport-reserved bit set arrived
    ReservedBitsFrame,
}

/// What one observation does to the machine: the new idle-timer handle and
/// the commands to perform, in order.
pub open spec fn spec_keepalive_step(st: Option<u64>, ev: TransportEvent) -> (
    Option<u64>,
    Seq<TransportCmd>,
) {
    match ev {
        TransportEvent::Opened => (
            st,
            seq![
                TransportCmd::ArmTimer {
                    kind: TimerKind::Keepalive,
                    delay_ms: KEEPALIVE_INTERVAL_MS,
                },
                TransportCmd::ArmTimer { kind: TimerKind::IdleExpiry, delay_ms: IDLE_EXPIRY_MS },
            ],
        ),
        TransportEvent::TimerFired { kind } => match kind {
            TimerKind::Keepalive => (
                st,
                seq![
                    TransportCmd::SendProbe,
                    TransportCmd::ArmTimer {
                        kind: TimerKind::Keepalive,
                        delay_ms: KEEPALIVE_INTERVAL_MS,
                    },
                ],
            ),
            TimerKind::IdleExpiry => (
                st,
                seq![TransportCmd::Close { reason: CloseReason::Away }],
            ),
        },
        TransportEvent::TimerIssued { kind, timer } => match kind {
            TimerKind::IdleExpiry => (
                Some(timer),
                match st {
                    Some(old_timer) => seq![TransportCmd::CancelTimer { timer: old_timer }],
                    None => Seq::empty(),
                },
            ),
            TimerKind::Keepalive => (st, Seq::empty()),
        },
        TransportEvent::ProbeAck => (
            st,
            seq![TransportCmd::ArmTimer { kind: TimerKind::IdleExpiry, delay_ms: IDLE_EXPIRY_MS }],
        ),
        TransportEvent::OtherFrame => (st, Seq::empty()),
        TransportEvent::ReservedBitsFrame => (
            st,
            seq![TransportCmd::Close { reason: CloseReason::Protocol }],
        ),
    }
}

/// The keepalive machine: it holds the handle of the one outstanding
/// idle-expiry timer, if any.
pub struct KeepaliveSupervisor {
    pub idle_timer: Option<u64>,
}

impl KeepaliveSupervisor {
    /// A machine for a fresh connection: no timer outstanding yet.
    pub fn new() -> (r: KeepaliveSupervisor)
        ensures
            r.idle_timer is None,
    {
        KeepaliveSupervisor { idle_timer: None }
    }

    /// Feed one transport observation; the returned commands are to be
    /// performed in order.
    pub fn on_event(&mut self, ev: TransportEvent) -> (cmds: Vec<TransportCmd>)
        ensures
            final(self).idle_timer == spec_keepalive_step(old(self).idle_timer, ev).0,
            cmds@ == spec_keepalive_step(old(self).idle_timer, ev).1,
    {
        let mut cmds: Vec<TransportCmd> = Vec::new();
        match ev {
            TransportEvent::Opened => {
                cmds.push(
                    TransportCmd::ArmTimer {
                        kind: TimerKind::Keepalive,
                        delay_ms: KEEPALIVE_INTERVAL_MS,
                    },
                );
                cmds.push(
                    TransportCmd::ArmTimer {
                        kind: TimerKind::IdleExpiry,
                        delay_ms: IDLE_EXPIRY_MS,
                    },
                );
            },
            TransportEvent::TimerFired { kind } => {
                match kind {
                    TimerKind::Keepalive => {
                        cmds.push(TransportCmd::SendProbe);
                        cmds.push(
                            TransportCmd::ArmTimer {
                                kind: TimerKind::Keepalive,
                                delay_ms: KEEPALIVE_INTERVAL_MS,
                            },
                        );
                    },
                    TimerKind::IdleExpiry => {
                        cmds.push(TransportCmd::Close { reason: CloseReason::Away });
                    },
                }
            },
            TransportEvent::TimerIssued { kind, timer } => {
                match kind {
                    TimerKind::IdleExpiry => {
                        match self.idle_timer {
                            Some(old_timer) => {
                                cmds.push(TransportCmd::CancelTimer { timer: old_timer });
                            },
                            None => {},
                        }
                        self.idle_timer = Some(timer);
                    },
                    TimerKind::Keepalive => {},
                }
            },
            TransportEvent::ProbeAck => {
                cmds.push(
                    TransportCmd::ArmTimer {
                        kind: TimerKind::IdleExpiry,
                        delay_ms: IDLE_EXPIRY_MS,
                    },
                );
            },
            TransportEvent::OtherFrame => {},
            TransportEvent::ReservedBitsFrame => {
                cmds.push(TransportCmd::Close { reason: CloseReason::Protocol });
            },
        }
        proof {
            assert(cmds@ =~= spec_keepalive_step(old(self).idle_timer, ev).1);
        }
        cmds
    }
}

/// A newly issued idle-expiry timer replaces exactly the previously armed
/// one: the old handle (and nothing else) is cancelled, and the new handle
/// becomes the one outstanding timer.
pub proof fn lemma_idle_timer_replaced(st: Option<u64>, t: u64)
    ensures
        spec_keepalive_step(st, TransportEvent::TimerIssued { kind: TimerKind::IdleExpiry, timer: t }).0
            == Some(t),
        st matches Some(old_timer) ==> spec_keepalive_step(
            st,
            TransportEvent::TimerIssued { kind: TimerKind::IdleExpiry, timer: t },
        ).1 == seq![TransportCmd::CancelTimer { timer: old_timer }],
        st is None ==> spec_keepalive_step(
            st,
            TransportEvent::TimerIssued { kind: TimerKind::IdleExpiry, timer: t },
        ).1 == Seq::<TransportCmd>::empty(),
{
}

/// A liveness acknowledgement always re-arms the idle-expiry watchdog.
pub proof fn lemma_ack_rearms(st: Option<u64>)
    ensures
        spec_keepalive_step(st, TransportEvent::ProbeAck).1 == seq![
            TransportCmd::ArmTimer { kind: TimerKind::IdleExpiry, delay_ms: IDLE_EXPIRY_MS },
        ],
{
}

/// A frame with reserved bits set aborts the connection with a protocol
/// closure.
pub proof fn lemma_reserved_bits_abort(st: Option<u64>)
    ensures
        spec_keepalive_step(st, TransportEvent::ReservedBitsFrame).1 == seq![
            TransportCmd::Close { reason: CloseReason::Protocol },
        ],
{
}

/// The machine's state and accumulated commands over a whole run of
/// observations.
pub open spec fn spec_keepalive_run(st: Option<u64>, evs: Seq<TransportEvent>) -> (
    Option<u64>,
    Seq<TransportCmd>,
)
    decreases evs.len(),
{
    if evs.len() == 0 {
        (st, Seq::empty())
    } else {
        let prior = spec_keepalive_run(st, evs.drop_last());
        let last = spec_keepalive_step(prior.0, evs.last());
        (last.0, prior.1 + last.1)
    }
}

/// If no liveness acknowledgement ever arrives, the connection actively
/// closes at the idle-expiry deadline: any run whose final observation is
/// the idle timer firing ends by commanding the going-away closure.
pub proof fn lemma_idle_expiry_closes(st: Option<u64>, evs: Seq<TransportEvent>)
    requires
        evs.len() > 0,
        evs.last() == (TransportEvent::TimerFired { kind: TimerKind::IdleExpiry }),
    ensures
        spec_keepalive_run(st, evs).1.len() > 0,
        spec_keepalive_run(st, evs).1.last() == (TransportCmd::Close {
            reason: CloseReason::Away,
        }),
{
    let prior = spec_keepalive_run(st, evs.drop_last());
    let last = spec_keepalive_step(prior.0, evs.last());
    assert(last.1 == seq![TransportCmd::Close { reason: CloseReason::Away }]);
    assert((prior.1 + last.1).last() == last.1.last());
}

} // verus!
