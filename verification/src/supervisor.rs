//! The per-server session supervisor and the credential watchdog. The
//! supervisor owns the restart policy: on any connection termination, clean
//! or not, it waits a fixed backoff and starts one fresh connection,
//! without bound. The loops that perform the waiting and connecting live
//! outside the library; here are the decisions they follow.

use vstd::prelude::*;
use vstd::string::StringExecFns;

verus! {

/// How long the supervisor waits before each reconnect attempt.
pub const RECONNECT_BACKOFF_MS: u64 = 5_000;

/// How often the credential watchdog re-validates the stored token.
pub const TOKEN_CHECK_INTERVAL_MS: u64 = 21_600_000;

/// One configured server: where to connect, with which credential, and the
/// name notifications carry.
pub struct ServerConfig {
    pub base_url: String,
    pub token: String,
    pub servername: String,
}

/// The model of a `ServerConfig`.
#[verifier::ext_equal]
pub struct ServerConfigV {
    pub base_url: Seq<char>,
    pub token: Seq<char>,
    pub servername: Seq<char>,
}

impl DeepView for ServerConfig {
    type V = ServerConfigV;

    open spec fn deep_view(&self) -> ServerConfigV {
        ServerConfigV {
            base_url: self.base_url@,
            token: self.token@,
            servername: self.servername@,
        }
    }
}

/// Where a server's session stands.
#[derive(Clone, Copy, Debug, PartialEq, Eq, Structural)]
pub enum SessionPhase {
    /// a connection attempt is under way
    Connecting,
    /// the connection is up and frames flow
    Running,
    /// the connection ended; the backoff sleep is running
    Backoff,
}

/// What the outside loop reports to the supervisor.
#[derive(Clone, Copy, Debug, PartialEq, Eq, Structural)]
pub enum SupervisorEvent {
    /// the transport reports the connection open
    ConnectionOpened,
    /// the connection terminated, cleanly or not
    ConnectionEnded,
    /// the backoff sleep ran out
    BackoffElapsed,
}

/// What the supervisor asks the outside loop to do.
#[derive(Clone, Copy, Debug, PartialEq, Eq, Structural)]
pub enum SupervisorAction {
    /// send the authentication challenge as the first outbound message
    SendAuthChallenge,
    /// sleep for the fixed backoff
    Sleep { delay_ms: u64 },
    /// open one fresh connection, with fresh session state
    StartConnection,
}

/// One supervisor transition: a termination always leads to one backoff
/// sleep, an elapsed backoff always to exactly one new connection attempt,
/// and a fresh connection opens with the authentication challenge.
pub open spec fn spec_supervisor_step(ph: SessionPhase, ev: SupervisorEvent) -> (
    SessionPhase,
    Seq<SupervisorAction>,
) {
    match (ph, ev) {
        (SessionPhase::Connecting, SupervisorEvent::ConnectionOpened) => (
            SessionPhase::Running,
            seq![SupervisorAction::SendAuthChallenge],
        ),
        (SessionPhase::Connecting, SupervisorEvent::ConnectionEnded) => (
            SessionPhase::Backoff,
            seq![SupervisorAction::Sleep { delay_ms: RECONNECT_BACKOFF_MS }],
        ),
        (SessionPhase::Running, SupervisorEvent::ConnectionEnded) => (
            SessionPhase::Backoff,
            seq![SupervisorAction::Sleep { delay_ms: RECONNECT_BACKOFF_MS }],
        ),
        (SessionPhase::Backoff, SupervisorEvent::BackoffElapsed) => (
            SessionPhase::Connecting,
            seq![SupervisorAction::StartConnection],
        ),
        _ => (ph, Seq::empty()),
    }
}

/// The session supervisor's state.
pub struct SessionSupervisor {
    pub phase: SessionPhase,
}

impl SessionSupervisor {
    /// A supervisor about to make its first connection attempt.
    pub fn new() -> (r: SessionSupervisor)
        ensures
            r.phase == SessionPhase::Connecting,
    {
        SessionSupervisor { phase: SessionPhase::Connecting }
    }

    /// Feed one event; the returned actions are to be performed in order.
    pub fn on_event(&mut self, ev: SupervisorEvent) -> (acts: Vec<SupervisorAction>)
        ensures
            final(self).phase == spec_supervisor_step(old(self).phase, ev).0,
            acts@ == spec_supervisor_step(old(self).phase, ev).1,
    {
        let mut acts: Vec<SupervisorAction> = Vec::new();
        match (self.phase, ev) {
            (SessionPhase::Connecting, SupervisorEvent::ConnectionOpened) => {
                self.phase = SessionPhase::Running;
                acts.push(SupervisorAction::SendAuthChallenge);
            },
            (SessionPhase::Connecting, SupervisorEvent::ConnectionEnded) => {
                self.phase = SessionPhase::Backoff;
                acts.push(SupervisorAction::Sleep { delay_ms: RECONNECT_BACKOFF_MS });
            },
            (SessionPhase::Running, SupervisorEvent::ConnectionEnded) => {
                self.phase = SessionPhase::Backoff;
                acts.push(SupervisorAction::Sleep { delay_ms: RECONNECT_BACKOFF_MS });
            },
            (SessionPhase::Backoff, SupervisorEvent::BackoffElapsed) => {
                self.phase = SessionPhase::Connecting;
                acts.push(SupervisorAction::StartConnection);
            },
            _ => {},
        }
        proof {
            assert(acts@ =~= spec_supervisor_step(old(self).phase, ev).1);
        }
        acts
    }
}

/// The phase and accumulated actions over a whole run of events.
pub open spec fn spec_supervisor_run(ph: SessionPhase, evs: Seq<SupervisorEvent>) -> (
    SessionPhase,
    Seq<SupervisorAction>,
)
    decreases evs.len(),
{
    if evs.len() == 0 {
        (ph, Seq::empty())
    } else {
        let prior = spec_supervisor_run(ph, evs.drop_last());
        let last = spec_supervisor_step(prior.0, evs.last());
        (last.0, prior.1 + last.1)
    }
}

/// `n` copies of `s`, one after another.
pub open spec fn spec_repeat<T>(s: Seq<T>, n: nat) -> Seq<T>
    decreases n,
{
    if n == 0 {
        Seq::empty()
    } else {
        spec_repeat(s, (n - 1) as nat) + s
    }
}

/// What one simulated transport failure looks like to the supervisor.
pub open spec fn spec_failure_cycle() -> Seq<SupervisorEvent> {
    seq![
        SupervisorEvent::ConnectionEnded,
        SupervisorEvent::BackoffElapsed,
        SupervisorEvent::ConnectionOpened,
    ]
}

/// The actions one failure cycle earns: one backoff sleep, then exactly one
/// new connection attempt, then the fresh connection's challenge.
pub open spec fn spec_failure_actions() -> Seq<SupervisorAction> {
    seq![
        SupervisorAction::Sleep { delay_ms: RECONNECT_BACKOFF_MS },
        SupervisorAction::StartConnection,
        SupervisorAction::SendAuthChallenge,
    ]
}

proof fn lemma_supervisor_run_append(
    ph: SessionPhase,
    a: Seq<SupervisorEvent>,
    b: Seq<SupervisorEvent>,
)
    ensures
        spec_supervisor_run(ph, a + b).0 == spec_supervisor_run(
            spec_supervisor_run(ph, a).0,
            b,
        ).0,
        spec_supervisor_run(ph, a + b).1 == spec_supervisor_run(ph, a).1 + spec_supervisor_run(
            spec_supervisor_run(ph, a).0,
            b,
        ).1,
    decreases b.len(),
{
    if b.len() == 0 {
        assert(a + b =~= a);
        assert(spec_supervisor_run(ph, a).1 + Seq::<SupervisorAction>::empty()
            =~= spec_supervisor_run(ph, a).1);
    } else {
        lemma_supervisor_run_append(ph, a, b.drop_last());
        assert((a + b).drop_last() =~= a + b.drop_last());
        assert((a + b).last() == b.last());
        let mid = spec_supervisor_run(ph, a);
        let prior = spec_supervisor_run(mid.0, b.drop_last());
        let last = spec_supervisor_step(prior.0, b.last());
        assert(mid.1 + (prior.1 + last.1) =~= (mid.1 + prior.1) + last.1);
    }
}

/// One failure cycle from the running phase: the fixed backoff, exactly one
/// new connection attempt, and the challenge, ending running again.
proof fn lemma_one_failure_cycle()
    ensures
        spec_supervisor_run(SessionPhase::Running, spec_failure_cycle()).0
            == SessionPhase::Running,
        spec_supervisor_run(SessionPhase::Running, spec_failure_cycle()).1
            == spec_failure_actions(),
{
    let evs = spec_failure_cycle();
    let e1 = seq![SupervisorEvent::ConnectionEnded];
    let e2 = seq![SupervisorEvent::ConnectionEnded, SupervisorEvent::BackoffElapsed];
    assert(e1.drop_last() =~= Seq::<SupervisorEvent>::empty());
    assert(spec_supervisor_run(SessionPhase::Running, Seq::empty()) == (
        SessionPhase::Running,
        Seq::<SupervisorAction>::empty(),
    ));
    assert(spec_supervisor_run(SessionPhase::Running, e1).0 == SessionPhase::Backoff);
    assert(spec_supervisor_run(SessionPhase::Running, e1).1 =~= seq![
        SupervisorAction::Sleep { delay_ms: RECONNECT_BACKOFF_MS },
    ]);
    assert(e2.drop_last() =~= e1);
    assert(e2.last() == SupervisorEvent::BackoffElapsed);
    assert(spec_supervisor_run(SessionPhase::Running, e2).0 == SessionPhase::Connecting);
    assert(spec_supervisor_run(SessionPhase::Running, e2).1 =~= seq![
        SupervisorAction::Sleep { delay_ms: RECONNECT_BACKOFF_MS },
        SupervisorAction::StartConnection,
    ]);
    assert(evs.drop_last() =~= e2);
    assert(evs.last() == SupervisorEvent::ConnectionOpened);
    assert(spec_supervisor_run(SessionPhase::Running, evs).0 == SessionPhase::Running);
    assert(spec_supervisor_run(SessionPhase::Running, evs).1 =~= spec_failure_actions());
}

/// A simulated transport failure is followed, after the fixed backoff, by
/// exactly one new connection attempt - and this repeats without bound:
/// across any number of consecutive failures, each cycle earns exactly one
/// backoff sleep and one reconnect, and the supervisor is running again.
pub proof fn lemma_restart_unbounded(n: nat)
    ensures
        spec_supervisor_run(SessionPhase::Running, spec_repeat(spec_failure_cycle(), n)).0
            == SessionPhase::Running,
        spec_supervisor_run(SessionPhase::Running, spec_repeat(spec_failure_cycle(), n)).1
            == spec_repeat(spec_failure_actions(), n),
    decreases n,
{
    if n == 0 {
        assert(spec_repeat(spec_failure_cycle(), 0) =~= Seq::<SupervisorEvent>::empty());
        assert(spec_repeat(spec_failure_actions(), 0) =~= Seq::<SupervisorAction>::empty());
    } else {
        lemma_restart_unbounded((n - 1) as nat);
        lemma_supervisor_run_append(
            SessionPhase::Running,
            spec_repeat(spec_failure_cycle(), (n - 1) as nat),
            spec_failure_cycle(),
        );
        lemma_one_failure_cycle();
    }
}

/// The exact authentication frame sent first on every fresh connection.
pub open spec fn spec_auth_challenge(token: Seq<char>) -> Seq<char> {
    "{\"seq\":1,\"action\":\"authentication_challenge\",\"data\":{\"token\":\""@ + token
        + "\"}}"@
}

/// Build the authentication challenge frame for a credential.
pub fn auth_challenge_frame(token: &str) -> (r: String)
    ensures
        r@ == spec_auth_challenge(token@),
{
    let mut r = String::new();
    r.append("{\"seq\":1,\"action\":\"authentication_challenge\",\"data\":{\"token\":\"");
    r.append(token);
    r.append("\"}}");
    proof {
        assert(r@ =~= spec_auth_challenge(token@));
    }
    r
}

/// The alert text raised when a server's stored credential stops checking
/// out.
pub open spec fn spec_token_alert_text(servername: Seq<char>) -> Seq<char> {
    "Token for "@ + servername + " expired!"@
}

/// One round of the credential watchdog: an alert exactly when the check
/// did not confirm the token valid. A transient check failure raises the
/// same alert as a genuinely expired token; the watchdog never tells the
/// two apart.
pub fn watchdog_alert(token_confirmed_valid: bool, servername: &str) -> (r: Option<String>)
    ensures
        token_confirmed_valid ==> r is None,
        !token_confirmed_valid ==> (match r {
            Some(s) => s@ == spec_token_alert_text(servername@),
            None => false,
        }),
{
    if token_confirmed_valid {
        None
    } else {
        let mut msg = String::new();
        msg.append("Token for ");
        msg.append(servername);
        msg.append(" expired!");
        proof {
            assert(msg@ =~= spec_token_alert_text(servername@));
        }
        Some(msg)
    }
}

} // verus!
