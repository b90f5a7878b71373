//! The relay session supervisor, one per endpoint, as a state machine.
//!
//! The supervisor's loop never decides anything on its own: it feeds each
//! outcome it observes into `session_step` and performs the action returned —
//! acquire a connection (dial, or accept the next client, by mode), sleep out
//! the retry interval, start the two pumps, force the connection shut, or
//! escalate a fatal failure. The machine loops forever: a torn-down session
//! leads back to acquiring, never to exit, and a failed dial is always
//! retried after a full interval.

use vstd::prelude::*;

use crate::error::spec_is_fatal;
use crate::error::TgcError;
use crate::pump::Framing;

verus! {

/// Seconds between consecutive dial attempts to an address that does not
/// answer.
pub const RETRY_INTERVAL_SECS: u64 = 5;

/// An endpoint's role. The role alone — not the process mode — decides the
/// wire representation: the local endpoint (the real client's side) is raw,
/// the remote endpoint (the other relay hop) is framed.
#[derive(Clone, Copy, Debug, PartialEq, Eq, Structural)]
pub enum Role {
    Local,
    Remote,
}

/// The wire representation an endpoint role uses.
pub open spec fn spec_framing_of(role: Role) -> Framing {
    match role {
        Role::Local => Framing::Raw,
        Role::Remote => Framing::Framed,
    }
}

impl Role {
    /// The wire representation this role uses.
    pub fn framing(&self) -> (f: Framing)
        ensures
            f == spec_framing_of(*self),
    {
        match self {
            Role::Local => Framing::Raw,
            Role::Remote => Framing::Framed,
        }
    }
}

/// One named endpoint of a relay instance: where to dial or listen, and which
/// role (and so which framing) it plays.
pub struct Endpoint {
    pub address: String,
    pub role: Role,
}

impl Endpoint {
    pub fn new(address: String, role: Role) -> (e: Endpoint)
        ensures
            e.address@ == address@,
            e.role == role,
    {
        Endpoint { address, role }
    }

    /// The wire representation this endpoint uses.
    pub fn framing(&self) -> (f: Framing)
        ensures
            f == spec_framing_of(self.role),
    {
        self.role.framing()
    }
}

/// How a relay instance obtains its connections: by binding and accepting
/// (Listen mode) or by dialing out (Connect mode).
#[derive(Clone, Copy, Debug, PartialEq, Eq, Structural)]
pub enum Mode {
    Listen,
    Connect,
}

/// Where one endpoint's supervisor stands.
#[derive(Clone, Copy, Debug, PartialEq, Eq, Structural)]
pub enum SessionState {
    /// No connection and nothing in flight; the steady entry point.
    Disconnected,
    /// An acquisition attempt (dial or accept) is in flight.
    Connecting,
    /// A dial failed; the retry interval is being slept out.
    Waiting,
    /// A connection is live and both pumps run against it.
    Active,
    /// A pump ended; the connection is being shut down and the other pump
    /// joined.
    TearingDown,
    /// A fatal failure was escalated; the supervisor is finished.
    Failed,
}

/// What the supervisor's loop observed and reports to the machine.
#[derive(Clone, Copy, Debug, PartialEq, Eq, Structural)]
pub enum SessionEvent {
    /// Nothing pending; the supervisor is ready for its next instruction.
    Proceed,
    /// The acquisition attempt produced a live connection.
    ConnectOk,
    /// The acquisition attempt failed: the dial was refused, or the listener
    /// could not be bound.
    ConnectFailed,
    /// The retry interval has fully elapsed.
    SleepDone,
    /// The send pump ended normally after writing an end-of-stream message.
    PumpEof,
    /// A pump ended with the given error.
    PumpFailed(TgcError),
    /// Both socket directions are shut and the other pump has been joined.
    TornDown,
}

/// What the supervisor's loop must do next.
#[derive(Clone, Copy, Debug, PartialEq, Eq, Structural)]
pub enum SessionAction {
    /// Obtain a connection: dial the fixed address in Connect mode, accept
    /// the next inbound client in Listen mode.
    Acquire,
    /// Sleep the given number of seconds, then report `SleepDone`.
    Sleep(u64),
    /// Start the receive pump and the send pump against the new connection,
    /// sharing the endpoint's two queues.
    StartPumps,
    /// Force both socket directions shut — unblocking the still-running pump —
    /// and join it, then report `TornDown`.
    Shutdown,
    /// Escalate a fatal failure: log it and terminate the process.
    Escalate,
    /// Nothing; the event does not concern the current state.
    NoOp,
}

/// The supervisor's transition function. Failed dials lead to a full-interval
/// sleep and another attempt, indefinitely; a bind or accept failure in
/// Listen mode is fatal; either pump ending — normal end of stream or a
/// recoverable error — tears the connection down and leads back to
/// `Disconnected`, from where the same address is re-dialed or the next
/// client accepted; a fatal pump error is escalated. Events that do not
/// concern the current state change nothing.
pub open spec fn spec_session_step(mode: Mode, state: SessionState, event: SessionEvent) -> (
    SessionState,
    SessionAction,
) {
    match (state, event) {
        (SessionState::Disconnected, SessionEvent::Proceed) => (
            SessionState::Connecting,
            SessionAction::Acquire,
        ),
        (SessionState::Connecting, SessionEvent::ConnectOk) => (
            SessionState::Active,
            SessionAction::StartPumps,
        ),
        (SessionState::Connecting, SessionEvent::ConnectFailed) => match mode {
            Mode::Connect => (SessionState::Waiting, SessionAction::Sleep(RETRY_INTERVAL_SECS)),
            Mode::Listen => (SessionState::Failed, SessionAction::Escalate),
        },
        (SessionState::Waiting, SessionEvent::SleepDone) => (
            SessionState::Connecting,
            SessionAction::Acquire,
        ),
        (SessionState::Active, SessionEvent::PumpEof) => (
            SessionState::TearingDown,
            SessionAction::Shutdown,
        ),
        (SessionState::Active, SessionEvent::PumpFailed(e)) => if spec_is_fatal(e) {
            (SessionState::Failed, SessionAction::Escalate)
        } else {
            (SessionState::TearingDown, SessionAction::Shutdown)
        },
        (SessionState::TearingDown, SessionEvent::TornDown) => (
            SessionState::Disconnected,
            SessionAction::NoOp,
        ),
        _ => (state, SessionAction::NoOp),
    }
}

/// One supervisor step: feed the observed event, get the next state and the
/// action to perform.
pub fn session_step(mode: Mode, state: SessionState, event: SessionEvent) -> (r: (
    SessionState,
    SessionAction,
))
    ensures
        r == spec_session_step(mode, state, event),
{
    match (state, event) {
        (SessionState::Disconnected, SessionEvent::Proceed) => (
            SessionState::Connecting,
            SessionAction::Acquire,
        ),
        (SessionState::Connecting, SessionEvent::ConnectOk) => (
            SessionState::Active,
            SessionAction::StartPumps,
        ),
        (SessionState::Connecting, SessionEvent::ConnectFailed) => match mode {
            Mode::Connect => (SessionState::Waiting, SessionAction::Sleep(RETRY_INTERVAL_SECS)),
            Mode::Listen => (SessionState::Failed, SessionAction::Escalate),
        },
        (SessionState::Waiting, SessionEvent::SleepDone) => (
            SessionState::Connecting,
            SessionAction::Acquire,
        ),
        (SessionState::Active, SessionEvent::PumpEof) => (
            SessionState::TearingDown,
            SessionAction::Shutdown,
        ),
        (SessionState::Active, SessionEvent::PumpFailed(e)) => {
            if e.is_fatal() {
                (SessionState::Failed, SessionAction::Escalate)
            } else {
                (SessionState::TearingDown, SessionAction::Shutdown)
            }
        },
        (SessionState::TearingDown, SessionEvent::TornDown) => (
            SessionState::Disconnected,
            SessionAction::NoOp,
        ),
        (s, _) => (s, SessionAction::NoOp),
    }
}

/// Step `i` of a recorded supervisor run is consistent with the machine.
pub open spec fn run_step(
    mode: Mode,
    states: Seq<SessionState>,
    events: Seq<SessionEvent>,
    actions: Seq<SessionAction>,
    i: int,
) -> bool {
    (states[i + 1], actions[i]) == spec_session_step(mode, states[i], events[i])
}

/// A recorded supervisor run: `states` has one more entry than `events`, each
/// event takes the machine from one state to the next, and `actions` records
/// what the machine asked for at each step.
pub open spec fn is_run(
    mode: Mode,
    states: Seq<SessionState>,
    events: Seq<SessionEvent>,
    actions: Seq<SessionAction>,
) -> bool {
    &&& states.len() == events.len() + 1
    &&& actions.len() == events.len()
    &&& forall|i: int| 0 <= i < events.len() ==> #[trigger] run_step(mode, states, events, actions, i)
}

/// Dial retries never end the supervisor: a failed dial in Connect mode leads
/// to a full-interval sleep, the sleep leads back to another acquisition
/// attempt, and neither step can reach `Failed` — there is no bound on the
/// number of attempts.
pub proof fn lemma_dial_retries_forever()
    ensures
        spec_session_step(Mode::Connect, SessionState::Connecting, SessionEvent::ConnectFailed)
            == (SessionState::Waiting, SessionAction::Sleep(RETRY_INTERVAL_SECS)),
        spec_session_step(Mode::Connect, SessionState::Waiting, SessionEvent::SleepDone) == (
            SessionState::Connecting,
            SessionAction::Acquire,
        ),
        forall|e: SessionEvent|
            !(#[trigger] spec_session_step(Mode::Connect, SessionState::Connecting, e).0
                is Failed),
        forall|e: SessionEvent|
            !(#[trigger] spec_session_step(Mode::Connect, SessionState::Waiting, e).0 is Failed),
{
}

/// An acquisition attempt is made only from `Disconnected` when the
/// supervisor proceeds, or from `Waiting` once the retry sleep has fully
/// elapsed — never straight after a failure.
pub proof fn lemma_acquire_provenance(mode: Mode, state: SessionState, event: SessionEvent)
    requires
        spec_session_step(mode, state, event).1 is Acquire,
    ensures
        (state is Disconnected && event is Proceed) || (state is Waiting && event is SleepDone),
{
}

/// Retry cadence: in a run that starts disconnected, any acquisition attempt
/// taken from the `Waiting` state was preceded by a dial failure that issued
/// a sleep of the full retry interval, and the machine stayed waiting from
/// that failure until this attempt — so consecutive dial attempts to an
/// unreachable address are spaced at least the retry interval apart.
pub proof fn lemma_retry_cadence(
    mode: Mode,
    states: Seq<SessionState>,
    events: Seq<SessionEvent>,
    actions: Seq<SessionAction>,
    j: int,
)
    requires
        is_run(mode, states, events, actions),
        states[0] is Disconnected,
        0 <= j < actions.len(),
        states[j] is Waiting,
        actions[j] is Acquire,
    ensures
        exists|k: int|
            0 <= k < j && #[trigger] states[k] is Connecting && events[k] is ConnectFailed
                && actions[k] == SessionAction::Sleep(RETRY_INTERVAL_SECS) && (forall|t: int|
                k < t <= j ==> #[trigger] states[t] is Waiting),
{
    let k = lemma_waiting_origin(mode, states, events, actions, j);
}

/// Helper: walk back from any `Waiting` state to the dial failure that began
/// the wait, showing the machine waited through every step in between.
proof fn lemma_waiting_origin(
    mode: Mode,
    states: Seq<SessionState>,
    events: Seq<SessionEvent>,
    actions: Seq<SessionAction>,
    j: int,
) -> (k: int)
    requires
        is_run(mode, states, events, actions),
        states[0] is Disconnected,
        0 <= j < states.len(),
        states[j] is Waiting,
    ensures
        0 <= k < j,
        states[k] is Connecting,
        events[k] is ConnectFailed,
        actions[k] == SessionAction::Sleep(RETRY_INTERVAL_SECS),
        forall|t: int| k < t <= j ==> #[trigger] states[t] is Waiting,
    decreases j,
{
    assert(run_step(mode, states, events, actions, j - 1));
    if states[j - 1] is Connecting {
        j - 1
    } else {
        assert(states[j - 1] is Waiting);
        let k = lemma_waiting_origin(mode, states, events, actions, j - 1);
        k
    }
}

} // verus!
