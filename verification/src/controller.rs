//! The connection lifecycle state machine.
//!
//! The controller decides, from its current state and from the outcome of
//! each outside operation, what the daemon does next: connect, establish
//! the forwarding tunnel, probe liveness, tear down, or wait. The network
//! operations themselves — the SSH transport, authentication, the tunnel
//! channel, the probe command — run outside the library; their results are
//! handed in as plain values, and every decision taken on them is verified
//! here.
//!
//! Time is modeled as a monotonic tick count (seconds) supplied by the
//! caller, so the reconnect delay and the probe interval are part of the
//! verified state: a connection attempt is only permitted once the
//! configured delay since the last failure has elapsed.

use crate::config::Config;
use vstd::prelude::*;

verus! {

/// How many consecutive failed health probes force a reconnection.
pub const MAX_HEALTH_CHECK_FAILURES: u32 = 3;

/// The lifecycle states of the tunnel.
///
/// A live authenticated session exists exactly in `Authenticating`,
/// `TunnelEstablished` and `HealthChecking` (see
/// [`TunnelController::holds_session`]). `TunnelEstablished` is the state
/// right after authentication, preceding tunnel establishment;
/// `HealthChecking` is the steady state with the tunnel up.
#[derive(Clone, Copy, Debug, PartialEq, Eq, Structural)]
pub enum TunnelState {
    Idle,
    Connecting,
    Authenticating,
    TunnelEstablished,
    HealthChecking,
    Reconnecting,
    Failed,
}

/// Why a connection attempt failed. All three are non-fatal: the driver
/// waits the reconnect delay and tries again.
#[derive(Clone, Copy, Debug, PartialEq, Eq, Structural)]
pub enum ConnectError {
    TransportConnectFailed,
    HandshakeFailed,
    AuthFailed,
}

/// Why tunnel establishment failed. Non-fatal: the session is dropped and
/// the driver retries from `connect`.
#[derive(Clone, Copy, Debug, PartialEq, Eq, Structural)]
pub enum TunnelError {
    TunnelEstablishFailed,
}

/// The one fatal error: the startup configuration is unusable (the private
/// key file is absent). The process exits before any connection attempt.
#[derive(Clone, Copy, Debug, PartialEq, Eq, Structural)]
pub enum StartupError {
    ConfigInvalid,
}

/// What the driver loop should do next, given the controller's state.
#[derive(Clone, Copy, Debug, PartialEq, Eq, Structural)]
pub enum DriverAction {
    AttemptConnect,
    EstablishTunnel,
    Probe,
    Teardown,
    Wait,
    Stop,
}

/// `a + b`, capped at `u64::MAX`.
pub open spec fn sat_add_spec(a: u64, b: u64) -> u64 {
    if a + b <= u64::MAX {
        (a + b) as u64
    } else {
        u64::MAX
    }
}

/// `a + b`, capped at `u64::MAX`.
pub fn sat_add(a: u64, b: u64) -> (r: u64)
    ensures
        r == sat_add_spec(a, b),
{
    if a <= u64::MAX - b {
        a + b
    } else {
        u64::MAX
    }
}

/// The state machine that drives the tunnel's lifecycle.
///
/// `retry_at` is the earliest tick at which a new connection attempt is
/// permitted; `probe_at` is the earliest tick at which the next health
/// probe is due. Both are maintained by the transitions below.
pub struct TunnelController {
    pub config: Config,
    pub state: TunnelState,
    pub failures: u32,
    pub retry_at: u64,
    pub probe_at: u64,
}

impl TunnelController {
    /// Well-formedness: the health counter is bounded by the failure
    /// maximum, stays strictly below it while probing continues, and is
    /// zero in every state where it is not meaningful.
    pub open spec fn wf(self) -> bool {
        &&& self.failures <= MAX_HEALTH_CHECK_FAILURES
        &&& self.state is HealthChecking ==> self.failures < MAX_HEALTH_CHECK_FAILURES
        &&& !(self.state is HealthChecking || self.state is Reconnecting) ==> self.failures == 0
    }

    /// A live authenticated session exists exactly in these states.
    pub open spec fn holds_session(self) -> bool {
        ||| self.state is Authenticating
        ||| self.state is TunnelEstablished
        ||| self.state is HealthChecking
    }

    /// The startup gate: with the key file absent the controller fails
    /// fatally; otherwise it is left untouched.
    pub open spec fn startup_t(self, key_file_exists: bool) -> Self {
        if key_file_exists {
            self
        } else {
            TunnelController { state: TunnelState::Failed, ..self }
        }
    }

    /// A connection attempt begins: the transport is being opened.
    pub open spec fn begin_connect_t(self) -> Self {
        TunnelController { state: TunnelState::Connecting, ..self }
    }

    /// Transport and handshake succeeded: a session now exists and is
    /// being authenticated; the health counter restarts with it.
    pub open spec fn session_established_t(self) -> Self {
        TunnelController { state: TunnelState::Authenticating, failures: 0u32, ..self }
    }

    /// Authentication succeeded: the session is live, the tunnel is not
    /// yet established; the first probe becomes due one interval from now.
    pub open spec fn auth_ok_t(self, now: u64) -> Self {
        TunnelController {
            state: TunnelState::TunnelEstablished,
            probe_at: sat_add_spec(now, self.config.health_check_interval),
            ..self
        }
    }

    /// A connection attempt failed at any stage: back to `Idle` with no
    /// session, and no new attempt before the reconnect delay has passed.
    pub open spec fn connect_fail_t(self, now: u64) -> Self {
        TunnelController {
            state: TunnelState::Idle,
            failures: 0u32,
            retry_at: sat_add_spec(now, self.config.reconnect_delay),
            ..self
        }
    }

    /// One whole connection attempt: begin, open transport and handshake,
    /// authenticate; any failure leads back to `Idle`.
    pub open spec fn connect_t(self, now: u64, outcome: Result<(), ConnectError>) -> Self {
        match outcome {
            Ok(_) => self.begin_connect_t().session_established_t().auth_ok_t(now),
            Err(e) => if e is AuthFailed {
                self.begin_connect_t().session_established_t().connect_fail_t(now)
            } else {
                self.begin_connect_t().connect_fail_t(now)
            },
        }
    }

    /// The forwarding channel was bound: steady-state health checking
    /// begins with a fresh counter.
    pub open spec fn establish_ok_t(self, now: u64) -> Self {
        TunnelController {
            state: TunnelState::HealthChecking,
            failures: 0u32,
            probe_at: sat_add_spec(now, self.config.health_check_interval),
            ..self
        }
    }

    /// Tunnel establishment failed: the session is closed and the driver
    /// must retry from `connect` after the reconnect delay.
    pub open spec fn establish_fail_t(self, now: u64) -> Self {
        TunnelController {
            state: TunnelState::Idle,
            failures: 0u32,
            retry_at: sat_add_spec(now, self.config.reconnect_delay),
            ..self
        }
    }

    /// One health probe outcome: success resets the counter; failure
    /// increments it by exactly one, and reaching the maximum forces
    /// `Reconnecting` and starts the reconnect delay.
    pub open spec fn probe_t(self, now: u64, probe_ok: bool) -> Self {
        if probe_ok {
            TunnelController {
                state: TunnelState::HealthChecking,
                failures: 0u32,
                probe_at: sat_add_spec(now, self.config.health_check_interval),
                ..self
            }
        } else if self.failures + 1 >= MAX_HEALTH_CHECK_FAILURES {
            TunnelController {
                state: TunnelState::Reconnecting,
                failures: (self.failures + 1) as u32,
                retry_at: sat_add_spec(now, self.config.reconnect_delay),
                ..self
            }
        } else {
            TunnelController {
                state: TunnelState::HealthChecking,
                failures: (self.failures + 1) as u32,
                probe_at: sat_add_spec(now, self.config.health_check_interval),
                ..self
            }
        }
    }

    /// Teardown: whatever the state, the session (if any) is gone and the
    /// controller is idle with a fresh counter.
    pub open spec fn disconnect_t(self) -> Self {
        TunnelController { state: TunnelState::Idle, failures: 0u32, ..self }
    }

    /// A fresh controller: idle, no failures, free to connect at once.
    pub fn new(config: Config) -> (c: Self)
        ensures
            c.config == config,
            c.state is Idle,
            c.failures == 0,
            c.retry_at == 0,
            c.probe_at == 0,
            c.wf(),
    {
        TunnelController {
            config,
            state: TunnelState::Idle,
            failures: 0,
            retry_at: 0,
            probe_at: 0,
        }
    }

    /// The startup gate: callers report whether the private key file
    /// exists on disk. If it does not, the controller fails fatally and no
    /// connection will ever be attempted (every connecting transition
    /// requires `Idle`).
    pub fn startup(&mut self, key_file_exists: bool) -> (r: Result<(), StartupError>)
        requires
            old(self).wf(),
            old(self).state is Idle,
        ensures
            *final(self) == old(self).startup_t(key_file_exists),
            final(self).wf(),
            r is Ok <==> key_file_exists,
            !key_file_exists ==> r == Err::<(), StartupError>(StartupError::ConfigInvalid)
                && final(self).state is Failed && !final(self).holds_session(),
            key_file_exists ==> *final(self) == *old(self),
    {
        if key_file_exists {
            Ok(())
        } else {
            self.state = TunnelState::Failed;
            Err(StartupError::ConfigInvalid)
        }
    }

    /// Begins a connection attempt. Only permitted once the reconnect
    /// delay from the last failure has elapsed.
    pub fn begin_connect(&mut self, now: u64)
        requires
            old(self).wf(),
            old(self).state is Idle,
            now >= old(self).retry_at,
        ensures
            *final(self) == old(self).begin_connect_t(),
            final(self).wf(),
    {
        self.state = TunnelState::Connecting;
    }

    /// Records that the transport is open and the handshake succeeded: a
    /// session handle now exists and authentication is under way.
    pub fn session_established(&mut self)
        requires
            old(self).wf(),
            old(self).state is Connecting,
        ensures
            *final(self) == old(self).session_established_t(),
            final(self).wf(),
            final(self).holds_session(),
            final(self).failures == 0,
    {
        self.state = TunnelState::Authenticating;
        self.failures = 0;
    }

    /// Records that authentication succeeded: the session is live and the
    /// driver may establish the tunnel.
    pub fn auth_succeeded(&mut self, now: u64)
        requires
            old(self).wf(),
            old(self).state is Authenticating,
        ensures
            *final(self) == old(self).auth_ok_t(now),
            final(self).wf(),
            final(self).state is TunnelEstablished,
            final(self).holds_session(),
    {
        self.state = TunnelState::TunnelEstablished;
        self.probe_at = sat_add(now, self.config.health_check_interval);
    }

    /// Records that the connection attempt failed while connecting or
    /// authenticating: the session (if any) is gone, the controller is
    /// idle again, and the next attempt waits for the reconnect delay.
    pub fn connect_failed(&mut self, now: u64)
        requires
            old(self).wf(),
            old(self).state is Connecting || old(self).state is Authenticating,
        ensures
            *final(self) == old(self).connect_fail_t(now),
            final(self).wf(),
            final(self).state is Idle,
            !final(self).holds_session(),
            final(self).retry_at == sat_add_spec(now, old(self).config.reconnect_delay),
    {
        self.state = TunnelState::Idle;
        self.failures = 0;
        self.retry_at = sat_add(now, self.config.reconnect_delay);
    }

    /// One whole connection attempt, with the adapter's outcome handed in:
    /// on success the controller holds a live session and precedes tunnel
    /// establishment; on any failure it is idle with no session and the
    /// reconnect delay runs.
    pub fn connect(&mut self, now: u64, outcome: Result<(), ConnectError>) -> (r: Result<
        (),
        ConnectError,
    >)
        requires
            old(self).wf(),
            old(self).state is Idle,
            now >= old(self).retry_at,
        ensures
            *final(self) == old(self).connect_t(now, outcome),
            final(self).wf(),
            r == outcome,
            outcome is Ok ==> final(self).state is TunnelEstablished
                && final(self).holds_session() && final(self).failures == 0,
            outcome is Err ==> final(self).state is Idle && !final(self).holds_session()
                && final(self).retry_at == sat_add_spec(now, old(self).config.reconnect_delay),
    {
        self.begin_connect(now);
        match outcome {
            Ok(()) => {
                self.session_established();
                self.auth_succeeded(now);
            },
            Err(e) => {
                if matches!(e, ConnectError::AuthFailed) {
                    self.session_established();
                }
                self.connect_failed(now);
            },
        }
        outcome
    }

    /// Requests tunnel establishment, with the relay's outcome handed in.
    /// Success starts steady-state health checking; failure closes the
    /// session and sends the driver back to `connect`.
    pub fn establish_tunnel(&mut self, now: u64, bind_ok: bool) -> (r: Result<(), TunnelError>)
        requires
            old(self).wf(),
            old(self).state is TunnelEstablished,
        ensures
            final(self).wf(),
            bind_ok ==> *final(self) == old(self).establish_ok_t(now) && r is Ok
                && final(self).state is HealthChecking && final(self).failures == 0,
            !bind_ok ==> *final(self) == old(self).establish_fail_t(now)
                && r == Err::<(), TunnelError>(TunnelError::TunnelEstablishFailed)
                && final(self).state is Idle && !final(self).holds_session(),
    {
        if bind_ok {
            self.state = TunnelState::HealthChecking;
            self.failures = 0;
            self.probe_at = sat_add(now, self.config.health_check_interval);
            Ok(())
        } else {
            self.state = TunnelState::Idle;
            self.failures = 0;
            self.retry_at = sat_add(now, self.config.reconnect_delay);
            Err(TunnelError::TunnelEstablishFailed)
        }
    }

    /// Records one health probe outcome. Success resets the counter;
    /// failure increments it by exactly one, and reaching the maximum
    /// forces `Reconnecting` — the driver must tear the session down and
    /// wait out the reconnect delay.
    pub fn health_check(&mut self, now: u64, probe_ok: bool) -> (r: bool)
        requires
            old(self).wf(),
            old(self).state is TunnelEstablished || old(self).state is HealthChecking,
            now >= old(self).probe_at,
        ensures
            *final(self) == old(self).probe_t(now, probe_ok),
            final(self).wf(),
            r == probe_ok,
            probe_ok ==> final(self).state is HealthChecking && final(self).failures == 0,
            !probe_ok ==> final(self).failures == old(self).failures + 1,
            !probe_ok ==> (final(self).state is Reconnecting <==> old(self).failures + 1
                == MAX_HEALTH_CHECK_FAILURES),
    {
        if probe_ok {
            self.state = TunnelState::HealthChecking;
            self.failures = 0;
            self.probe_at = sat_add(now, self.config.health_check_interval);
            true
        } else {
            self.failures = self.failures + 1;
            if self.failures >= MAX_HEALTH_CHECK_FAILURES {
                self.state = TunnelState::Reconnecting;
                self.retry_at = sat_add(now, self.config.reconnect_delay);
            } else {
                self.state = TunnelState::HealthChecking;
                self.probe_at = sat_add(now, self.config.health_check_interval);
            }
            false
        }
    }

    /// Tears the session down. Idempotent and safe from any state: the
    /// session, if one existed, is considered gone, and the controller is
    /// idle.
    pub fn disconnect(&mut self)
        requires
            old(self).wf(),
        ensures
            *final(self) == old(self).disconnect_t(),
            final(self).wf(),
            final(self).state is Idle,
            !final(self).holds_session(),
    {
        self.state = TunnelState::Idle;
        self.failures = 0;
    }

    /// The connectivity boolean the status surface reads: a live
    /// authenticated session exists.
    pub fn is_connected(&self) -> (r: bool)
        ensures
            r == self.holds_session(),
    {
        match self.state {
            TunnelState::Authenticating => true,
            TunnelState::TunnelEstablished => true,
            TunnelState::HealthChecking => true,
            _ => false,
        }
    }

    /// Whether a connection attempt is permitted at tick `now`.
    pub fn may_attempt(&self, now: u64) -> (r: bool)
        ensures
            r == (now >= self.retry_at),
    {
        now >= self.retry_at
    }

    /// What the driver loop does next, given the tick and the cooperative
    /// shutdown flag (checked at loop boundaries, never mid-operation).
    pub open spec fn next_action_spec(self, now: u64, shutdown_requested: bool) -> DriverAction {
        if shutdown_requested {
            DriverAction::Stop
        } else {
            match self.state {
                TunnelState::Idle => if now >= self.retry_at {
                    DriverAction::AttemptConnect
                } else {
                    DriverAction::Wait
                },
                TunnelState::Connecting => DriverAction::Wait,
                TunnelState::Authenticating => DriverAction::Wait,
                TunnelState::TunnelEstablished => DriverAction::EstablishTunnel,
                TunnelState::HealthChecking => if now >= self.probe_at {
                    DriverAction::Probe
                } else {
                    DriverAction::Wait
                },
                TunnelState::Reconnecting => DriverAction::Teardown,
                TunnelState::Failed => DriverAction::Stop,
            }
        }
    }

    /// What the driver loop does next.
    pub fn next_action(&self, now: u64, shutdown_requested: bool) -> (a: DriverAction)
        ensures
            a == self.next_action_spec(now, shutdown_requested),
    {
        if shutdown_requested {
            return DriverAction::Stop;
        }
        match self.state {
            TunnelState::Idle => if now >= self.retry_at {
                DriverAction::AttemptConnect
            } else {
                DriverAction::Wait
            },
            TunnelState::Connecting => DriverAction::Wait,
            TunnelState::Authenticating => DriverAction::Wait,
            TunnelState::TunnelEstablished => DriverAction::EstablishTunnel,
            TunnelState::HealthChecking => if now >= self.probe_at {
                DriverAction::Probe
            } else {
                DriverAction::Wait
            },
            TunnelState::Reconnecting => DriverAction::Teardown,
            TunnelState::Failed => DriverAction::Stop,
        }
    }
}

/// Law: for every probe outcome, the health counter resets to zero after a
/// successful probe and increments by exactly one on a failed one, and
/// reaching the configured maximum always and only forces the controller
/// out of `HealthChecking`.
pub proof fn lemma_probe_counter(c: TunnelController, now: u64)
    requires
        c.wf(),
        c.state is TunnelEstablished || c.state is HealthChecking,
    ensures
        c.probe_t(now, true).failures == 0,
        c.probe_t(now, true).state is HealthChecking,
        c.probe_t(now, false).failures == c.failures + 1,
        c.probe_t(now, false).state is Reconnecting <==> c.failures + 1
            == MAX_HEALTH_CHECK_FAILURES,
        c.failures + 1 < MAX_HEALTH_CHECK_FAILURES ==> c.probe_t(now, false).state
            is HealthChecking,
{
}

/// Law: `disconnect` is idempotent — a second teardown changes nothing —
/// and on an idle controller with no session it is a no-op.
pub proof fn lemma_disconnect_idempotent(c: TunnelController)
    ensures
        c.disconnect_t().disconnect_t() == c.disconnect_t(),
        c.state is Idle && c.failures == 0 ==> c.disconnect_t() == c,
{
}

/// Law: after any failed connection attempt, any failed tunnel
/// establishment, and after a forced reconnection followed by its
/// teardown, the controller is idle and owns no session.
pub proof fn lemma_failure_returns_to_idle(c: TunnelController, now: u64, e: ConnectError)
    requires
        c.wf(),
    ensures
        c.connect_t(now, Err(e)).state is Idle,
        !c.connect_t(now, Err(e)).holds_session(),
        c.establish_fail_t(now).state is Idle,
        !c.establish_fail_t(now).holds_session(),
        c.probe_t(now, false).disconnect_t().state is Idle,
        !c.probe_t(now, false).disconnect_t().holds_session(),
{
}

/// Law: the reconnect delay is honored — once a connection attempt fails
/// at tick `now`, no later attempt is permitted before at least
/// `reconnect_delay` ticks have elapsed. (Stated below the saturation
/// bound of the tick counter.)
pub proof fn lemma_reconnect_delay(c: TunnelController, now: u64, e: ConnectError, later: u64)
    requires
        now + c.config.reconnect_delay <= u64::MAX,
        later >= c.connect_t(now, Err(e)).retry_at,
    ensures
        later >= now + c.config.reconnect_delay,
{
}

/// Law: a forced reconnection honors the reconnect delay too — when the
/// probe that reaches the failure maximum fires at tick `now`, no
/// connection attempt is permitted before at least `reconnect_delay`
/// ticks have elapsed. (Stated below the saturation bound of the tick
/// counter.)
pub proof fn lemma_forced_reconnect_delay(c: TunnelController, now: u64, later: u64)
    requires
        c.wf(),
        c.state is TunnelEstablished || c.state is HealthChecking,
        c.failures + 1 == MAX_HEALTH_CHECK_FAILURES,
        now + c.config.reconnect_delay <= u64::MAX,
        later >= c.probe_t(now, false).retry_at,
    ensures
        c.probe_t(now, false).state is Reconnecting,
        later >= now + c.config.reconnect_delay,
{
}

/// The controller after a whole run of probe outcomes, each recorded at
/// tick `now` or later (the tick only moves the timers, never the
/// counter).
pub open spec fn probe_run(c: TunnelController, now: u64, outcomes: Seq<bool>) -> TunnelController
    decreases outcomes.len(),
{
    if outcomes.len() == 0 {
        c
    } else {
        probe_run(c.probe_t(now, outcomes[0]), now, outcomes.drop_first())
    }
}

/// Law: over any sequence of failed probes, the counter grows by exactly
/// one per probe, and the probe that brings the total to the maximum is
/// exactly the one that forces the controller out of `HealthChecking`.
pub proof fn lemma_probe_run_counts_failures(c: TunnelController, now: u64, outcomes: Seq<bool>)
    requires
        c.wf(),
        c.state is HealthChecking,
        forall|k: int| 0 <= k < outcomes.len() ==> !outcomes[k],
        c.failures + outcomes.len() <= MAX_HEALTH_CHECK_FAILURES,
    ensures
        probe_run(c, now, outcomes).failures == c.failures + outcomes.len(),
        c.failures + outcomes.len() < MAX_HEALTH_CHECK_FAILURES ==> probe_run(c, now, outcomes).state
            is HealthChecking,
        outcomes.len() > 0 && c.failures + outcomes.len() == MAX_HEALTH_CHECK_FAILURES
            ==> probe_run(c, now, outcomes).state is Reconnecting,
    decreases outcomes.len(),
{
    if outcomes.len() > 0 {
        let c1 = c.probe_t(now, outcomes[0]);
        if c.failures + 1 == MAX_HEALTH_CHECK_FAILURES {
            assert(outcomes.len() == 1);
            assert(probe_run(c, now, outcomes) == probe_run(c1, now, outcomes.drop_first()));
            assert(outcomes.drop_first().len() == 0);
        } else {
            lemma_probe_run_counts_failures(c1, now, outcomes.drop_first());
        }
    }
}

} // verus!
