//! Keeping the connection to a camera.
//!
//! A thread per camera waits until a connection is wanted, logs in, watches the
//! connection while it lasts, and tries again when it is lost. What it is doing
//! is published as [`CameraDiagnostics`].

use vstd::arithmetic::power2::{lemma2_to64, lemma_pow2_pos, lemma_pow2_unfold, pow2};
use vstd::prelude::*;

use crate::error::{Error, Failure};

verus! {

/// The shortest wait before another attempt to connect, in milliseconds.
pub const MIN_BACKOFF_MS: u64 = 50;

/// The longest wait before another attempt to connect, in milliseconds.
pub const MAX_BACKOFF_MS: u64 = 5000;

/// A connection that lasted longer than this, in nanoseconds, was a success.
pub const STABLE_NANOS: u64 = 60_000_000_000;

/// How long to leave a camera alone that may be waking up, in milliseconds.
pub const SETTLE_MS: u64 = 2000;

/// How often a camera is pinged, in milliseconds.
pub const PING_INTERVAL_MS: u64 = 5000;

/// How long a ping may take, in milliseconds.
pub const PING_TIMEOUT_MS: u64 = 5000;

/// How many pings in a row may go unanswered.
pub const MAX_MISSED_PINGS: u32 = 5;

/// What is wrong with a connection on which too many pings went unanswered.
pub const PING_LOST: &'static str = "Timed out waiting for camera ping reply";

/// Whether a connection to a camera is wanted.
#[derive(Debug, Eq, PartialEq, Copy, Clone)]
pub enum NeoCamThreadState {
    /// It is.
    Connected,
    /// It is not.
    Disconnected,
}

/// Coarse connection phase published for diagnostics/healthcheck.
#[derive(Debug, Eq, PartialEq, Copy, Clone)]
pub enum DiagPhase {
    /// Currently attempting to (re)connect and log in.
    Connecting,
    /// Connected and advertised as live.
    Connected,
    /// Lost the connection after an error and waiting to retry.
    Reconnecting,
    /// Intentionally disconnected (manual disconnect or idle/battery saving).
    Idle,
    /// Login credentials were rejected; this is fatal and will not retry.
    LoginFailed,
    /// The camera thread shut down normally.
    Stopped,
}

/// A snapshot of a camera connection's health.
#[derive(Debug, Clone, PartialEq, Eq)]
pub struct CameraDiagnostics {
    /// The connection phase.
    pub phase: DiagPhase,
    /// When the current connection was established (for uptime), in nanoseconds
    /// on a monotonic clock.
    pub connected_since: Option<u64>,
    /// Number of failed connection attempts since the last stable connection.
    pub reconnect_attempts: u32,
    /// The most recent connection error, if any.
    pub last_error: Option<String>,
}

impl CameraDiagnostics {
    /// A connection has a start just while there is one; a live connection has
    /// no error, and a lost or rejected one has.
    pub open spec fn wf(self) -> bool {
        &&& self.connected_since is Some <==> self.phase is Connected
        &&& self.phase is Connected ==> self.last_error is None
        &&& self.phase is Reconnecting || self.phase is LoginFailed ==> self.last_error is Some
    }

    /// The diagnostics of a thread that has just started.
    pub open spec fn initial() -> CameraDiagnostics {
        CameraDiagnostics {
            phase: DiagPhase::Connecting,
            connected_since: None,
            reconnect_attempts: 0,
            last_error: None,
        }
    }

    /// The same diagnostics with no connection, in `phase`.
    pub open spec fn without_connection(self, phase: DiagPhase) -> CameraDiagnostics {
        CameraDiagnostics { phase, connected_since: None, ..self }
    }

    /// There is no connection, but one is being sought.
    fn drop_connection(&mut self)
        ensures
            *final(self) == old(self).without_connection(DiagPhase::Connecting),
    {
        self.phase = DiagPhase::Connecting;
        self.connected_since = None;
    }
}

impl Default for CameraDiagnostics {
    fn default() -> (r: CameraDiagnostics)
        ensures
            r == CameraDiagnostics::initial(),
            r.wf(),
    {
        CameraDiagnostics {
            phase: DiagPhase::Connecting,
            connected_since: None,
            reconnect_attempts: 0,
            last_error: None,
        }
    }
}

/// Where the thread stands.
#[derive(Debug, PartialEq, Eq, Copy, Clone)]
pub enum RunStep {
    /// Nothing has happened yet.
    Fresh,
    /// Looking whether a connection is wanted.
    Deciding,
    /// Waiting until one is.
    AwaitingConnect,
    /// In a session, since this moment of a monotonic clock, in nanoseconds.
    InSession {
        /// When the session began.
        started: u64,
    },
    /// Waiting to try again.
    BackingOff,
    /// Ended.
    Ended,
}

/// How a session ended.
#[derive(Debug, PartialEq, Eq)]
pub enum SessionEnd {
    /// Well.
    Well,
    /// The camera rejected the login credentials.
    Rejected {
        /// The report of it.
        text: String,
    },
    /// Something else failed.
    Failed {
        /// The report of it.
        text: String,
    },
    /// Too many pings went unanswered.
    PingsLost,
}

/// Where a session stands.
#[derive(Debug, PartialEq, Eq)]
pub enum SessionStep {
    /// Nothing has happened yet.
    Fresh,
    /// Connecting and logging in.
    LoggingIn,
    /// Leaving the camera alone before the clock is set.
    Settling,
    /// Setting the camera's clock.
    SettingClock,
    /// Leaving the camera alone before it is advertised.
    Resettling,
    /// Watching the connection.
    Watching {
        /// How many pings in a row went unanswered.
        missed: u32,
        /// Whether the camera is pinged.
        pinging: bool,
    },
    /// Logging out.
    LoggingOut,
    /// Closing the connection.
    ShuttingDown,
    /// Over.
    Over(SessionEnd),
}

/// The thread that keeps the connection to one camera.
#[derive(Debug, PartialEq, Eq)]
pub struct NeoCamThread {
    /// Where the thread stands.
    pub step: RunStep,
    /// Where its session stands, while there is one.
    pub session: SessionStep,
    /// The next wait before another attempt, in milliseconds, before it is capped.
    pub backoff_ms: u64,
    /// What is published for diagnostics.
    pub diag: CameraDiagnostics,
    /// Whether a live camera is advertised.
    pub camera_published: bool,
    /// Whether the thread told its dependants to stop.
    pub cancelled: bool,
}

/// What [`NeoCamThread::run`] is told. Moments are in nanoseconds on a monotonic clock.
/// `B` is the body of a message.
#[derive(Debug, PartialEq, Eq)]
pub enum RunEvent<B> {
    /// A run begins: the first, or another where an earlier one ended or was given up.
    Begin,
    /// Whether a connection is wanted at this time.
    Desired(NeoCamThreadState),
    /// A connection is wanted, as of this moment.
    ConnectWanted {
        /// The moment.
        now: u64,
    },
    /// It will never be known whether a connection is wanted.
    StateLost(Failure<B>),
    /// The configuration changed, or the connection is no longer wanted. That
    /// neither can change any more is no such event.
    Interrupted,
    /// The session ended.
    SessionEnded {
        /// What it returned.
        result: Result<(), Failure<B>>,
        /// When.
        now: u64,
    },
    /// The wait is over.
    Waited,
}

/// What [`NeoCamThread::run`] asks for.
#[derive(Debug, PartialEq, Eq)]
pub enum RunAction<B> {
    /// Look whether a connection is wanted.
    ReadDesired,
    /// Wait until one is.
    AwaitConnect,
    /// Run a session, until it ends, the configuration changes or the
    /// connection is no longer wanted.
    RunSession,
    /// Wait so many milliseconds.
    Sleep {
        /// The wait.
        millis: u64,
    },
    /// The thread is over.
    Return(Result<(), Failure<B>>),
}

/// How a ping went.
#[derive(Debug, PartialEq, Eq)]
pub enum PingOutcome<B> {
    /// The camera answered, or the ping failed.
    Answered(Result<(), Failure<B>>),
    /// No answer came in time.
    TimedOut,
}

/// What [`NeoCamThread::run_camera`] is told.
#[derive(Debug, PartialEq, Eq)]
pub enum SessionEvent<B> {
    /// The session begins.
    Begin,
    /// The login stands, or failed.
    LoggedIn(Result<(), Failure<B>>),
    /// A wait is over, at this moment of a monotonic clock, in nanoseconds.
    Waited {
        /// The moment.
        now: u64,
    },
    /// The camera's clock was dealt with, or that failed.
    ClockDone(Result<(), Failure<B>>),
    /// The thread was told to stop.
    Cancelled,
    /// The connection ended by itself.
    Disconnected(Result<(), Failure<B>>),
    /// A ping is over.
    Pinged(PingOutcome<B>),
    /// The logout is over, whatever came of it.
    LoggedOut,
    /// The connection is closed, whatever came of it.
    ShutDown,
}

/// How a camera is pinged.
#[derive(Debug, PartialEq, Eq, Copy, Clone)]
pub struct PingTiming {
    /// How often, in milliseconds.
    pub interval_ms: u64,
    /// How long an answer may take, in milliseconds.
    pub timeout_ms: u64,
}

/// Why a session failed.
#[derive(Debug, PartialEq, Eq)]
pub enum SessionFailure<B> {
    /// Something that it asked for failed.
    Call(Failure<B>),
    /// Too many pings went unanswered.
    PingsLost {
        /// What is wrong; a report of it begins with this.
        message: &'static str,
    },
}

/// What [`NeoCamThread::run_camera`] asks for.
#[derive(Debug, PartialEq, Eq)]
pub enum SessionAction<B> {
    /// Connect and log in.
    LogIn,
    /// Wait so many milliseconds.
    Sleep {
        /// The wait.
        millis: u64,
    },
    /// Deal with the camera's clock.
    UpdateTime,
    /// Wait for an order to stop, for the end of the connection and, if so
    /// said, for the next ping.
    Watch {
        /// How to ping, if at all.
        ping: Option<PingTiming>,
    },
    /// Log out.
    LogOut,
    /// Close the connection.
    ShutDown,
    /// The session is over.
    Return(Result<(), SessionFailure<B>>),
}

/// Pings go out every five seconds and have five seconds to be answered.
pub open spec fn ping_timing() -> PingTiming {
    PingTiming { interval_ms: PING_INTERVAL_MS, timeout_ms: PING_TIMEOUT_MS }
}

impl PingTiming {
    fn new() -> (r: PingTiming)
        ensures
            r == ping_timing(),
    {
        PingTiming { interval_ms: PING_INTERVAL_MS, timeout_ms: PING_TIMEOUT_MS }
    }
}

/// The time from `earlier` to `now`; none if `now` comes first.
pub open spec fn elapsed(earlier: u64, now: u64) -> u64 {
    if now >= earlier {
        (now - earlier) as u64
    } else {
        0
    }
}

/// Whether a session from `started` to `now` lasted long enough to be a success.
pub open spec fn is_stable(started: u64, now: u64) -> bool {
    elapsed(started, now) > STABLE_NANOS
}

impl SessionEnd {
    /// The end of a session that failed with `failure`.
    pub open spec fn of_failure<B>(failure: Failure<B>) -> SessionEnd {
        if failure.rejects_login() {
            SessionEnd::Rejected { text: failure.text }
        } else {
            SessionEnd::Failed { text: failure.text }
        }
    }

    /// Whether a session that ended like this returned `result`, as far as a
    /// run goes by it: whether it failed, whether the login was rejected, and
    /// the report. The report of lost pings begins with what is wrong; what
    /// follows, such as where it was noticed, is up to whoever reports.
    pub open spec fn returned<B>(self, result: Result<(), Failure<B>>) -> bool {
        match result {
            Ok(_) => self is Well,
            Err(failure) => match self {
                SessionEnd::Well => false,
                SessionEnd::Rejected { text } => failure.rejects_login() && failure.text@ == text@,
                SessionEnd::Failed { text } => !failure.rejects_login() && failure.text@ == text@,
                SessionEnd::PingsLost => !failure.rejects_login() && PING_LOST@.is_prefix_of(
                    failure.text@,
                ),
            },
        }
    }

    fn from_failure<B>(failure: &Failure<B>) -> (r: SessionEnd)
        ensures
            r == SessionEnd::of_failure(*failure),
    {
        let text: String = failure.text.clone();
        if failure.is_login_rejection() {
            SessionEnd::Rejected { text }
        } else {
            SessionEnd::Failed { text }
        }
    }
}

impl<B> SessionFailure<B> {
    /// Whether `failure` reports this.
    pub open spec fn is_reported_by(self, failure: Failure<B>) -> bool {
        match self {
            SessionFailure::Call(call) => failure.text@ == call.text@ && (failure.rejects_login()
                <==> call.rejects_login()),
            SessionFailure::PingsLost { message } => !failure.rejects_login()
                && message@.is_prefix_of(failure.text@),
        }
    }

    /// Whether the camera rejected the login credentials.
    pub open spec fn rejects_login(self) -> bool {
        self matches SessionFailure::Call(call) && call.rejects_login()
    }
}

impl SessionStep {
    /// Whether the camera is advertised at this step.
    pub open spec fn is_live(self) -> bool {
        self is Watching || self is LoggingOut || self is ShuttingDown
    }
}

impl NeoCamThread {
    /// What holds of the thread at all times.
    pub open spec fn wf(self) -> bool {
        &&& self.diag.wf()
        &&& MIN_BACKOFF_MS <= self.backoff_ms <= 2 * MAX_BACKOFF_MS
        &&& self.camera_published <==> self.diag.phase is Connected
        &&& self.camera_published ==> self.step is InSession && (self.session.is_live()
            || self.session is Over)
        &&& self.step is InSession && self.session.is_live() ==> self.camera_published
        &&& self.session matches SessionStep::Watching { missed, .. } ==> missed
            <= MAX_MISSED_PINGS
        &&& self.step is BackingOff ==> self.diag.phase is Reconnecting
        &&& self.diag.phase is LoginFailed || self.diag.phase is Stopped ==> self.cancelled && (
        self.step is Ended || self.step is Deciding || self.step is AwaitingConnect)
    }

    /// A thread that has just started.
    pub open spec fn initial() -> NeoCamThread {
        NeoCamThread {
            step: RunStep::Fresh,
            session: SessionStep::Fresh,
            backoff_ms: MIN_BACKOFF_MS,
            diag: CameraDiagnostics::initial(),
            camera_published: false,
            cancelled: false,
        }
    }

    /// Creates the thread.
    pub fn new() -> (r: NeoCamThread)
        ensures
            r == NeoCamThread::initial(),
            r.wf(),
    {
        NeoCamThread {
            step: RunStep::Fresh,
            session: SessionStep::Fresh,
            backoff_ms: MIN_BACKOFF_MS,
            diag: CameraDiagnostics::default(),
            camera_published: false,
            cancelled: false,
        }
    }

    /// Whether `event` can happen now.
    pub open spec fn accepts<B>(self, event: RunEvent<B>) -> bool {
        match event {
            RunEvent::Begin => true,
            RunEvent::Desired(_) => self.step is Deciding,
            RunEvent::ConnectWanted { .. } => self.step is AwaitingConnect,
            RunEvent::StateLost(_) => self.step is AwaitingConnect,
            RunEvent::Interrupted => self.step is InSession,
            RunEvent::SessionEnded { result, .. } => self.step is InSession && (
            self.session matches SessionStep::Over(end) && end.returned(result)),
            RunEvent::Waited => self.step is BackingOff,
        }
    }

    /// The wait before the next attempt if a session fails that began at
    /// `started` and ends at `now`: it starts over after a success, and is capped.
    pub open spec fn retry_delay(self, started: u64, now: u64) -> u64 {
        let wanted = if is_stable(started, now) {
            MIN_BACKOFF_MS
        } else {
            self.backoff_ms
        };
        if wanted > MAX_BACKOFF_MS {
            MAX_BACKOFF_MS
        } else {
            wanted
        }
    }

    /// The failed attempts that count when a session ends that began at
    /// `started` and ends at `now`: a success wipes them out.
    pub open spec fn counted_attempts(self, started: u64, now: u64) -> u32 {
        if is_stable(started, now) {
            0
        } else {
            self.diag.reconnect_attempts
        }
    }

    /// The thread after its session, which began at `started`, ended at `now`
    /// with `result`, and what it asks for.
    pub open spec fn after_session<B>(
        self,
        started: u64,
        result: Result<(), Failure<B>>,
        now: u64,
    ) -> (NeoCamThread, RunAction<B>) {
        let delay = self.retry_delay(started, now);
        let attempts = self.counted_attempts(started, now);
        match result {
            Ok(_) => (
                NeoCamThread {
                    step: RunStep::Ended,
                    backoff_ms: delay,
                    diag: CameraDiagnostics {
                        reconnect_attempts: attempts,
                        ..self.diag.without_connection(DiagPhase::Stopped)
                    },
                    camera_published: false,
                    cancelled: true,
                    ..self
                },
                RunAction::Return(Ok(())),
            ),
            Err(failure) => if failure.rejects_login() {
                (
                    NeoCamThread {
                        step: RunStep::Ended,
                        backoff_ms: delay,
                        diag: CameraDiagnostics {
                            reconnect_attempts: attempts,
                            last_error: Some(failure.text),
                            ..self.diag.without_connection(DiagPhase::LoginFailed)
                        },
                        camera_published: false,
                        cancelled: true,
                        ..self
                    },
                    RunAction::Return(Err(failure)),
                )
            } else {
                (
                    NeoCamThread {
                        step: RunStep::BackingOff,
                        backoff_ms: (2 * delay) as u64,
                        diag: CameraDiagnostics {
                            reconnect_attempts: if attempts == u32::MAX {
                                attempts
                            } else {
                                (attempts + 1) as u32
                            },
                            last_error: Some(failure.text),
                            ..self.diag.without_connection(DiagPhase::Reconnecting)
                        },
                        camera_published: false,
                        ..self
                    },
                    RunAction::Sleep { millis: delay },
                )
            },
        }
    }

    /// The thread after `event`, and what it asks for.
    pub open spec fn next<B>(self, event: RunEvent<B>) -> (NeoCamThread, RunAction<B>) {
        match event {
            RunEvent::Begin => (
                NeoCamThread {
                    step: RunStep::Deciding,
                    backoff_ms: MIN_BACKOFF_MS,
                    diag: if self.diag.phase is Connected {
                        self.diag.without_connection(DiagPhase::Connecting)
                    } else {
                        self.diag
                    },
                    camera_published: false,
                    ..self
                },
                RunAction::ReadDesired,
            ),
            RunEvent::Desired(state) => (
                NeoCamThread {
                    step: RunStep::AwaitingConnect,
                    diag: if state is Connected {
                        self.diag
                    } else {
                        self.diag.without_connection(DiagPhase::Idle)
                    },
                    ..self
                },
                RunAction::AwaitConnect,
            ),
            RunEvent::ConnectWanted { now } => (
                NeoCamThread {
                    step: RunStep::InSession { started: now },
                    session: SessionStep::Fresh,
                    diag: self.diag.without_connection(DiagPhase::Connecting),
                    ..self
                },
                RunAction::RunSession,
            ),
            RunEvent::StateLost(failure) => (
                NeoCamThread { step: RunStep::Ended, ..self },
                RunAction::Return(Err(failure)),
            ),
            RunEvent::Interrupted => (
                NeoCamThread {
                    step: RunStep::Deciding,
                    diag: self.diag.without_connection(DiagPhase::Connecting),
                    camera_published: false,
                    ..self
                },
                RunAction::ReadDesired,
            ),
            RunEvent::SessionEnded { result, now } => self.after_session(
                self.step->started,
                result,
                now,
            ),
            RunEvent::Waited => (
                NeoCamThread { step: RunStep::Deciding, ..self },
                RunAction::ReadDesired,
            ),
        }
    }

    /// Runs and attempts to maintain the connection: one step of it.
    pub fn run<B>(&mut self, event: RunEvent<B>) -> (action: RunAction<B>)
        requires
            old(self).wf(),
            old(self).accepts(event),
        ensures
            final(self).wf(),
            (*final(self), action) == old(self).next(event),
    {
        match event {
            RunEvent::Begin => {
                self.backoff_ms = MIN_BACKOFF_MS;
                match self.diag.phase {
                    DiagPhase::Connected => self.diag.drop_connection(),
                    _ => {},
                }
                self.camera_published = false;
                self.step = RunStep::Deciding;
                RunAction::ReadDesired
            },
            RunEvent::Desired(state) => {
                // While no connection is wanted the thread is intentionally
                // idle, not in an error state.
                match state {
                    NeoCamThreadState::Connected => {},
                    NeoCamThreadState::Disconnected => {
                        self.diag.phase = DiagPhase::Idle;
                        self.diag.connected_since = None;
                    },
                }
                self.step = RunStep::AwaitingConnect;
                RunAction::AwaitConnect
            },
            RunEvent::ConnectWanted { now } => {
                self.diag.drop_connection();
                self.step = RunStep::InSession { started: now };
                self.session = SessionStep::Fresh;
                RunAction::RunSession
            },
            RunEvent::StateLost(failure) => {
                self.step = RunStep::Ended;
                RunAction::Return(Err(failure))
            },
            RunEvent::Interrupted => {
                self.diag.drop_connection();
                self.camera_published = false;
                self.step = RunStep::Deciding;
                RunAction::ReadDesired
            },
            RunEvent::SessionEnded { result, now } => {
                let started: u64 = match self.step {
                    RunStep::InSession { started } => started,
                    _ => vstd::pervasive::unreached(),
                };
                self.end_session(started, result, now)
            },
            RunEvent::Waited => {
                self.step = RunStep::Deciding;
                RunAction::ReadDesired
            },
        }
    }

    /// Decides what follows the end of a session.
    fn end_session<B>(&mut self, started: u64, result: Result<(), Failure<B>>, now: u64) -> (action:
        RunAction<B>)
        requires
            old(self).wf(),
            old(self).step is InSession,
            old(self).session is Over,
        ensures
            final(self).wf(),
            (*final(self), action) == old(self).after_session(started, result, now),
    {
        self.camera_published = false;
        let lasted: u64 = if now >= started {
            now - started
        } else {
            0
        };
        if lasted > STABLE_NANOS {
            // The session lasted long enough to be considered a success.
            self.backoff_ms = MIN_BACKOFF_MS;
            self.diag.reconnect_attempts = 0;
        }
        if self.backoff_ms > MAX_BACKOFF_MS {
            self.backoff_ms = MAX_BACKOFF_MS;
        }
        match result {
            Ok(_) => {
                self.diag.phase = DiagPhase::Stopped;
                self.diag.connected_since = None;
                self.cancelled = true;
                self.step = RunStep::Ended;
                RunAction::Return(Ok(()))
            },
            Err(failure) => {
                self.diag.connected_since = None;
                self.diag.last_error = Some(failure.text.clone());
                if failure.is_login_rejection() {
                    self.diag.phase = DiagPhase::LoginFailed;
                    self.cancelled = true;
                    self.step = RunStep::Ended;
                    RunAction::Return(Err(failure))
                } else {
                    self.diag.phase = DiagPhase::Reconnecting;
                    if self.diag.reconnect_attempts < u32::MAX {
                        self.diag.reconnect_attempts = self.diag.reconnect_attempts + 1;
                    }
                    let millis: u64 = self.backoff_ms;
                    self.backoff_ms = 2 * millis;
                    self.step = RunStep::BackingOff;
                    RunAction::Sleep { millis }
                }
            },
        }
    }

    /// Lets go of the thread: its dependants are told to stop.
    pub fn detach(&mut self)
        ensures
            *final(self) == (NeoCamThread { cancelled: true, ..*old(self) }),
            old(self).wf() ==> final(self).wf(),
    {
        self.cancelled = true;
    }

    /// Whether `event` can happen in the session now.
    pub open spec fn session_accepts<B>(self, event: SessionEvent<B>) -> bool {
        self.step is InSession && match event {
            SessionEvent::Begin => self.session is Fresh,
            SessionEvent::LoggedIn(_) => self.session is LoggingIn,
            SessionEvent::Waited { .. } => self.session is Settling || self.session is Resettling,
            SessionEvent::ClockDone(_) => self.session is SettingClock,
            SessionEvent::Cancelled => self.session is Watching,
            SessionEvent::Disconnected(_) => self.session is Watching,
            SessionEvent::Pinged(_) => self.session matches SessionStep::Watching { pinging, .. }
                && pinging,
            SessionEvent::LoggedOut => self.session is LoggingOut,
            SessionEvent::ShutDown => self.session is ShuttingDown,
        }
    }

    /// The session goes on at `session`, asking for `action`.
    pub open spec fn session_goes_on<B>(
        self,
        session: SessionStep,
        action: SessionAction<B>,
    ) -> (NeoCamThread, SessionAction<B>) {
        (NeoCamThread { session, ..self }, action)
    }

    /// The session is over with `failure`.
    pub open spec fn session_fails<B>(self, failure: Failure<B>) -> (
        NeoCamThread,
        SessionAction<B>,
    ) {
        self.session_goes_on(
            SessionStep::Over(SessionEnd::of_failure(failure)),
            SessionAction::Return(Err(SessionFailure::Call(failure))),
        )
    }

    /// The session after a ping that went as `outcome` says, when `missed` pings
    /// in a row had gone unanswered, and what the session asks for.
    pub open spec fn after_ping<B>(self, missed: u32, outcome: PingOutcome<B>) -> (
        NeoCamThread,
        SessionAction<B>,
    ) {
        match outcome {
            PingOutcome::Answered(Ok(_)) => self.session_goes_on(
                SessionStep::Watching { missed: 0, pinging: true },
                SessionAction::Watch { ping: Some(ping_timing()) },
            ),
            PingOutcome::Answered(Err(failure)) => if failure.is_unintelligible() {
                self.session_goes_on(
                    SessionStep::Watching { missed, pinging: false },
                    SessionAction::Watch { ping: None },
                )
            } else {
                self.session_fails(failure)
            },
            PingOutcome::TimedOut => if missed < MAX_MISSED_PINGS {
                self.session_goes_on(
                    SessionStep::Watching { missed: (missed + 1) as u32, pinging: true },
                    SessionAction::Watch { ping: Some(ping_timing()) },
                )
            } else {
                self.session_goes_on(
                    SessionStep::Over(SessionEnd::PingsLost),
                    SessionAction::Return(Err(SessionFailure::PingsLost { message: PING_LOST })),
                )
            },
        }
    }

    /// The thread after `event` in its session, and what the session asks for.
    pub open spec fn session_next<B>(self, event: SessionEvent<B>) -> (
        NeoCamThread,
        SessionAction<B>,
    ) {
        match event {
            SessionEvent::Begin => self.session_goes_on(
                SessionStep::LoggingIn,
                SessionAction::LogIn,
            ),
            SessionEvent::LoggedIn(Err(failure)) => self.session_fails(failure),
            SessionEvent::LoggedIn(Ok(_)) => self.session_goes_on(
                SessionStep::Settling,
                SessionAction::Sleep { millis: SETTLE_MS },
            ),
            SessionEvent::ClockDone(_) => self.session_goes_on(
                SessionStep::Resettling,
                SessionAction::Sleep { millis: SETTLE_MS },
            ),
            SessionEvent::Waited { now } => if self.session is Settling {
                self.session_goes_on(SessionStep::SettingClock, SessionAction::UpdateTime)
            } else {
                (
                    NeoCamThread {
                        session: SessionStep::Watching { missed: 0, pinging: true },
                        diag: CameraDiagnostics {
                            phase: DiagPhase::Connected,
                            connected_since: Some(now),
                            last_error: None,
                            ..self.diag
                        },
                        camera_published: true,
                        ..self
                    },
                    SessionAction::Watch { ping: Some(ping_timing()) },
                )
            },
            SessionEvent::Cancelled | SessionEvent::Disconnected(Ok(_)) => self.session_goes_on(
                SessionStep::LoggingOut,
                SessionAction::LogOut,
            ),
            SessionEvent::Disconnected(Err(failure)) => self.session_fails(failure),
            SessionEvent::Pinged(outcome) => self.after_ping(
                self.session->Watching_missed,
                outcome,
            ),
            SessionEvent::LoggedOut => self.session_goes_on(
                SessionStep::ShuttingDown,
                SessionAction::ShutDown,
            ),
            SessionEvent::ShutDown => self.session_goes_on(
                SessionStep::Over(SessionEnd::Well),
                SessionAction::Return(Ok(())),
            ),
        }
    }

    /// Runs one session with the camera: one step of it.
    pub fn run_camera<B>(&mut self, event: SessionEvent<B>) -> (action: SessionAction<B>)
        requires
            old(self).wf(),
            old(self).session_accepts(event),
        ensures
            final(self).wf(),
            (*final(self), action) == old(self).session_next(event),
    {
        match event {
            SessionEvent::Begin => {
                self.session = SessionStep::LoggingIn;
                SessionAction::LogIn
            },
            SessionEvent::LoggedIn(result) => match result {
                Ok(_) => {
                    // Some calls fail while the camera is waking up.
                    self.session = SessionStep::Settling;
                    SessionAction::Sleep { millis: SETTLE_MS }
                },
                Err(failure) => {
                    self.session = SessionStep::Over(SessionEnd::from_failure(&failure));
                    SessionAction::Return(Err(SessionFailure::Call(failure)))
                },
            },
            SessionEvent::Waited { now } => match self.session {
                SessionStep::Settling => {
                    self.session = SessionStep::SettingClock;
                    SessionAction::UpdateTime
                },
                _ => {
                    self.camera_published = true;
                    self.diag.phase = DiagPhase::Connected;
                    self.diag.connected_since = Some(now);
                    self.diag.last_error = None;
                    self.session = SessionStep::Watching { missed: 0, pinging: true };
                    SessionAction::Watch { ping: Some(PingTiming::new()) }
                },
            },
            SessionEvent::ClockDone(_) => {
                // A clock that could not be set is no reason to give up.
                self.session = SessionStep::Resettling;
                SessionAction::Sleep { millis: SETTLE_MS }
            },
            SessionEvent::Cancelled => {
                self.session = SessionStep::LoggingOut;
                SessionAction::LogOut
            },
            SessionEvent::Disconnected(result) => match result {
                Ok(_) => {
                    self.session = SessionStep::LoggingOut;
                    SessionAction::LogOut
                },
                Err(failure) => {
                    self.session = SessionStep::Over(SessionEnd::from_failure(&failure));
                    SessionAction::Return(Err(SessionFailure::Call(failure)))
                },
            },
            SessionEvent::Pinged(outcome) => {
                let missed: u32 = match self.session {
                    SessionStep::Watching { missed, .. } => missed,
                    _ => vstd::pervasive::unreached(),
                };
                self.take_ping(missed, outcome)
            },
            SessionEvent::LoggedOut => {
                self.session = SessionStep::ShuttingDown;
                SessionAction::ShutDown
            },
            SessionEvent::ShutDown => {
                self.session = SessionStep::Over(SessionEnd::Well);
                SessionAction::Return(Ok(()))
            },
        }
    }

    /// Decides what follows a ping.
    fn take_ping<B>(&mut self, missed: u32, outcome: PingOutcome<B>) -> (action: SessionAction<B>)
        requires
            old(self).wf(),
            old(self).step is InSession,
            old(self).session.is_live(),
            missed <= MAX_MISSED_PINGS,
        ensures
            final(self).wf(),
            (*final(self), action) == old(self).after_ping(missed, outcome),
    {
        match outcome {
            PingOutcome::Answered(result) => match result {
                Ok(_) => {
                    self.session = SessionStep::Watching { missed: 0, pinging: true };
                    SessionAction::Watch { ping: Some(PingTiming::new()) }
                },
                Err(failure) => if failure.is_unintelligible_reply() {
                    // The camera does not support pings.
                    self.session = SessionStep::Watching { missed, pinging: false };
                    SessionAction::Watch { ping: None }
                } else {
                    self.session = SessionStep::Over(SessionEnd::from_failure(&failure));
                    SessionAction::Return(Err(SessionFailure::Call(failure)))
                },
            },
            PingOutcome::TimedOut => if missed < MAX_MISSED_PINGS {
                self.session = SessionStep::Watching { missed: missed + 1, pinging: true };
                SessionAction::Watch { ping: Some(PingTiming::new()) }
            } else {
                self.session = SessionStep::Over(SessionEnd::PingsLost);
                SessionAction::Return(Err(SessionFailure::PingsLost { message: PING_LOST }))
            },
        }
    }
}

/// An event of the thread: of its loop, or of its session.
pub enum ThreadEvent<B> {
    Run(RunEvent<B>),
    Session(SessionEvent<B>),
}

/// The wait before the next attempt after `failures` failed attempts in a row:
/// it doubles with each of them, up to the longest wait.
pub open spec fn delay_after(failures: nat) -> int {
    let doubled = MIN_BACKOFF_MS * pow2(failures);
    if doubled > MAX_BACKOFF_MS {
        MAX_BACKOFF_MS as int
    } else {
        doubled
    }
}

impl NeoCamThread {
    /// Whether `event` can happen now.
    pub open spec fn can<B>(self, event: ThreadEvent<B>) -> bool {
        match event {
            ThreadEvent::Run(e) => self.accepts(e),
            ThreadEvent::Session(e) => self.session_accepts(e),
        }
    }

    /// The thread after `event`.
    pub open spec fn then_on<B>(self, event: ThreadEvent<B>) -> NeoCamThread {
        match event {
            ThreadEvent::Run(e) => self.next(e).0,
            ThreadEvent::Session(e) => self.session_next(e).0,
        }
    }

    /// The thread after `events`.
    pub open spec fn after<B>(self, events: Seq<ThreadEvent<B>>) -> NeoCamThread
        decreases events.len(),
    {
        if events.len() == 0 {
            self
        } else {
            self.after(events.drop_last()).then_on(events.last())
        }
    }

    /// Whether each of `events` can happen when its turn comes.
    pub open spec fn admits<B>(self, events: Seq<ThreadEvent<B>>) -> bool
        decreases events.len(),
    {
        events.len() == 0 || (self.admits(events.drop_last()) && self.after(
            events.drop_last(),
        ).can(events.last()))
    }

    /// Whether `event` ends a session that lasted long enough to be a success.
    pub open spec fn ends_stable_session<B>(self, event: ThreadEvent<B>) -> bool {
        event matches ThreadEvent::Run(RunEvent::SessionEnded { now, .. }) && is_stable(
            self.step->started,
            now,
        )
    }

    /// Whether `event` is the loss of a session that is to be tried again.
    pub open spec fn loses_session<B>(self, event: ThreadEvent<B>) -> bool {
        event matches ThreadEvent::Run(RunEvent::SessionEnded { result: Err(failure), .. })
            && !failure.rejects_login()
    }

    /// The sessions lost in the course of `events` since the last that lasted
    /// long enough to be a success; that one counts too if it was lost.
    pub open spec fn losses<B>(self, events: Seq<ThreadEvent<B>>) -> nat
        decreases events.len(),
    {
        if events.len() == 0 {
            0
        } else {
            let before = self.after(events.drop_last());
            let earlier = if before.ends_stable_session(events.last()) {
                0
            } else {
                self.losses(events.drop_last())
            };
            if before.loses_session(events.last()) {
                earlier + 1
            } else {
                earlier
            }
        }
    }

    /// The sessions lost as [`NeoCamThread::losses`] counts them, but only since
    /// the current run began.
    pub open spec fn losses_in_run<B>(self, events: Seq<ThreadEvent<B>>) -> nat
        decreases events.len(),
    {
        if events.len() == 0 {
            0
        } else {
            let before = self.after(events.drop_last());
            let earlier = if before.ends_stable_session(events.last()) || events.last()
                == ThreadEvent::Run(RunEvent::<B>::Begin) {
                0
            } else {
                self.losses_in_run(events.drop_last())
            };
            if before.loses_session(events.last()) {
                earlier + 1
            } else {
                earlier
            }
        }
    }

    /// What the session returned upon the last of `events`, if it did.
    pub open spec fn session_return<B>(self, events: Seq<ThreadEvent<B>>) -> Option<
        Result<(), SessionFailure<B>>,
    > {
        if events.len() == 0 {
            None
        } else {
            match events.last() {
                ThreadEvent::Run(_) => None,
                ThreadEvent::Session(e) => match self.after(events.drop_last()).session_next(e).1 {
                    SessionAction::Return(result) => Some(result),
                    _ => None,
                },
            }
        }
    }

    /// The session after `n` pings in a row that went unanswered.
    pub open spec fn after_timeouts<B>(self, n: nat) -> NeoCamThread
        decreases n,
    {
        if n == 0 {
            self
        } else {
            self.after_timeouts::<B>((n - 1) as nat).session_next(
                SessionEvent::<B>::Pinged(PingOutcome::TimedOut),
            ).0
        }
    }
}

/// What holds of a thread at all times goes on holding, whatever happens.
pub proof fn law_thread_stays_well_formed<B>(thread: NeoCamThread, events: Seq<ThreadEvent<B>>)
    requires
        thread.wf(),
        thread.admits(events),
    ensures
        thread.after(events).wf(),
    decreases events.len(),
{
    if events.len() > 0 {
        law_thread_stays_well_formed(thread, events.drop_last());
    }
}

proof fn lemma_doubling(n: nat)
    ensures
        pow2(0) == 1,
        pow2(n + 1) == 2 * pow2(n),
        pow2(n) >= 1,
{
    lemma2_to64();
    lemma_pow2_unfold(n + 1);
    lemma_pow2_pos(n);
}

/// While a run has not ended, its next wait follows from the sessions that it
/// lost since the last stable connection alone.
proof fn lemma_losses_decide_wait<B>(events: Seq<ThreadEvent<B>>)
    requires
        NeoCamThread::initial().admits(events),
        NeoCamThread::initial().after(events).step !is Ended,
    ensures
        ({
            let doubled = MIN_BACKOFF_MS * pow2(NeoCamThread::initial().losses_in_run(events));
            NeoCamThread::initial().after(events).backoff_ms == (if doubled > 2 * MAX_BACKOFF_MS {
                2 * MAX_BACKOFF_MS
            } else {
                doubled
            })
        }),
    decreases events.len(),
{
    lemma_doubling(0);
    if events.len() > 0 {
        let start = NeoCamThread::initial();
        let earlier = events.drop_last();
        if start.after(earlier).step is Ended {
            assert(start.after(earlier).can(events.last()));
        } else {
            lemma_losses_decide_wait(earlier);
            lemma_doubling(start.losses_in_run(earlier));
        }
    }
}

/// The number of failed attempts that is published is the number of sessions
/// lost since the last stable connection, as far as it can be counted.
pub proof fn law_attempts_count_losses<B>(events: Seq<ThreadEvent<B>>)
    requires
        NeoCamThread::initial().admits(events),
    ensures
        NeoCamThread::initial().after(events).diag.reconnect_attempts == (
        if NeoCamThread::initial().losses(events) > u32::MAX {
            u32::MAX as nat
        } else {
            NeoCamThread::initial().losses(events)
        }),
    decreases events.len(),
{
    if events.len() > 0 {
        law_attempts_count_losses(events.drop_last());
    }
}

/// The wait before another attempt starts at 50 milliseconds, doubles with
/// every session that the run lost since the last stable connection, and never
/// exceeds five seconds.
pub proof fn law_backoff_doubles<B>(events: Seq<ThreadEvent<B>>, failure: Failure<B>, now: u64)
    requires
        NeoCamThread::initial().admits(events),
        NeoCamThread::initial().after(events).accepts(
            RunEvent::SessionEnded { result: Err(failure), now },
        ),
        !failure.rejects_login(),
    ensures
        ({
            let thread = NeoCamThread::initial().after(events);
            let losses = if is_stable(thread.step->started, now) {
                0
            } else {
                NeoCamThread::initial().losses_in_run(events)
            };
            let action = thread.next(RunEvent::SessionEnded { result: Err(failure), now }).1;
            &&& action is Sleep
            &&& action->millis == delay_after(losses)
            &&& MIN_BACKOFF_MS <= action->millis <= MAX_BACKOFF_MS
        }),
{
    let start = NeoCamThread::initial();
    lemma_losses_decide_wait(events);
    lemma_doubling(0);
    lemma_doubling(start.losses_in_run(events));
}

/// A run decides on what its session returned: the session returned just
/// before, it failed just when `result` says so, and what it failed with is what
/// `result` reports.
pub proof fn law_run_decides_on_its_session<B>(
    events: Seq<ThreadEvent<B>>,
    result: Result<(), Failure<B>>,
    now: u64,
)
    requires
        NeoCamThread::initial().admits(events),
        NeoCamThread::initial().after(events).accepts(RunEvent::SessionEnded { result, now }),
    ensures
        ({
            let returned = NeoCamThread::initial().session_return(events);
            &&& returned is Some
            &&& returned->0 is Ok <==> result is Ok
            &&& result matches Err(failure) ==> returned->0->Err_0.is_reported_by(failure)
        }),
{
    if events.len() > 0 {
        assert(NeoCamThread::initial().after(events.drop_last()).can(events.last()));
    }
}

/// A run succeeds only after a session that returned without an error. It fails
/// only with the failure of a session whose login was rejected, or because it
/// will never be known whether a connection is wanted; the thread then tells
/// nobody to stop, and reports that it is idle if none was wanted.
pub proof fn law_run_ends_as_its_session_did<B>(events: Seq<ThreadEvent<B>>, event: RunEvent<B>)
    requires
        NeoCamThread::initial().admits(events),
        NeoCamThread::initial().after(events).accepts(event),
        NeoCamThread::initial().after(events).next(event).1 is Return,
    ensures
        ({
            let thread = NeoCamThread::initial().after(events);
            let returned = NeoCamThread::initial().session_return(events);
            let (ended, action) = thread.next(event);
            match action->Return_0 {
                Ok(_) => returned == Some(Ok::<(), SessionFailure<B>>(())),
                Err(failure) => {
                    ||| {
                        &&& returned matches Some(Err(session))
                        &&& session.rejects_login()
                        &&& session.is_reported_by(failure)
                    }
                    ||| {
                        &&& event == RunEvent::StateLost(failure)
                        &&& ended.cancelled == thread.cancelled
                        &&& ended.diag == thread.diag
                        &&& events.last() matches ThreadEvent::Run(RunEvent::Desired(seen))
                        &&& seen is Disconnected ==> ended.diag.phase is Idle
                    }
                },
            }
        }),
{
    if let RunEvent::SessionEnded { result, now } = event {
        law_run_decides_on_its_session(events, result, now);
    }
    if event is StateLost {
        assert(NeoCamThread::initial().after(events.drop_last()).can(events.last()));
    }
}

/// Nothing leaves a session but its end, a changed configuration or wish, and
/// another run: that the configuration or the wish can no longer change neither
/// ends nor restarts an attempt.
pub proof fn law_what_leaves_a_session<B>(thread: NeoCamThread, event: RunEvent<B>)
    requires
        thread.step is InSession,
        thread.accepts(event),
    ensures
        event is SessionEnded || event is Interrupted || event is Begin,
{
}

/// A thread that seeks a connection reports that it is connecting, with no
/// start, from when the last one is gone until a camera is advertised.
pub proof fn law_seeking_means_connecting<B>(thread: NeoCamThread, event: RunEvent<B>)
    requires
        thread.wf(),
        thread.accepts(event),
        event is Interrupted || event is ConnectWanted,
    ensures
        thread.next(event).0.diag.phase is Connecting,
        thread.next(event).0.diag.connected_since is None,
        !thread.next(event).0.camera_published,
{
}

/// A rejected login is fatal: the run ends with the failure and is not tried
/// again, and the thread tells its dependants to stop. Only another run can follow.
pub proof fn law_rejected_login_is_final<B>(thread: NeoCamThread, failure: Failure<B>, now: u64)
    requires
        thread.wf(),
        thread.accepts(RunEvent::SessionEnded { result: Err(failure), now }),
        failure.rejects_login(),
    ensures
        ({
            let (after, action) = thread.next(RunEvent::SessionEnded { result: Err(failure), now });
            &&& action == RunAction::Return(Err(failure))
            &&& after.diag.phase is LoginFailed
            &&& after.diag.last_error == Some(failure.text)
            &&& after.cancelled
            &&& after.step is Ended
            &&& forall|event: ThreadEvent<B>| #[trigger]
                after.can(event) ==> event == ThreadEvent::Run(RunEvent::<B>::Begin)
        }),
{
}

/// Every other failure of a session is tried again.
pub proof fn law_other_failures_are_retried<B>(thread: NeoCamThread, failure: Failure<B>, now: u64)
    requires
        thread.wf(),
        thread.accepts(RunEvent::SessionEnded { result: Err(failure), now }),
        !failure.rejects_login(),
    ensures
        ({
            let (lost, wait) = thread.next(RunEvent::SessionEnded { result: Err(failure), now });
            let (again, look) = lost.next(RunEvent::<B>::Waited);
            &&& wait is Sleep
            &&& lost.diag.phase is Reconnecting
            &&& lost.diag.last_error == Some(failure.text)
            &&& lost.cancelled == thread.cancelled
            &&& lost.accepts(RunEvent::<B>::Waited)
            &&& look is ReadDesired
            &&& again.step is Deciding
        }),
{
}

/// While no connection is wanted the thread reports that it is idle, without
/// touching its count of failed attempts, and waits.
pub proof fn law_unwanted_means_idle<B>(thread: NeoCamThread)
    requires
        thread.wf(),
        thread.step is Deciding,
    ensures
        ({
            let (after, action) = thread.next(
                RunEvent::<B>::Desired(NeoCamThreadState::Disconnected),
            );
            &&& action is AwaitConnect
            &&& after.diag.phase is Idle
            &&& after.diag.connected_since is None
            &&& after.diag.reconnect_attempts == thread.diag.reconnect_attempts
            &&& after.diag.last_error == thread.diag.last_error
        }),
{
}

/// However a session ends or is given up, no camera is advertised afterwards.
pub proof fn law_no_camera_after_session<B>(thread: NeoCamThread, event: RunEvent<B>)
    requires
        thread.wf(),
        thread.step is InSession,
        thread.accepts(event),
    ensures
        !thread.next(event).0.camera_published,
{
}

/// A session neither ends the thread nor touches its waits and counts.
pub proof fn law_session_leaves_the_loop_alone<B>(thread: NeoCamThread, event: SessionEvent<B>)
    requires
        thread.session_accepts(event),
    ensures
        thread.session_next(event).0.step == thread.step,
        thread.session_next(event).0.backoff_ms == thread.backoff_ms,
        thread.session_next(event).0.diag.reconnect_attempts == thread.diag.reconnect_attempts,
        thread.session_next(event).0.cancelled == thread.cancelled,
{
}

/// A connection survives five pings in a row that go unanswered; a sixth is its end.
pub proof fn law_ping_tolerance<B>(thread: NeoCamThread, n: nat)
    requires
        thread.wf(),
        thread.step is InSession,
        thread.session == (SessionStep::Watching { missed: 0, pinging: true }),
        n <= MAX_MISSED_PINGS,
    ensures
        thread.after_timeouts::<B>(n) == (NeoCamThread {
            session: SessionStep::Watching { missed: n as u32, pinging: true },
            ..thread
        }),
        n == MAX_MISSED_PINGS ==> thread.after_timeouts::<B>(n).session_next(
            SessionEvent::<B>::Pinged(PingOutcome::TimedOut),
        ).1 == SessionAction::Return(Err(SessionFailure::<B>::PingsLost { message: PING_LOST })),
    decreases n,
{
    if n > 0 {
        law_ping_tolerance::<B>(thread, (n - 1) as nat);
    }
}

/// An answered ping makes up for all that went unanswered.
pub proof fn law_answer_resets_pings<B>(thread: NeoCamThread)
    requires
        thread.wf(),
        thread.step is InSession,
        thread.session matches SessionStep::Watching { pinging, .. } && pinging,
    ensures
        thread.session_next(SessionEvent::<B>::Pinged(PingOutcome::Answered(Ok(())))) == (
            NeoCamThread {
                session: SessionStep::Watching { missed: 0, pinging: true },
                ..thread
            },
            SessionAction::<B>::Watch { ping: Some(ping_timing()) },
        ),
{
}

/// A camera that cannot make sense of a ping is not pinged again in this
/// session, and no ping ends it.
pub proof fn law_unsupported_pings_stop<B>(
    thread: NeoCamThread,
    failure: Failure<B>,
    ping: PingOutcome<B>,
)
    requires
        thread.wf(),
        thread.step is InSession,
        thread.session matches SessionStep::Watching { pinging, .. } && pinging,
        failure.is_unintelligible(),
    ensures
        ({
            let (after, action) = thread.session_next(
                SessionEvent::Pinged(PingOutcome::Answered(Err(failure))),
            );
            &&& action == (SessionAction::<B>::Watch { ping: None })
            &&& after.session is Watching
            &&& !after.session_accepts(SessionEvent::Pinged(ping))
        }),
{
}

/// A session that ends well ends with a logout and then the closing of the
/// connection; a session that fails does neither.
pub proof fn law_clean_end_logs_out<B>(thread: NeoCamThread, event: SessionEvent<B>)
    requires
        thread.wf(),
        thread.session_accepts(event),
    ensures
        ({
            let (after, action) = thread.session_next(event);
            &&& action is Return <==> after.session is Over
            &&& action == SessionAction::<B>::Return(Ok(())) <==> thread.session is ShuttingDown
            &&& action is ShutDown <==> thread.session is LoggingOut
            &&& thread.session is LoggingOut || thread.session is ShuttingDown
                ==> thread.camera_published
        }),
{
}

/// A thread begins without a run, a session, a camera or an order to stop, with
/// the shortest wait, and reports that it is connecting, with no start, no failed
/// attempts and no error.
pub proof fn law_thread_begins_with_nothing()
    ensures
        ({
            let thread = NeoCamThread::initial();
            &&& thread.step is Fresh
            &&& thread.session is Fresh
            &&& thread.backoff_ms == 50
            &&& !thread.camera_published
            &&& !thread.cancelled
            &&& thread.diag == CameraDiagnostics::initial()
            &&& thread.diag.phase is Connecting
            &&& thread.diag.connected_since is None
            &&& thread.diag.reconnect_attempts == 0
            &&& thread.diag.last_error is None
        }),
{
}

/// A run can begin at any time. It waits the shortest time at first, advertises
/// no camera, reports no connection, and else finds everything as it was left;
/// it looks whether a connection is wanted.
pub proof fn law_run_begins_anew<B>(thread: NeoCamThread)
    ensures
        ({
            let (after, action) = thread.next(RunEvent::<B>::Begin);
            &&& thread.accepts(RunEvent::<B>::Begin)
            &&& action is ReadDesired
            &&& after.step is Deciding
            &&& after.backoff_ms == 50
            &&& !after.camera_published
            &&& after.session == thread.session
            &&& after.cancelled == thread.cancelled
            &&& after.diag.reconnect_attempts == thread.diag.reconnect_attempts
            &&& after.diag.last_error == thread.diag.last_error
            &&& thread.diag.phase is Connected ==> after.diag.phase is Connecting
                && after.diag.connected_since is None
            &&& thread.diag.phase !is Connected ==> after.diag == thread.diag
        }),
{
}

/// Looking whether a connection is wanted is always followed by waiting until one
/// is. If one is wanted already nothing else changes; if none is, the thread
/// reports that it is idle, with no start.
pub proof fn law_wish_is_waited_for<B>(thread: NeoCamThread, desired: NeoCamThreadState)
    requires
        thread.step is Deciding,
    ensures
        ({
            let (after, action) = thread.next(RunEvent::<B>::Desired(desired));
            &&& thread.accepts(RunEvent::<B>::Desired(desired))
            &&& action is AwaitConnect
            &&& desired is Connected ==> after == (NeoCamThread {
                step: RunStep::AwaitingConnect,
                ..thread
            })
            &&& desired is Disconnected ==> after == (NeoCamThread {
                step: RunStep::AwaitingConnect,
                diag: CameraDiagnostics {
                    phase: DiagPhase::Idle,
                    connected_since: None,
                    reconnect_attempts: thread.diag.reconnect_attempts,
                    last_error: thread.diag.last_error,
                },
                ..thread
            })
        }),
{
}

/// A connection that is wanted is sought at once, in a new session that is
/// reckoned from the very moment at which it was wanted. A wish that will never be
/// known ends the run with that failure and changes nothing else.
pub proof fn law_session_is_reckoned_from_the_wish<B>(
    thread: NeoCamThread,
    now: u64,
    failure: Failure<B>,
)
    requires
        thread.step is AwaitingConnect,
    ensures
        thread.accepts(RunEvent::<B>::ConnectWanted { now }),
        thread.next(RunEvent::<B>::ConnectWanted { now }) == (
            NeoCamThread {
                step: RunStep::InSession { started: now },
                session: SessionStep::Fresh,
                diag: CameraDiagnostics {
                    phase: DiagPhase::Connecting,
                    connected_since: None,
                    reconnect_attempts: thread.diag.reconnect_attempts,
                    last_error: thread.diag.last_error,
                },
                ..thread
            },
            RunAction::<B>::RunSession,
        ),
        thread.accepts(RunEvent::StateLost(failure)),
        thread.next(RunEvent::StateLost(failure)) == (
            NeoCamThread { step: RunStep::Ended, ..thread },
            RunAction::<B>::Return(Err(failure)),
        ),
{
}

/// A session can be interrupted at any point of it: the camera is no longer
/// advertised, the thread reports that it is connecting, and looks again whether
/// a connection is wanted, without waiting and without counting a failure.
pub proof fn law_interruption_counts_no_failure<B>(thread: NeoCamThread)
    requires
        thread.step is InSession,
    ensures
        thread.accepts(RunEvent::<B>::Interrupted),
        thread.next(RunEvent::<B>::Interrupted) == (
            NeoCamThread {
                step: RunStep::Deciding,
                diag: CameraDiagnostics {
                    phase: DiagPhase::Connecting,
                    connected_since: None,
                    reconnect_attempts: thread.diag.reconnect_attempts,
                    last_error: thread.diag.last_error,
                },
                camera_published: false,
                ..thread
            },
            RunAction::<B>::ReadDesired,
        ),
{
}

/// A session that lasted more than a minute was a success: it makes the wait start
/// over at 50 milliseconds and wipes out the failed attempts. A session that did
/// not leaves both as they were. A failed session is followed by that wait, five
/// seconds at most, and doubles it for the next time.
pub proof fn law_failed_session_is_waited_out<B>(
    thread: NeoCamThread,
    started: u64,
    failure: Failure<B>,
    now: u64,
)
    requires
        thread.wf(),
        thread.step == (RunStep::InSession { started }),
        thread.accepts(RunEvent::SessionEnded { result: Err(failure), now }),
        failure.cause != Some(Error::<B>::CameraLoginFail),
    ensures
        ({
            let stable = now > started + 60_000_000_000;
            let (after, action) = thread.next(RunEvent::SessionEnded { result: Err(failure), now });
            let wait = if stable {
                50int
            } else if thread.backoff_ms > 5000 {
                5000
            } else {
                thread.backoff_ms as int
            };
            let counted = if stable {
                0int
            } else {
                thread.diag.reconnect_attempts as int
            };
            &&& action is Sleep
            &&& action->millis == wait
            &&& after.backoff_ms == 2 * wait
            &&& after.step is BackingOff
            &&& after.session == thread.session
            &&& !after.camera_published
            &&& after.cancelled == thread.cancelled
            &&& after.diag.phase is Reconnecting
            &&& after.diag.connected_since is None
            &&& after.diag.last_error == Some(failure.text)
            &&& after.diag.reconnect_attempts == (if counted == u32::MAX {
                counted
            } else {
                counted + 1
            })
            &&& after.accepts(RunEvent::<B>::Waited)
            &&& after.next(RunEvent::<B>::Waited) == (
                NeoCamThread { step: RunStep::Deciding, ..after },
                RunAction::<B>::ReadDesired,
            )
        }),
{
}

/// A session that ended well ends the run well, and one whose login was rejected
/// ends it with that failure; either way the dependants are told to stop, no
/// connection is reported, and a session of more than a minute wipes out the
/// failed attempts while any other leaves them as they were.
pub proof fn law_final_session_ends_the_run<B>(
    thread: NeoCamThread,
    started: u64,
    result: Result<(), Failure<B>>,
    now: u64,
)
    requires
        thread.step == (RunStep::InSession { started }),
        thread.accepts(RunEvent::SessionEnded { result, now }),
        result matches Err(failure) ==> failure.cause == Some(Error::<B>::CameraLoginFail),
    ensures
        ({
            let (after, action) = thread.next(RunEvent::SessionEnded { result, now });
            &&& result is Ok ==> action == RunAction::<B>::Return(Ok(()))
            &&& result matches Err(failure) ==> action == RunAction::<B>::Return(Err(failure))
            &&& after.step is Ended
            &&& after.cancelled
            &&& !after.camera_published
            &&& after.diag.connected_since is None
            &&& after.diag.reconnect_attempts == (if now > started + 60_000_000_000 {
                0
            } else {
                thread.diag.reconnect_attempts
            })
            &&& result is Ok ==> after.diag.phase is Stopped && after.diag.last_error
                == thread.diag.last_error
            &&& result matches Err(failure) ==> after.diag.phase is LoginFailed
                && after.diag.last_error == Some(failure.text)
        }),
{
}

/// The moment at which a connection was last wanted in the course of `events`.
pub open spec fn wanted_at<B>(events: Seq<ThreadEvent<B>>) -> Option<u64>
    decreases events.len(),
{
    if events.len() == 0 {
        None
    } else {
        match events.last() {
            ThreadEvent::Run(RunEvent::ConnectWanted { now }) => Some(now),
            _ => wanted_at(events.drop_last()),
        }
    }
}

/// However much happens in a session, its length is reckoned from the moment at
/// which the connection was last wanted.
pub proof fn law_session_length_is_from_the_last_wish<B>(events: Seq<ThreadEvent<B>>)
    requires
        NeoCamThread::initial().admits(events),
        NeoCamThread::initial().after(events).step is InSession,
    ensures
        wanted_at(events) == Some(NeoCamThread::initial().after(events).step->started),
    decreases events.len(),
{
    if events.len() > 0 {
        let before = NeoCamThread::initial().after(events.drop_last());
        assert(before.can(events.last()));
        if before.step is InSession {
            law_session_length_is_from_the_last_wish(events.drop_last());
        }
    }
}

/// The whole of a failed attempt, by the moments that the events tell: a session
/// that ends more than a minute after the connection was last wanted is followed
/// by a wait of 50 milliseconds and counts as the first failure; any other is
/// followed by the wait that doubled with each failure before, and counts as one
/// more.
pub proof fn law_attempt_by_its_moments<B>(
    events: Seq<ThreadEvent<B>>,
    failure: Failure<B>,
    now: u64,
)
    requires
        NeoCamThread::initial().admits(events),
        NeoCamThread::initial().after(events).accepts(
            RunEvent::SessionEnded { result: Err(failure), now },
        ),
        failure.cause != Some(Error::<B>::CameraLoginFail),
    ensures
        wanted_at(events) is Some,
        ({
            let before = NeoCamThread::initial().after(events);
            let (after, action) = before.next(RunEvent::SessionEnded { result: Err(failure), now });
            let stable = now > wanted_at(events)->0 + 60_000_000_000;
            &&& action is Sleep
            &&& stable ==> action->millis == 50 && after.backoff_ms == 100
                && after.diag.reconnect_attempts == 1
            &&& !stable ==> {
                &&& action->millis == (if before.backoff_ms > 5000 {
                    5000
                } else {
                    before.backoff_ms
                })
                &&& after.backoff_ms == 2 * action->millis
                &&& before.diag.reconnect_attempts < u32::MAX ==> after.diag.reconnect_attempts
                    == before.diag.reconnect_attempts + 1
                &&& before.diag.reconnect_attempts == u32::MAX ==> after.diag.reconnect_attempts
                    == u32::MAX
            }
        }),
{
    law_session_length_is_from_the_last_wish(events);
    law_thread_begins_with_nothing();
    law_thread_stays_well_formed(NeoCamThread::initial(), events);
}

/// What a session returned is what its run can be told, at any later moment: that
/// it ended well, the very failure of what it asked for, or, if too many pings
/// went unanswered, a report of any length that begins with that.
pub proof fn law_session_result_is_taken<B>(
    thread: NeoCamThread,
    event: SessionEvent<B>,
    report: Failure<B>,
    now: u64,
)
    requires
        thread.session_accepts(event),
        report.cause != Some(Error::<B>::CameraLoginFail),
        "Timed out waiting for camera ping reply"@.is_prefix_of(report.text@),
    ensures
        ({
            let (after, action) = thread.session_next(event);
            &&& action == SessionAction::<B>::Return(Ok(())) ==> after.accepts(
                RunEvent::<B>::SessionEnded { result: Ok(()), now },
            )
            &&& action matches SessionAction::Return(Err(SessionFailure::Call(failure)))
                ==> after.accepts(RunEvent::SessionEnded { result: Err(failure), now })
            &&& action matches SessionAction::Return(Err(SessionFailure::PingsLost { message }))
                ==> message@ == "Timed out waiting for camera ping reply"@ && after.accepts(
                RunEvent::SessionEnded { result: Err(report), now },
            )
        }),
{
}

/// A session begins with a login. One that fails ends the session with that
/// failure, and nothing else changes.
pub proof fn law_session_begins_with_a_login<B>(thread: NeoCamThread, failure: Failure<B>)
    requires
        thread.step is InSession,
        thread.session is Fresh,
    ensures
        ({
            let (logging_in, first) = thread.session_next(SessionEvent::<B>::Begin);
            let (over, second) = logging_in.session_next(SessionEvent::LoggedIn(Err(failure)));
            &&& thread.session_accepts(SessionEvent::<B>::Begin)
            &&& first is LogIn
            &&& logging_in == (NeoCamThread { session: SessionStep::LoggingIn, ..thread })
            &&& logging_in.session_accepts(SessionEvent::LoggedIn(Err(failure)))
            &&& logging_in.session_accepts(SessionEvent::<B>::LoggedIn(Ok(())))
            &&& second == SessionAction::<B>::Return(Err(SessionFailure::Call(failure)))
            &&& over.session is Over
            &&& over == (NeoCamThread { session: over.session, ..thread })
        }),
{
}

/// A session whose login succeeded goes live: it leaves the camera alone for two
/// seconds, deals with its clock, and whatever came of that, leaves it alone for
/// two more. Only then is the camera advertised, and the connection reported from
/// that moment, without an error; the camera is pinged every five seconds, with
/// five seconds to answer. All else is as it was.
pub proof fn law_login_goes_live<B>(
    thread: NeoCamThread,
    first: u64,
    clock: Result<(), Failure<B>>,
    now: u64,
)
    requires
        thread.step is InSession,
        thread.session is LoggingIn,
    ensures
        ({
            let (settling, a) = thread.session_next(SessionEvent::<B>::LoggedIn(Ok(())));
            let (clocking, b) = settling.session_next(SessionEvent::<B>::Waited { now: first });
            let (resettling, c) = clocking.session_next(SessionEvent::ClockDone(clock));
            let (live, d) = resettling.session_next(SessionEvent::<B>::Waited { now });
            &&& thread.session_accepts(SessionEvent::<B>::LoggedIn(Ok(())))
            &&& a == (SessionAction::<B>::Sleep { millis: 2000 })
            &&& settling == (NeoCamThread { session: settling.session, ..thread })
            &&& settling.session_accepts(SessionEvent::<B>::Waited { now: first })
            &&& b is UpdateTime
            &&& clocking == (NeoCamThread { session: clocking.session, ..thread })
            &&& clocking.session_accepts(SessionEvent::ClockDone(clock))
            &&& c == (SessionAction::<B>::Sleep { millis: 2000 })
            &&& resettling == (NeoCamThread { session: resettling.session, ..thread })
            &&& resettling.session_accepts(SessionEvent::<B>::Waited { now })
            &&& d == (SessionAction::<B>::Watch {
                ping: Some(PingTiming { interval_ms: 5000, timeout_ms: 5000 }),
            })
            &&& live == (NeoCamThread {
                session: SessionStep::Watching { missed: 0, pinging: true },
                diag: CameraDiagnostics {
                    phase: DiagPhase::Connected,
                    connected_since: Some(now),
                    reconnect_attempts: thread.diag.reconnect_attempts,
                    last_error: None,
                },
                camera_published: true,
                ..thread
            })
        }),
{
}

/// An order to stop, or an end of the connection without an error, can come
/// whenever the connection is watched, pinged or not. The session then logs out,
/// closes the connection and ends well. An end of the connection with an error
/// ends the session with that error at once.
pub proof fn law_watched_session_ends<B>(
    thread: NeoCamThread,
    missed: u32,
    pinging: bool,
    failure: Failure<B>,
)
    requires
        thread.step is InSession,
        thread.session == (SessionStep::Watching { missed, pinging }),
    ensures
        ({
            let (leaving, first) = thread.session_next(SessionEvent::<B>::Cancelled);
            let (closing, second) = leaving.session_next(SessionEvent::<B>::LoggedOut);
            let (over, third) = closing.session_next(SessionEvent::<B>::ShutDown);
            let (lost, fourth) = thread.session_next(SessionEvent::Disconnected(Err(failure)));
            &&& thread.session_accepts(SessionEvent::<B>::Cancelled)
            &&& thread.session_accepts(SessionEvent::<B>::Disconnected(Ok(())))
            &&& thread.session_accepts(SessionEvent::Disconnected(Err(failure)))
            &&& thread.session_next(SessionEvent::<B>::Disconnected(Ok(()))) == (leaving, first)
            &&& first is LogOut
            &&& leaving == (NeoCamThread { session: leaving.session, ..thread })
            &&& leaving.session_accepts(SessionEvent::<B>::LoggedOut)
            &&& second is ShutDown
            &&& closing == (NeoCamThread { session: closing.session, ..thread })
            &&& closing.session_accepts(SessionEvent::<B>::ShutDown)
            &&& third == SessionAction::<B>::Return(Ok(()))
            &&& over == (NeoCamThread { session: over.session, ..thread })
            &&& fourth == SessionAction::<B>::Return(Err(SessionFailure::Call(failure)))
            &&& lost == (NeoCamThread { session: lost.session, ..thread })
        }),
{
}

/// A pinged camera may leave five pings in a row unanswered, and each makes one
/// more; a sixth ends the session. An answer makes the count start over. A failed
/// ping ends the session with that failure, unless the camera could not make sense
/// of it: then the session goes on without pings.
pub proof fn law_ping_decides<B>(thread: NeoCamThread, missed: u32, failure: Failure<B>)
    requires
        thread.step is InSession,
        thread.session == (SessionStep::Watching { missed, pinging: true }),
        missed <= 5,
    ensures
        ({
            let pings = Some(PingTiming { interval_ms: 5000, timeout_ms: 5000 });
            let answered = SessionEvent::<B>::Pinged(PingOutcome::Answered(Ok(())));
            let failed = SessionEvent::<B>::Pinged(PingOutcome::Answered(Err(failure)));
            let timed_out = SessionEvent::<B>::Pinged(PingOutcome::TimedOut);
            let (after, action) = thread.session_next(failed);
            &&& thread.session_accepts(answered)
            &&& thread.session_accepts(failed)
            &&& thread.session_accepts(timed_out)
            &&& thread.session_next(answered) == (
                NeoCamThread {
                    session: SessionStep::Watching { missed: 0, pinging: true },
                    ..thread
                },
                SessionAction::<B>::Watch { ping: pings },
            )
            &&& missed < 5 ==> thread.session_next(timed_out) == (
                NeoCamThread {
                    session: SessionStep::Watching { missed: (missed + 1) as u32, pinging: true },
                    ..thread
                },
                SessionAction::<B>::Watch { ping: pings },
            )
            &&& missed == 5 ==> {
                let (over, end) = thread.session_next(timed_out);
                &&& end matches SessionAction::Return(Err(SessionFailure::PingsLost { message }))
                &&& message@ == "Timed out waiting for camera ping reply"@
                &&& over == (NeoCamThread { session: over.session, ..thread })
            }
            &&& (failure.cause is Some && failure.cause->0 is UnintelligibleReply) ==> {
                &&& action == (SessionAction::<B>::Watch { ping: None })
                &&& after.session matches SessionStep::Watching { pinging, .. }
                &&& !pinging
            }
            &&& !(failure.cause is Some && failure.cause->0 is UnintelligibleReply) ==> action
                == SessionAction::<B>::Return(Err(SessionFailure::Call(failure)))
            &&& after == (NeoCamThread { session: after.session, ..thread })
        }),
{
}

} // verus!
