use neolink::bc::{BcMeta, Message};
use neolink::camthread::{
    CameraDiagnostics, DiagPhase, NeoCamThread, NeoCamThreadState, PingOutcome, PingTiming, RunStep,
    SessionEnd, SessionFailure, SessionStep,
};
use neolink::error::Error;

type Body = &'static str;
type Failure = neolink::error::Failure<Body>;
type RunEvent = neolink::camthread::RunEvent<Body>;
type RunAction = neolink::camthread::RunAction<Body>;
type SessionEvent = neolink::camthread::SessionEvent<Body>;
type SessionAction = neolink::camthread::SessionAction<Body>;

const SECOND: u64 = 1_000_000_000;

const PINGS: Option<PingTiming> = Some(PingTiming { interval_ms: 5000, timeout_ms: 5000 });

fn failure(text: &str) -> Failure {
    Failure { cause: None, text: text.to_string() }
}

fn rejected() -> Failure {
    Failure { cause: Some(Error::CameraLoginFail), text: "rejected".to_string() }
}

fn new_thread() -> NeoCamThread {
    let mut thread = NeoCamThread::new();
    assert_eq!(thread.run(RunEvent::Begin), RunAction::ReadDesired);
    thread
}

fn connect(thread: &mut NeoCamThread, now: u64) {
    assert_eq!(
        thread.run(RunEvent::Desired(NeoCamThreadState::Connected)),
        RunAction::AwaitConnect
    );
    assert_eq!(thread.run(RunEvent::ConnectWanted { now }), RunAction::RunSession);
    assert_eq!(thread.session, SessionStep::Fresh);
    assert_eq!(thread.run_camera(SessionEvent::Begin), SessionAction::LogIn);
}

fn go_live(thread: &mut NeoCamThread, now: u64) {
    assert_eq!(
        thread.run_camera(SessionEvent::LoggedIn(Ok(()))),
        SessionAction::Sleep { millis: 2000 }
    );
    assert_eq!(thread.run_camera(SessionEvent::Waited { now: 0 }), SessionAction::UpdateTime);
    assert_eq!(
        thread.run_camera(SessionEvent::ClockDone(Err(failure("not an admin")))),
        SessionAction::Sleep { millis: 2000 }
    );
    assert!(!thread.camera_published);
    assert_eq!(thread.run_camera(SessionEvent::Waited { now }), SessionAction::Watch { ping: PINGS });
}

fn fail_login(thread: &mut NeoCamThread, started: u64, ended: u64, f: Failure) -> RunAction {
    connect(thread, started);
    let text = f.text.clone();
    let cause = f.cause.clone();
    assert_eq!(
        thread.run_camera(SessionEvent::LoggedIn(Err(f))),
        SessionAction::Return(Err(SessionFailure::Call(Failure {
            cause: cause.clone(),
            text: text.clone(),
        })))
    );
    thread.run(RunEvent::SessionEnded { result: Err(Failure { cause, text }), now: ended })
}

#[test]
fn default_diagnostics() {
    assert_eq!(
        CameraDiagnostics::default(),
        CameraDiagnostics {
            phase: DiagPhase::Connecting,
            connected_since: None,
            reconnect_attempts: 0,
            last_error: None,
        }
    );
}

#[test]
fn backoff_sequence() {
    let mut thread = new_thread();
    let waits = [50, 100, 200, 400, 800, 1600, 3200, 5000, 5000, 5000];
    for (k, wait) in waits.iter().enumerate() {
        let action = fail_login(&mut thread, 0, SECOND, failure("down"));
        assert_eq!(action, RunAction::Sleep { millis: *wait });
        assert_eq!(thread.diag.phase, DiagPhase::Reconnecting);
        assert_eq!(thread.diag.reconnect_attempts, k as u32 + 1);
        assert_eq!(thread.diag.last_error, Some("down".to_string()));
        assert_eq!(thread.run(RunEvent::Waited), RunAction::ReadDesired);
    }
}

#[test]
fn stable_connection_starts_over() {
    let mut thread = new_thread();
    for _ in 0..4 {
        fail_login(&mut thread, 0, SECOND, failure("down"));
        thread.run(RunEvent::Waited);
    }
    // Sixty seconds are not enough.
    let action = fail_login(&mut thread, SECOND, 61 * SECOND, failure("down"));
    assert_eq!(action, RunAction::Sleep { millis: 800 });
    assert_eq!(thread.diag.reconnect_attempts, 5);
    thread.run(RunEvent::Waited);
    let action = fail_login(&mut thread, SECOND, 61 * SECOND + 1, failure("down"));
    assert_eq!(action, RunAction::Sleep { millis: 50 });
    assert_eq!(thread.diag.reconnect_attempts, 1);
}

#[test]
fn clock_that_goes_back_is_no_stable_connection() {
    let mut thread = new_thread();
    fail_login(&mut thread, 0, SECOND, failure("down"));
    thread.run(RunEvent::Waited);
    let action = fail_login(&mut thread, 100 * SECOND, 0, failure("down"));
    assert_eq!(action, RunAction::Sleep { millis: 100 });
}

#[test]
fn rejected_login_ends_the_thread() {
    let mut thread = new_thread();
    let action = fail_login(&mut thread, 0, SECOND, rejected());
    assert_eq!(action, RunAction::Return(Err(rejected())));
    assert_eq!(thread.diag.phase, DiagPhase::LoginFailed);
    assert_eq!(thread.diag.last_error, Some("rejected".to_string()));
    assert_eq!(thread.diag.reconnect_attempts, 0);
    assert!(thread.cancelled);
    assert_eq!(thread.step, RunStep::Ended);
    assert_eq!(
        thread.session,
        SessionStep::Over(SessionEnd::Rejected { text: "rejected".to_string() })
    );
}

#[test]
fn unwanted_connection_is_idle() {
    let mut thread = new_thread();
    connect(&mut thread, 0);
    go_live(&mut thread, 7);
    assert_eq!(thread.diag.phase, DiagPhase::Connected);
    assert_eq!(thread.diag.connected_since, Some(7));
    assert!(thread.camera_published);
    assert_eq!(thread.run(RunEvent::Interrupted), RunAction::ReadDesired);
    assert!(!thread.camera_published);
    assert_eq!(
        thread.run(RunEvent::Desired(NeoCamThreadState::Disconnected)),
        RunAction::AwaitConnect
    );
    assert_eq!(thread.diag.phase, DiagPhase::Idle);
    assert_eq!(thread.diag.connected_since, None);
    thread.run(RunEvent::ConnectWanted { now: 9 });
    assert_eq!(thread.diag.phase, DiagPhase::Connecting);
}

#[test]
fn changed_configuration_connects_anew() {
    let mut thread = new_thread();
    connect(&mut thread, 0);
    go_live(&mut thread, 7);
    thread.run(RunEvent::Interrupted);
    assert_eq!(thread.diag.phase, DiagPhase::Connecting);
    assert_eq!(thread.diag.connected_since, None);
    connect(&mut thread, 20);
    assert_eq!(thread.diag.phase, DiagPhase::Connecting);
    assert_eq!(thread.diag.connected_since, None);
    assert_eq!(thread.session, SessionStep::LoggingIn);
    assert!(!thread.camera_published);
    go_live(&mut thread, 25);
    assert_eq!(thread.diag.phase, DiagPhase::Connected);
    assert_eq!(thread.diag.connected_since, Some(25));
}

#[test]
fn lost_state_ends_the_thread_without_cancelling() {
    let mut thread = new_thread();
    thread.run(RunEvent::Desired(NeoCamThreadState::Disconnected));
    assert_eq!(
        thread.run(RunEvent::StateLost(failure("closed"))),
        RunAction::Return(Err(failure("closed")))
    );
    assert!(!thread.cancelled);
}

#[test]
fn clean_end_logs_out_and_stops() {
    let mut thread = new_thread();
    connect(&mut thread, 0);
    go_live(&mut thread, 7);
    assert_eq!(thread.run_camera(SessionEvent::Cancelled), SessionAction::LogOut);
    assert_eq!(thread.run_camera(SessionEvent::LoggedOut), SessionAction::ShutDown);
    assert_eq!(thread.run_camera(SessionEvent::ShutDown), SessionAction::Return(Ok(())));
    assert_eq!(thread.session, SessionStep::Over(SessionEnd::Well));
    assert_eq!(
        thread.run(RunEvent::SessionEnded { result: Ok(()), now: 70 * SECOND }),
        RunAction::Return(Ok(()))
    );
    assert_eq!(thread.diag.phase, DiagPhase::Stopped);
    assert_eq!(thread.diag.connected_since, None);
    assert!(thread.cancelled);
    assert!(!thread.camera_published);
}

#[test]
fn connection_end_decides_how_the_session_ends() {
    let mut thread = new_thread();
    connect(&mut thread, 0);
    go_live(&mut thread, 7);
    assert_eq!(thread.run_camera(SessionEvent::Disconnected(Ok(()))), SessionAction::LogOut);

    let mut lost = new_thread();
    connect(&mut lost, 0);
    go_live(&mut lost, 7);
    assert_eq!(
        lost.run_camera(SessionEvent::Disconnected(Err(failure("reset")))),
        SessionAction::Return(Err(SessionFailure::Call(failure("reset"))))
    );
}

#[test]
fn sixth_missed_ping_ends_the_session() {
    let mut thread = new_thread();
    connect(&mut thread, 0);
    go_live(&mut thread, 7);
    for _ in 0..5 {
        assert_eq!(
            thread.run_camera(SessionEvent::Pinged(PingOutcome::TimedOut)),
            SessionAction::Watch { ping: PINGS }
        );
    }
    assert_eq!(thread.session, SessionStep::Watching { missed: 5, pinging: true });
    assert_eq!(
        thread.run_camera(SessionEvent::Pinged(PingOutcome::TimedOut)),
        SessionAction::Return(Err(SessionFailure::PingsLost {
            message: "Timed out waiting for camera ping reply",
        }))
    );
    assert_eq!(thread.session, SessionStep::Over(SessionEnd::PingsLost));
    assert_eq!(
        thread.run(RunEvent::SessionEnded {
            result: Err(failure("Timed out waiting for camera ping reply\n\nStack backtrace:\n 0")),
            now: 40 * SECOND,
        }),
        RunAction::Sleep { millis: 50 }
    );
    assert_eq!(
        thread.diag.last_error,
        Some("Timed out waiting for camera ping reply\n\nStack backtrace:\n 0".to_string())
    );
}

#[test]
fn answered_ping_resets_the_count() {
    let mut thread = new_thread();
    connect(&mut thread, 0);
    go_live(&mut thread, 7);
    for _ in 0..5 {
        thread.run_camera(SessionEvent::Pinged(PingOutcome::TimedOut));
    }
    assert_eq!(
        thread.run_camera(SessionEvent::Pinged(PingOutcome::Answered(Ok(())))),
        SessionAction::Watch { ping: PINGS }
    );
    assert_eq!(thread.session, SessionStep::Watching { missed: 0, pinging: true });
}

#[test]
fn unsupported_ping_stops_pinging() {
    let mut thread = new_thread();
    connect(&mut thread, 0);
    go_live(&mut thread, 7);
    let meta = BcMeta {
        msg_id: 1,
        channel_id: 0,
        msg_num: 0,
        stream_type: 0,
        response_code: 400,
        class: 0,
    };
    let unsupported = Failure {
        cause: Some(Error::UnintelligibleReply {
            reply: Message { meta, body: "what?" },
            why: "no such message",
        }),
        text: "unintelligible".to_string(),
    };
    assert_eq!(
        thread.run_camera(SessionEvent::Pinged(PingOutcome::Answered(Err(unsupported)))),
        SessionAction::Watch { ping: None }
    );
    assert_eq!(thread.session, SessionStep::Watching { missed: 0, pinging: false });
}

#[test]
fn failed_ping_ends_the_session() {
    let mut thread = new_thread();
    connect(&mut thread, 0);
    go_live(&mut thread, 7);
    assert_eq!(
        thread.run_camera(SessionEvent::Pinged(PingOutcome::Answered(Err(failure("broken"))))),
        SessionAction::Return(Err(SessionFailure::Call(failure("broken"))))
    );
    assert_eq!(
        thread.session,
        SessionStep::Over(SessionEnd::Failed { text: "broken".to_string() })
    );
}

#[test]
fn another_run_starts_with_the_shortest_wait() {
    let mut thread = new_thread();
    for _ in 0..3 {
        fail_login(&mut thread, 0, SECOND, failure("down"));
        thread.run(RunEvent::Waited);
    }
    fail_login(&mut thread, 0, SECOND, rejected());
    assert_eq!(thread.step, RunStep::Ended);
    assert_eq!(thread.run(RunEvent::Begin), RunAction::ReadDesired);
    assert_eq!(thread.diag.phase, DiagPhase::LoginFailed);
    let action = fail_login(&mut thread, 0, SECOND, failure("down"));
    assert_eq!(action, RunAction::Sleep { millis: 50 });
    assert_eq!(thread.diag.reconnect_attempts, 4);
}

#[test]
fn run_given_up_in_a_session_advertises_no_camera() {
    let mut thread = new_thread();
    connect(&mut thread, 0);
    go_live(&mut thread, 7);
    assert_eq!(thread.run(RunEvent::Begin), RunAction::ReadDesired);
    assert!(!thread.camera_published);
    assert_eq!(thread.diag.phase, DiagPhase::Connecting);
    assert_eq!(thread.diag.connected_since, None);
    assert_eq!(thread.step, RunStep::Deciding);
}

#[test]
fn detached_thread_tells_its_dependants_to_stop() {
    let mut thread = new_thread();
    connect(&mut thread, 0);
    go_live(&mut thread, 7);
    assert!(!thread.cancelled);
    thread.detach();
    assert!(thread.cancelled);
    assert_eq!(thread.diag.phase, DiagPhase::Connected);
    assert_eq!(thread.step, RunStep::InSession { started: 0 });
}
