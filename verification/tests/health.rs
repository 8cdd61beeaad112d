use neolink::camthread::{CameraDiagnostics, DiagPhase};
use neolink::config::{CameraConfig, HealthcheckConfig, StreamConfig};
use neolink::healthcheck::{
    build_health, gather, health, listen_address, probe_camera, probe_limit_ms, stream_names,
    unhealthy, CameraHealth, ProbeOutcome, ProbeSnapshot,
};

const SECOND: u64 = 1_000_000_000;

fn cam(name: &str, enabled: bool) -> CameraConfig {
    CameraConfig { name: name.to_string(), enabled, stream: StreamConfig::Both, update_time: false }
}

fn found(phase: DiagPhase, live: bool) -> ProbeSnapshot {
    ProbeSnapshot {
        diag: CameraDiagnostics {
            phase,
            connected_since: None,
            reconnect_attempts: 3,
            last_error: Some("boom".to_string()),
        },
        live,
        active_uses: Some(2),
        now: 0,
    }
}

fn probed(phase: DiagPhase, live: bool) -> ProbeOutcome {
    ProbeOutcome::Gathered(found(phase, live))
}

#[test]
fn names_of_exposed_streams() {
    assert_eq!(stream_names(&StreamConfig::Off), Vec::<String>::new());
    assert_eq!(stream_names(&StreamConfig::All), ["main", "sub", "extern"]);
    assert_eq!(stream_names(&StreamConfig::Both), ["main", "sub"]);
    assert_eq!(stream_names(&StreamConfig::Main), ["main"]);
    assert_eq!(stream_names(&StreamConfig::Sub), ["sub"]);
    assert_eq!(stream_names(&StreamConfig::Extern), ["extern"]);
}

#[test]
fn unprobed_camera_is_unhealthy() {
    assert_eq!(
        unhealthy(&cam("yard", true), vec!["main".to_string()], "why".to_string()),
        CameraHealth {
            name: "yard".to_string(),
            enabled: true,
            healthy: false,
            state: "unknown",
            live: false,
            streams: vec!["main".to_string()],
            active_uses: 0,
            uptime_secs: None,
            reconnect_attempts: 0,
            last_error: Some("why".to_string()),
        }
    );
}

#[test]
fn phases_and_readiness() {
    let table = [
        (DiagPhase::Connected, true, "connected", true),
        (DiagPhase::Connected, false, "connected", false),
        (DiagPhase::Idle, false, "idle", true),
        (DiagPhase::Stopped, false, "stopped", true),
        (DiagPhase::Connecting, true, "connecting", false),
        (DiagPhase::Reconnecting, false, "reconnecting", false),
        (DiagPhase::LoginFailed, false, "login_failed", false),
    ];
    for (phase, live, state, healthy) in table {
        let report = gather(&cam("yard", true), &found(phase, live));
        assert_eq!((report.state, report.healthy, report.live), (state, healthy, live));
        assert_eq!(report.last_error, Some("boom".to_string()));
        assert_eq!((report.active_uses, report.reconnect_attempts), (2, 3));
    }
}

#[test]
fn uptime_in_whole_seconds() {
    let mut snapshot = found(DiagPhase::Connected, true);
    snapshot.diag.connected_since = Some(5 * SECOND);
    snapshot.now = 9 * SECOND - 1;
    assert_eq!(gather(&cam("a", true), &snapshot).uptime_secs, Some(3));
    snapshot.now = 0;
    assert_eq!(gather(&cam("a", true), &snapshot).uptime_secs, Some(0));
    snapshot.diag.connected_since = None;
    assert_eq!(gather(&cam("a", true), &snapshot).uptime_secs, None);
}

#[test]
fn uncounted_uses_are_none() {
    let mut snapshot = found(DiagPhase::Idle, false);
    snapshot.active_uses = None;
    assert_eq!(gather(&cam("a", true), &snapshot).active_uses, 0);
}

#[test]
fn disabled_camera_is_reported_unprobed() {
    let off = cam("attic", false);
    assert_eq!(probe_limit_ms(&off), None);
    let report = probe_camera(&off, &ProbeOutcome::Skipped);
    assert_eq!(
        report,
        CameraHealth {
            name: "attic".to_string(),
            enabled: false,
            healthy: true,
            state: "disabled",
            live: false,
            streams: vec!["main".to_string(), "sub".to_string()],
            active_uses: 0,
            uptime_secs: None,
            reconnect_attempts: 0,
            last_error: None,
        }
    );
}

#[test]
fn failed_and_late_probes() {
    let on = cam("yard", true);
    assert_eq!(probe_limit_ms(&on), Some(2000));
    let failed = probe_camera(&on, &ProbeOutcome::Failed("no such camera".to_string()));
    assert_eq!(failed.last_error, Some("probe error: no such camera".to_string()));
    assert_eq!((failed.state, failed.healthy), ("unknown", false));
    let late = probe_camera(&on, &ProbeOutcome::TimedOut);
    assert_eq!(late.last_error, Some("probe timed out".to_string()));
    assert_eq!((late.state, late.healthy), ("unknown", false));
    assert_eq!(late.streams, ["main", "sub"]);
}

#[test]
fn healthy_report() {
    let cams = vec![cam("a", true), cam("b", false), cam("c", true)];
    let outcomes = vec![
        probed(DiagPhase::Connected, true),
        ProbeOutcome::Skipped,
        probed(DiagPhase::Idle, false),
    ];
    let resp = build_health(Some(&cams), &outcomes, "1.2.3", "release");
    assert!(resp.healthy);
    assert_eq!(health(&resp), 200);
    assert_eq!((resp.version.as_str(), resp.profile.as_str()), ("1.2.3", "release"));
    let names: Vec<&str> = resp.cameras.iter().map(|c| c.name.as_str()).collect();
    assert_eq!(names, ["a", "b", "c"]);
}

#[test]
fn one_unready_camera_is_enough() {
    let cams = vec![cam("a", true), cam("b", true), cam("c", true)];
    let outcomes = vec![
        probed(DiagPhase::Connected, true),
        probed(DiagPhase::Connected, false),
        probed(DiagPhase::Connected, true),
    ];
    let resp = build_health(Some(&cams), &outcomes, "1", "debug");
    assert!(!resp.healthy);
    assert_eq!(health(&resp), 503);
    assert_eq!(resp.cameras.len(), 3);
}

#[test]
fn disabled_camera_never_matters() {
    let with = vec![cam("a", true), cam("b", false)];
    let without = vec![cam("a", true)];
    for late in [true, false] {
        let outcome = |late: bool| {
            if late {
                ProbeOutcome::TimedOut
            } else {
                probed(DiagPhase::Connected, true)
            }
        };
        let more =
            build_health(Some(&with), &vec![outcome(late), ProbeOutcome::Skipped], "1", "debug");
        let fewer = build_health(Some(&without), &vec![outcome(late)], "1", "debug");
        assert_eq!(more.healthy, fewer.healthy);
        assert_eq!(more.healthy, !late);
    }
}

#[test]
fn unreadable_configuration_is_unhealthy() {
    let resp = build_health(None, &Vec::new(), "1", "debug");
    assert!(!resp.healthy);
    assert!(resp.cameras.is_empty());
    assert_eq!(health(&resp), 503);
    let empty = build_health(Some(&Vec::new()), &Vec::new(), "1", "debug");
    assert!(empty.healthy);
}

#[test]
fn address_to_listen_on() {
    let addr = |bind_addr: &str, port: u16| {
        listen_address(&HealthcheckConfig { bind_addr: bind_addr.to_string(), port })
    };
    assert_eq!(addr("0.0.0.0", 8080), "0.0.0.0:8080");
    assert_eq!(addr("127.0.0.1", 0), "127.0.0.1:0");
    assert_eq!(addr("h", 65535), "h:65535");
    assert_eq!(addr("h", 9), "h:9");
    assert_eq!(addr("h", 100), "h:100");
}
