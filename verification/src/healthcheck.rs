//! The healthcheck report.
//!
//! The status code of an answer tells the overall health (`200` healthy / `503`
//! unhealthy) and the report carries the detail. The overall health is bad when
//! any enabled camera that should be connected is not (strict readiness).
//!
//! Cameras that are intentionally disconnected report as `idle` and do not make
//! the overall health bad. Disabled cameras are reported but never affect it.

use vstd::prelude::*;
use vstd::string::StringExecFns;

use crate::camthread::{elapsed, CameraDiagnostics, DiagPhase, NeoCamThread};
use crate::config::{CameraConfig, HealthcheckConfig, StreamConfig};

verus! {

/// How long the probe of one camera may take, in milliseconds. Keeps one wedged
/// camera from hanging the endpoint.
pub const CAMERA_PROBE_TIMEOUT_MS: u64 = 2000;

/// The status code of a healthy answer.
pub const STATUS_OK: u16 = 200;

/// The status code of an unhealthy answer.
pub const STATUS_SERVICE_UNAVAILABLE: u16 = 503;

/// The nanoseconds of a second.
pub const NANOS_PER_SEC: u64 = 1_000_000_000;

/// The whole report.
#[derive(Debug, PartialEq, Eq)]
pub struct HealthResponse {
    /// The overall health.
    pub healthy: bool,
    /// The version of the program.
    pub version: String,
    /// How the program was built.
    pub profile: String,
    /// The cameras, in the order of the configuration.
    pub cameras: Vec<CameraHealth>,
}

/// The report on one camera.
#[derive(Debug, PartialEq, Eq)]
pub struct CameraHealth {
    /// The name of the camera.
    pub name: String,
    /// Whether the camera is used at all.
    pub enabled: bool,
    /// Whether the camera is where it should be.
    pub healthy: bool,
    /// `connected` | `connecting` | `reconnecting` | `idle` | `login_failed` |
    /// `stopped` | `disabled` | `unknown`
    pub state: &'static str,
    /// Whether the camera connection is currently live and usable.
    pub live: bool,
    /// The streams configured for this camera (`main`/`sub`/`extern`).
    pub streams: Vec<String>,
    /// Active uses (streams, motion, push notifications, ...).
    pub active_uses: u32,
    /// Seconds since the current connection was established, if connected.
    pub uptime_secs: Option<u64>,
    /// Failed connection attempts since the last stable connection.
    pub reconnect_attempts: u32,
    /// The most recent connection error, if any.
    pub last_error: Option<String>,
}

/// What a probe found out about a camera.
#[derive(Debug, PartialEq, Eq)]
pub struct ProbeSnapshot {
    /// The published diagnostics.
    pub diag: CameraDiagnostics,
    /// Whether a live camera is advertised.
    pub live: bool,
    /// The active uses, where they could be counted.
    pub active_uses: Option<u32>,
    /// The moment of the probe, in nanoseconds on the clock of the diagnostics.
    pub now: u64,
}

/// How the probe of a camera went.
#[derive(Debug, PartialEq, Eq)]
pub enum ProbeOutcome {
    /// There was none.
    Skipped,
    /// It found this out.
    Gathered(ProbeSnapshot),
    /// It failed, for this reason.
    Failed(String),
    /// It took too long.
    TimedOut,
}

/// What a [`CameraHealth`] says.
pub struct CameraHealthView {
    pub name: Seq<char>,
    pub enabled: bool,
    pub healthy: bool,
    pub state: Seq<char>,
    pub live: bool,
    pub streams: Seq<Seq<char>>,
    pub active_uses: u32,
    pub uptime_secs: Option<u64>,
    pub reconnect_attempts: u32,
    pub last_error: Option<Seq<char>>,
}

/// What a [`HealthResponse`] says.
pub struct HealthResponseView {
    pub healthy: bool,
    pub version: Seq<char>,
    pub profile: Seq<char>,
    pub cameras: Seq<CameraHealthView>,
}

/// What some strings say.
pub open spec fn texts(strings: Seq<String>) -> Seq<Seq<char>> {
    Seq::new(strings.len(), |i: int| strings[i]@)
}

/// What a string says, if there is one.
pub open spec fn text_of(string: Option<String>) -> Option<Seq<char>> {
    match string {
        Some(s) => Some(s@),
        None => None,
    }
}

impl View for CameraHealth {
    type V = CameraHealthView;

    open spec fn view(&self) -> CameraHealthView {
        CameraHealthView {
            name: self.name@,
            enabled: self.enabled,
            healthy: self.healthy,
            state: self.state@,
            live: self.live,
            streams: texts(self.streams@),
            active_uses: self.active_uses,
            uptime_secs: self.uptime_secs,
            reconnect_attempts: self.reconnect_attempts,
            last_error: text_of(self.last_error),
        }
    }
}

impl View for HealthResponse {
    type V = HealthResponseView;

    open spec fn view(&self) -> HealthResponseView {
        HealthResponseView {
            healthy: self.healthy,
            version: self.version@,
            profile: self.profile@,
            cameras: Seq::new(self.cameras@.len(), |i: int| self.cameras@[i]@),
        }
    }
}

/// The names of the streams that `stream` exposes.
pub open spec fn exposed_streams(stream: StreamConfig) -> Seq<Seq<char>> {
    match stream {
        StreamConfig::Off => seq![],
        StreamConfig::All => seq!["main"@, "sub"@, "extern"@],
        StreamConfig::Both => seq!["main"@, "sub"@],
        StreamConfig::Main => seq!["main"@],
        StreamConfig::Sub => seq!["sub"@],
        StreamConfig::Extern => seq!["extern"@],
    }
}

/// How a connection phase is reported.
pub open spec fn phase_name(phase: DiagPhase) -> Seq<char> {
    match phase {
        DiagPhase::Connected => "connected"@,
        DiagPhase::Idle => "idle"@,
        DiagPhase::Stopped => "stopped"@,
        DiagPhase::Connecting => "connecting"@,
        DiagPhase::Reconnecting => "reconnecting"@,
        DiagPhase::LoginFailed => "login_failed"@,
    }
}

/// Whether a camera in `phase` is healthy: it is where it should be, and if that
/// is connected, it is also live.
pub open spec fn phase_is_healthy(phase: DiagPhase, live: bool) -> bool {
    (phase is Connected && live) || phase is Idle || phase is Stopped
}

/// The report on a disabled camera.
pub open spec fn disabled_report(cam: CameraConfig) -> CameraHealthView {
    CameraHealthView {
        name: cam.name@,
        enabled: false,
        healthy: true,
        state: "disabled"@,
        live: false,
        streams: exposed_streams(cam.stream),
        active_uses: 0,
        uptime_secs: None,
        reconnect_attempts: 0,
        last_error: None,
    }
}

/// The report on a camera that could not be probed because of `error`.
pub open spec fn unknown_report(
    cam: CameraConfig,
    streams: Seq<Seq<char>>,
    error: Seq<char>,
) -> CameraHealthView {
    CameraHealthView {
        name: cam.name@,
        enabled: true,
        healthy: false,
        state: "unknown"@,
        live: false,
        streams,
        active_uses: 0,
        uptime_secs: None,
        reconnect_attempts: 0,
        last_error: Some(error),
    }
}

/// The report on a camera of which `found` was found out.
pub open spec fn gathered_report(cam: CameraConfig, found: ProbeSnapshot) -> CameraHealthView {
    CameraHealthView {
        name: cam.name@,
        enabled: true,
        healthy: phase_is_healthy(found.diag.phase, found.live),
        state: phase_name(found.diag.phase),
        live: found.live,
        streams: exposed_streams(cam.stream),
        active_uses: match found.active_uses {
            Some(uses) => uses,
            None => 0,
        },
        uptime_secs: match found.diag.connected_since {
            Some(since) => Some(elapsed(since, found.now) / NANOS_PER_SEC),
            None => None,
        },
        reconnect_attempts: found.diag.reconnect_attempts,
        last_error: text_of(found.diag.last_error),
    }
}

/// The report on `cam`, whose probe went as `outcome` says.
pub open spec fn camera_report(cam: CameraConfig, outcome: ProbeOutcome) -> CameraHealthView {
    if !cam.enabled {
        disabled_report(cam)
    } else {
        match outcome {
            ProbeOutcome::Gathered(found) => gathered_report(cam, found),
            ProbeOutcome::Failed(error) => unknown_report(
                cam,
                exposed_streams(cam.stream),
                "probe error: "@ + error@,
            ),
            _ => unknown_report(cam, exposed_streams(cam.stream), "probe timed out"@),
        }
    }
}

/// Whether `outcome` can be how the probe of `cam` went: an enabled camera is probed.
pub open spec fn is_outcome_of(cam: CameraConfig, outcome: ProbeOutcome) -> bool {
    cam.enabled ==> outcome !is Skipped
}

/// Whether `outcomes` can be how the probes of `cams` went, one for each.
pub open spec fn are_outcomes_of(cams: Seq<CameraConfig>, outcomes: Seq<ProbeOutcome>) -> bool {
    cams.len() == outcomes.len() && forall|i: int|
        0 <= i < cams.len() ==> is_outcome_of(#[trigger] cams[i], outcomes[i])
}

/// The reports on `cams`, whose probes went as `outcomes` says.
pub open spec fn camera_reports(
    cams: Seq<CameraConfig>,
    outcomes: Seq<ProbeOutcome>,
) -> Seq<CameraHealthView> {
    Seq::new(cams.len(), |i: int| camera_report(cams[i], outcomes[i]))
}

/// Whether every report is one on a healthy camera.
pub open spec fn all_healthy(reports: Seq<CameraHealthView>) -> bool {
    forall|i: int| 0 <= i < reports.len() ==> (#[trigger] reports[i]).healthy
}

/// Names of the streams a camera is configured to expose.
pub fn stream_names(stream: &StreamConfig) -> (r: Vec<String>)
    ensures
        texts(r@) == exposed_streams(*stream),
{
    let mut names: Vec<String> = Vec::new();
    match stream {
        StreamConfig::All | StreamConfig::Both | StreamConfig::Main => {
            names.push("main".to_owned());
        },
        _ => {},
    }
    match stream {
        StreamConfig::All | StreamConfig::Both | StreamConfig::Sub => {
            names.push("sub".to_owned());
        },
        _ => {},
    }
    match stream {
        StreamConfig::All | StreamConfig::Extern => {
            names.push("extern".to_owned());
        },
        _ => {},
    }
    assert(texts(names@) =~= exposed_streams(*stream));
    names
}

/// How long the probe of `cam` may take, if it is to be probed.
pub open spec fn probe_limit(cam: CameraConfig) -> Option<u64> {
    if cam.enabled {
        Some(CAMERA_PROBE_TIMEOUT_MS)
    } else {
        None
    }
}

/// How long the probe of a camera may take, in milliseconds; `None` if the camera
/// is not to be probed. Disabled cameras are not, as a probe would spin up a
/// connection.
pub fn probe_limit_ms(cam: &CameraConfig) -> (r: Option<u64>)
    ensures
        r == probe_limit(*cam),
        r == (if cam.enabled {
            Some(CAMERA_PROBE_TIMEOUT_MS)
        } else {
            None
        }),
{
    if cam.enabled {
        Some(CAMERA_PROBE_TIMEOUT_MS)
    } else {
        None
    }
}

/// Builds an unhealthy result for a camera we could not probe.
pub fn unhealthy(cam: &CameraConfig, streams: Vec<String>, error: String) -> (r: CameraHealth)
    ensures
        r@ == unknown_report(*cam, texts(streams@), error@),
{
    CameraHealth {
        name: cam.name.clone(),
        enabled: true,
        healthy: false,
        state: "unknown",
        live: false,
        streams,
        active_uses: 0,
        uptime_secs: None,
        reconnect_attempts: 0,
        last_error: Some(error),
    }
}

/// Builds the result for a camera of which `found` was found out.
pub fn gather(cam: &CameraConfig, found: &ProbeSnapshot) -> (r: CameraHealth)
    ensures
        r@ == gathered_report(*cam, *found),
{
    // Strict readiness: a connected camera is only healthy if it is also live
    // (actually transmitting); intentional states (idle/stopped) stay healthy.
    let (state, healthy): (&'static str, bool) = match found.diag.phase {
        DiagPhase::Connected => ("connected", found.live),
        DiagPhase::Idle => ("idle", true),
        DiagPhase::Stopped => ("stopped", true),
        DiagPhase::Connecting => ("connecting", false),
        DiagPhase::Reconnecting => ("reconnecting", false),
        DiagPhase::LoginFailed => ("login_failed", false),
    };
    CameraHealth {
        name: cam.name.clone(),
        enabled: true,
        healthy,
        state,
        live: found.live,
        streams: stream_names(&cam.stream),
        active_uses: match found.active_uses {
            Some(uses) => uses,
            None => 0,
        },
        uptime_secs: match found.diag.connected_since {
            Some(since) => if found.now >= since {
                Some((found.now - since) / NANOS_PER_SEC)
            } else {
                Some(0)
            },
            None => None,
        },
        reconnect_attempts: found.diag.reconnect_attempts,
        last_error: match &found.diag.last_error {
            Some(error) => Some(error.clone()),
            None => None,
        },
    }
}

/// Reports on a single camera, whose probe went as `outcome` says.
pub fn probe_camera(cam: &CameraConfig, outcome: &ProbeOutcome) -> (r: CameraHealth)
    requires
        is_outcome_of(*cam, *outcome),
    ensures
        r@ == camera_report(*cam, *outcome),
{
    let streams: Vec<String> = stream_names(&cam.stream);
    // Disabled cameras are reported but never affect overall health.
    if !cam.enabled {
        return CameraHealth {
            name: cam.name.clone(),
            enabled: false,
            healthy: true,
            state: "disabled",
            live: false,
            streams,
            active_uses: 0,
            uptime_secs: None,
            reconnect_attempts: 0,
            last_error: None,
        };
    }
    match outcome {
        ProbeOutcome::Gathered(found) => gather(cam, found),
        ProbeOutcome::Failed(error) => unhealthy(
            cam,
            streams,
            "probe error: ".to_owned().concat(error.as_str()),
        ),
        _ => unhealthy(cam, streams, "probe timed out".to_owned()),
    }
}

/// What the whole report says where the configuration is `config`, if it could
/// be read, and the probes went as `outcomes` says.
pub open spec fn health_report(
    config: Option<Seq<CameraConfig>>,
    outcomes: Seq<ProbeOutcome>,
    version: Seq<char>,
    profile: Seq<char>,
) -> HealthResponseView {
    let cameras = match config {
        Some(cams) => camera_reports(cams, outcomes),
        None => seq![],
    };
    HealthResponseView {
        healthy: config is Some && all_healthy(cameras),
        version,
        profile,
        cameras,
    }
}

/// Builds the whole report.
///
/// The overall health is good only if the configuration could be read and every
/// camera is healthy.
pub fn build_health(
    config: Option<&Vec<CameraConfig>>,
    outcomes: &Vec<ProbeOutcome>,
    version: &str,
    profile: &str,
) -> (r: HealthResponse)
    requires
        config is Some ==> are_outcomes_of(config->0@, outcomes@),
    ensures
        r@ == health_report(
            match config {
                Some(cams) => Some(cams@),
                None => None,
            },
            outcomes@,
            version@,
            profile@,
        ),
{
    let mut cameras: Vec<CameraHealth> = Vec::new();
    let mut healthy: bool = false;
    // A configuration that could not be read must not be reported as healthy,
    // though there is no camera then that is not.
    if let Some(cams) = config {
        healthy = true;
        let mut i: usize = 0;
        while i < cams.len()
            invariant
                i <= cams@.len(),
                are_outcomes_of(cams@, outcomes@),
                cameras@.len() == i,
                forall|j: int|
                    0 <= j < i ==> (#[trigger] cameras@[j])@ == camera_report(
                        cams@[j],
                        outcomes@[j],
                    ),
                healthy ==> forall|j: int| 0 <= j < i ==> (#[trigger] cameras@[j]).healthy,
                !healthy ==> exists|j: int| 0 <= j < i && !(#[trigger] cameras@[j]).healthy,
            decreases cams@.len() - i,
        {
            assert(is_outcome_of(cams@[i as int], outcomes@[i as int]));
            let report = probe_camera(&cams[i], &outcomes[i]);
            let ghost before = cameras@;
            if !report.healthy {
                healthy = false;
            }
            cameras.push(report);
            proof {
                if !healthy {
                    let j = if report.healthy {
                        choose|j: int| 0 <= j < i && !(#[trigger] before[j]).healthy
                    } else {
                        i as int
                    };
                    assert(!cameras@[j].healthy);
                }
            }
            i += 1;
        }
    }
    let r = HealthResponse {
        healthy,
        version: version.to_owned(),
        profile: profile.to_owned(),
        cameras,
    };
    proof {
        if config is Some {
            let reports = camera_reports(config->0@, outcomes@);
            assert(r@.cameras =~= reports);
            assert(all_healthy(reports) == healthy) by {
                if healthy {
                    assert forall|j: int| 0 <= j < reports.len() implies (
                    #[trigger] reports[j]).healthy by {
                        assert(r.cameras@[j].healthy);
                    }
                } else {
                    let j = choose|j: int|
                        0 <= j < reports.len() && !(#[trigger] r.cameras@[j]).healthy;
                    assert(!reports[j].healthy);
                }
            }
        } else {
            assert(r@.cameras =~= seq![]);
        }
    }
    r
}

/// The status code that tells the overall health.
pub open spec fn status_code(healthy: bool) -> u16 {
    if healthy {
        STATUS_OK
    } else {
        STATUS_SERVICE_UNAVAILABLE
    }
}

/// The status code of an answer that carries `resp`: the overall health.
pub fn health(resp: &HealthResponse) -> (code: u16)
    ensures
        code == status_code(resp@.healthy),
        code == (if resp.healthy {
            STATUS_OK
        } else {
            STATUS_SERVICE_UNAVAILABLE
        }),
{
    if resp.healthy {
        STATUS_OK
    } else {
        STATUS_SERVICE_UNAVAILABLE
    }
}

/// The character of a decimal digit.
pub open spec fn digit(d: nat) -> char {
    if d == 0 {
        '0'
    } else if d == 1 {
        '1'
    } else if d == 2 {
        '2'
    } else if d == 3 {
        '3'
    } else if d == 4 {
        '4'
    } else if d == 5 {
        '5'
    } else if d == 6 {
        '6'
    } else if d == 7 {
        '7'
    } else if d == 8 {
        '8'
    } else {
        '9'
    }
}

/// A number in decimal, without leading zeros.
pub open spec fn decimal(n: nat) -> Seq<char>
    decreases n,
{
    if n < 10 {
        seq![digit(n)]
    } else {
        decimal(n / 10).push(digit(n % 10))
    }
}

fn digit_text(d: u16) -> (r: &'static str)
    requires
        d < 10,
    ensures
        r@ == seq![digit(d as nat)],
{
    proof {
        reveal_strlit("0");
        reveal_strlit("1");
        reveal_strlit("2");
        reveal_strlit("3");
        reveal_strlit("4");
        reveal_strlit("5");
        reveal_strlit("6");
        reveal_strlit("7");
        reveal_strlit("8");
        reveal_strlit("9");
    }
    match d {
        0 => "0",
        1 => "1",
        2 => "2",
        3 => "3",
        4 => "4",
        5 => "5",
        6 => "6",
        7 => "7",
        8 => "8",
        _ => "9",
    }
}

fn decimal_text(n: u16) -> (r: String)
    ensures
        r@ == decimal(n as nat),
    decreases n,
{
    if n < 10 {
        digit_text(n).to_owned()
    } else {
        let r = decimal_text(n / 10).concat(digit_text(n % 10));
        assert(r@ =~= decimal(n as nat));
        r
    }
}

/// The text of the address to listen on.
pub open spec fn address_text(cfg: HealthcheckConfig) -> Seq<char> {
    cfg.bind_addr@ + ":"@ + decimal(cfg.port as nat)
}

/// The address to listen on: `bind_addr:port`.
pub fn listen_address(cfg: &HealthcheckConfig) -> (r: String)
    ensures
        r@ == cfg.bind_addr@ + ":"@ + decimal(cfg.port as nat),
        r@ == address_text(*cfg),
{
    cfg.bind_addr.clone().concat(":").concat(decimal_text(cfg.port).as_str())
}

/// Whether `cam`, whose probe went as `outcome` says, is where it should be:
/// not in use, intentionally disconnected, or connected and live.
pub open spec fn is_ready(cam: CameraConfig, outcome: ProbeOutcome) -> bool {
    cam.enabled ==> (outcome matches ProbeOutcome::Gathered(found) && phase_is_healthy(
        found.diag.phase,
        found.live,
    ))
}

/// The overall health is good just when the configuration could be read and every
/// enabled camera is where it should be.
pub proof fn law_overall_health(
    config: Option<Seq<CameraConfig>>,
    outcomes: Seq<ProbeOutcome>,
    version: Seq<char>,
    profile: Seq<char>,
)
    requires
        config is Some ==> are_outcomes_of(config->0, outcomes),
    ensures
        health_report(config, outcomes, version, profile).healthy <==> (config is Some && forall|
            i: int,
        |
            0 <= i < config->0.len() ==> is_ready(#[trigger] config->0[i], outcomes[i])),
{
    if config is Some {
        let cams = config->0;
        let reports = camera_reports(cams, outcomes);
        if all_healthy(reports) {
            assert forall|i: int| 0 <= i < cams.len() implies is_ready(
                #[trigger] cams[i],
                outcomes[i],
            ) by {
                assert(reports[i].healthy);
            }
        }
        if forall|i: int| 0 <= i < cams.len() ==> is_ready(#[trigger] cams[i], outcomes[i]) {
            assert forall|i: int| 0 <= i < reports.len() implies (#[trigger] reports[i]).healthy by {
                assert(is_ready(cams[i], outcomes[i]));
            }
        }
    }
}

/// A configuration that cannot be read is unhealthy, and no camera is reported.
pub proof fn law_unreadable_config_is_unhealthy(
    outcomes: Seq<ProbeOutcome>,
    version: Seq<char>,
    profile: Seq<char>,
)
    ensures
        !health_report(None, outcomes, version, profile).healthy,
        health_report(None, outcomes, version, profile).cameras.len() == 0,
{
}

/// Every camera of the configuration is reported, in its order, under its name,
/// and as enabled just when it is.
pub proof fn law_every_camera_is_reported(
    cams: Seq<CameraConfig>,
    outcomes: Seq<ProbeOutcome>,
    version: Seq<char>,
    profile: Seq<char>,
)
    requires
        are_outcomes_of(cams, outcomes),
    ensures
        ({
            let reports = health_report(Some(cams), outcomes, version, profile).cameras;
            &&& reports.len() == cams.len()
            &&& forall|i: int|
                0 <= i < cams.len() ==> {
                    &&& (#[trigger] reports[i]).name == cams[i].name@
                    &&& reports[i].enabled == cams[i].enabled
                    &&& reports[i].streams == exposed_streams(cams[i].stream)
                }
        }),
{
}

/// Disabled cameras never affect the overall health: it is the same without them.
pub proof fn law_disabled_cameras_never_matter(
    cams: Seq<CameraConfig>,
    outcomes: Seq<ProbeOutcome>,
    version: Seq<char>,
    profile: Seq<char>,
    k: int,
)
    requires
        are_outcomes_of(cams, outcomes),
        0 <= k < cams.len(),
        !cams[k].enabled,
    ensures
        are_outcomes_of(cams.remove(k), outcomes.remove(k)),
        health_report(Some(cams), outcomes, version, profile).healthy == health_report(
            Some(cams.remove(k)),
            outcomes.remove(k),
            version,
            profile,
        ).healthy,
        health_report(Some(cams), outcomes, version, profile).cameras[k].healthy,
{
    let fewer = cams.remove(k);
    let left = outcomes.remove(k);
    assert forall|i: int| 0 <= i < fewer.len() implies is_outcome_of(
        #[trigger] fewer[i],
        left[i],
    ) by {
        let j = if i < k {
            i
        } else {
            i + 1
        };
        assert(is_outcome_of(cams[j], outcomes[j]));
    }
    law_overall_health(Some(cams), outcomes, version, profile);
    law_overall_health(Some(fewer), left, version, profile);
    if forall|i: int| 0 <= i < cams.len() ==> is_ready(#[trigger] cams[i], outcomes[i]) {
        assert forall|i: int| 0 <= i < fewer.len() implies is_ready(#[trigger] fewer[i], left[i]) by {
            let j = if i < k {
                i
            } else {
                i + 1
            };
            assert(is_ready(cams[j], outcomes[j]));
        }
    }
    if forall|i: int| 0 <= i < fewer.len() ==> is_ready(#[trigger] fewer[i], left[i]) {
        assert forall|i: int| 0 <= i < cams.len() implies is_ready(
            #[trigger] cams[i],
            outcomes[i],
        ) by {
            if i != k {
                let j = if i < k {
                    i
                } else {
                    i - 1
                };
                assert(is_ready(fewer[j], left[j]));
            }
        }
    }
}

/// An enabled camera that could not be probed is unhealthy, in an unknown state,
/// and reported with the reason.
pub proof fn law_unprobed_is_unhealthy(cam: CameraConfig, outcome: ProbeOutcome)
    requires
        cam.enabled,
        outcome is Failed || outcome is TimedOut,
    ensures
        !camera_report(cam, outcome).healthy,
        camera_report(cam, outcome).state == "unknown"@,
        camera_report(cam, outcome).last_error is Some,
{
}

/// A camera whose thread watches a live connection is healthy and connected,
/// with an uptime; one whose thread seeks a connection, waits to try again or
/// was rejected is not healthy; one that is intentionally disconnected is.
pub proof fn law_thread_and_report_agree(
    cam: CameraConfig,
    thread: NeoCamThread,
    found: ProbeSnapshot,
)
    requires
        cam.enabled,
        thread.wf(),
        found.diag == thread.diag,
        found.live == thread.camera_published,
    ensures
        ({
            let report = camera_report(cam, ProbeOutcome::Gathered(found));
            &&& thread.step is InSession && thread.session is Watching ==> report.healthy
                && report.state == "connected"@ && report.uptime_secs is Some
                && report.last_error is None
            &&& thread.step is BackingOff ==> !report.healthy && report.state == "reconnecting"@
                && report.last_error is Some
            &&& thread.diag.phase is Connecting ==> !report.healthy && report.state
                == "connecting"@
            &&& thread.diag.phase is LoginFailed ==> !report.healthy && report.state
                == "login_failed"@ && report.last_error is Some
            &&& thread.diag.phase is Idle ==> report.healthy && report.state == "idle"@
            &&& thread.diag.phase is Stopped ==> report.healthy && report.state == "stopped"@
        }),
{
}

/// What a report says leaves nothing of it out.
pub proof fn law_report_says_all(report: CameraHealth, resp: HealthResponse)
    ensures
        report@.name == report.name@,
        report@.enabled == report.enabled,
        report@.healthy == report.healthy,
        report@.state == report.state@,
        report@.live == report.live,
        report@.streams.len() == report.streams@.len(),
        forall|i: int|
            0 <= i < report.streams@.len() ==> #[trigger] report@.streams[i]
                == report.streams@[i]@,
        report@.active_uses == report.active_uses,
        report@.uptime_secs == report.uptime_secs,
        report@.reconnect_attempts == report.reconnect_attempts,
        report@.last_error is Some <==> report.last_error is Some,
        report.last_error is Some ==> report@.last_error->0 == report.last_error->0@,
        resp@.healthy == resp.healthy,
        resp@.version == resp.version@,
        resp@.profile == resp.profile@,
        resp@.cameras.len() == resp.cameras@.len(),
        forall|i: int|
            0 <= i < resp.cameras@.len() ==> #[trigger] resp@.cameras[i] == resp.cameras@[i]@,
{
}

/// A camera exposes `main` just if all, both or the main stream is configured,
/// `sub` just if all, both or the sub stream is, and `extern` just if all or the
/// extern stream is, in this order and each once.
pub proof fn law_exposed_streams(stream: StreamConfig)
    ensures
        ({
            let main = stream is All || stream is Both || stream is Main;
            let sub = stream is All || stream is Both || stream is Sub;
            let ext = stream is All || stream is Extern;
            exposed_streams(stream) == (if main {
                seq!["main"@]
            } else {
                seq![]
            }) + (if sub {
                seq!["sub"@]
            } else {
                seq![]
            }) + (if ext {
                seq!["extern"@]
            } else {
                seq![]
            })
        }),
{
    let main = stream is All || stream is Both || stream is Main;
    let sub = stream is All || stream is Both || stream is Sub;
    let ext = stream is All || stream is Extern;
    let first: Seq<Seq<char>> = if main {
        seq!["main"@]
    } else {
        seq![]
    };
    let second: Seq<Seq<char>> = if sub {
        seq!["sub"@]
    } else {
        seq![]
    };
    let third: Seq<Seq<char>> = if ext {
        seq!["extern"@]
    } else {
        seq![]
    };
    assert(exposed_streams(stream) =~= first + second + third);
}

/// The report on an enabled camera that was probed says what the probe found: the
/// phase by its name, whether the camera is live, its uses (none if they could
/// not be counted), the whole seconds since the connection was made (none before
/// it), the failed attempts and the last error.
pub proof fn law_report_says_what_was_found(cam: CameraConfig, found: ProbeSnapshot)
    requires
        cam.enabled,
    ensures
        ({
            let report = camera_report(cam, ProbeOutcome::Gathered(found));
            let phase = found.diag.phase;
            let since = found.diag.connected_since;
            &&& report.name == cam.name@
            &&& report.enabled
            &&& report.live == found.live
            &&& report.streams == exposed_streams(cam.stream)
            &&& report.reconnect_attempts == found.diag.reconnect_attempts
            &&& found.active_uses is Some ==> report.active_uses == found.active_uses->0
            &&& found.active_uses is None ==> report.active_uses == 0
            &&& report.last_error is Some <==> found.diag.last_error is Some
            &&& report.last_error is Some ==> report.last_error->0 == found.diag.last_error->0@
            &&& report.uptime_secs is Some <==> since is Some
            &&& since is Some && found.now >= since->0 ==> {
                let lived = found.now - since->0;
                report.uptime_secs->0 * 1_000_000_000 <= lived < (report.uptime_secs->0 + 1)
                    * 1_000_000_000
            }
            &&& since is Some && found.now < since->0 ==> report.uptime_secs->0 == 0
            &&& phase is Connected ==> report.state == "connected"@ && report.healthy == found.live
            &&& phase is Idle ==> report.state == "idle"@ && report.healthy
            &&& phase is Stopped ==> report.state == "stopped"@ && report.healthy
            &&& phase is Connecting ==> report.state == "connecting"@ && !report.healthy
            &&& phase is Reconnecting ==> report.state == "reconnecting"@ && !report.healthy
            &&& phase is LoginFailed ==> report.state == "login_failed"@ && !report.healthy
        }),
{
}

/// A disabled camera is reported as such, healthy and without any detail,
/// whatever a probe would have found; an enabled one that could not be probed is
/// reported as unknown, unhealthy, and with the reason alone.
pub proof fn law_report_without_a_probe(
    cam: CameraConfig,
    outcome: ProbeOutcome,
    error: String,
)
    ensures
        !cam.enabled ==> camera_report(cam, outcome) == (CameraHealthView {
            name: cam.name@,
            enabled: false,
            healthy: true,
            state: "disabled"@,
            live: false,
            streams: exposed_streams(cam.stream),
            active_uses: 0,
            uptime_secs: None,
            reconnect_attempts: 0,
            last_error: None,
        }),
        cam.enabled ==> camera_report(cam, ProbeOutcome::Failed(error)) == (CameraHealthView {
            name: cam.name@,
            enabled: true,
            healthy: false,
            state: "unknown"@,
            live: false,
            streams: exposed_streams(cam.stream),
            active_uses: 0,
            uptime_secs: None,
            reconnect_attempts: 0,
            last_error: Some("probe error: "@ + error@),
        }),
        cam.enabled ==> camera_report(cam, ProbeOutcome::TimedOut) == (CameraHealthView {
            last_error: Some("probe timed out"@),
            ..camera_report(cam, ProbeOutcome::Failed(error))
        }),
{
}

/// The report on a camera that could not be probed names the camera, the streams
/// and the reason that it is given, and nothing else.
pub proof fn law_unknown_report(
    cam: CameraConfig,
    streams: Seq<Seq<char>>,
    error: Seq<char>,
)
    ensures
        unknown_report(cam, streams, error) == (CameraHealthView {
            name: cam.name@,
            enabled: true,
            healthy: false,
            state: "unknown"@,
            live: false,
            streams,
            active_uses: 0,
            uptime_secs: None,
            reconnect_attempts: 0,
            last_error: Some(error),
        }),
{
}

/// What a probe gathered is reported in the same way on its own; of the camera's
/// configuration only the name and the streams matter to it.
pub proof fn law_gathered_report(cam: CameraConfig, found: ProbeSnapshot)
    requires
        cam.enabled,
    ensures
        gathered_report(cam, found) == camera_report(cam, ProbeOutcome::Gathered(found)),
        forall|other: CameraConfig|
            other.name == cam.name && other.stream == cam.stream ==> #[trigger] gathered_report(
                other,
                found,
            ) == gathered_report(cam, found),
{
}

/// The whole report carries the version and the profile, and one report for each
/// camera, that of the camera and its probe. Every camera can be reported on:
/// a disabled one whatever came of a probe, an enabled one that was probed.
pub proof fn law_whole_report(
    cams: Seq<CameraConfig>,
    outcomes: Seq<ProbeOutcome>,
    version: Seq<char>,
    profile: Seq<char>,
)
    requires
        cams.len() == outcomes.len(),
        forall|i: int|
            0 <= i < cams.len() ==> !(#[trigger] cams[i]).enabled || outcomes[i] is Gathered
                || outcomes[i] is Failed || outcomes[i] is TimedOut,
    ensures
        are_outcomes_of(cams, outcomes),
        ({
            let report = health_report(Some(cams), outcomes, version, profile);
            &&& report.version == version
            &&& report.profile == profile
            &&& report.cameras.len() == cams.len()
            &&& forall|i: int|
                0 <= i < cams.len() ==> #[trigger] report.cameras[i] == camera_report(
                    cams[i],
                    outcomes[i],
                )
        }),
        health_report(None, outcomes, version, profile).version == version,
        health_report(None, outcomes, version, profile).profile == profile,
{
}

/// The status code is 200 just when the configuration could be read and every
/// enabled camera was probed and found idle, stopped, or connected and live; it
/// is 503 otherwise. An enabled camera is probed for two seconds at most, a
/// disabled one not at all.
pub proof fn law_status_tells_readiness(
    config: Option<Seq<CameraConfig>>,
    outcomes: Seq<ProbeOutcome>,
    version: Seq<char>,
    profile: Seq<char>,
    cam: CameraConfig,
)
    requires
        config is Some ==> are_outcomes_of(config->0, outcomes),
    ensures
        ({
            let ready = config is Some && forall|i: int|
                0 <= i < config->0.len() && (#[trigger] config->0[i]).enabled ==> {
                    &&& outcomes[i] matches ProbeOutcome::Gathered(found)
                    &&& found.diag.phase is Idle || found.diag.phase is Stopped || (
                    found.diag.phase is Connected && found.live)
                };
            status_code(health_report(config, outcomes, version, profile).healthy) == (if ready {
                200u16
            } else {
                503u16
            })
        }),
        probe_limit(cam) == (if cam.enabled {
            Some(2000u64)
        } else {
            None
        }),
{
    law_overall_health(config, outcomes, version, profile);
    if config is Some {
        let cams = config->0;
        let ready = forall|i: int|
            0 <= i < config->0.len() && (#[trigger] config->0[i]).enabled ==> {
                &&& outcomes[i] matches ProbeOutcome::Gathered(found)
                &&& found.diag.phase is Idle || found.diag.phase is Stopped || (
                found.diag.phase is Connected && found.live)
            };
        if ready {
            assert forall|i: int| 0 <= i < cams.len() implies is_ready(
                #[trigger] cams[i],
                outcomes[i],
            ) by {}
        } else {
            let i = choose|i: int|
                0 <= i < config->0.len() && (#[trigger] config->0[i]).enabled && !{
                    &&& outcomes[i] matches ProbeOutcome::Gathered(found)
                    &&& found.diag.phase is Idle || found.diag.phase is Stopped || (
                    found.diag.phase is Connected && found.live)
                };
            assert(!is_ready(cams[i], outcomes[i]));
        }
    }
}

/// The number that a row of digits tells.
pub open spec fn told_by(digits: Seq<char>) -> int
    decreases digits.len(),
{
    if digits.len() == 0 {
        0
    } else {
        10 * told_by(digits.drop_last()) + (digits.last() as int - '0' as int)
    }
}

/// A number in decimal tells that number, in digits alone and without a leading
/// zero but for zero itself.
pub proof fn law_decimal_tells_the_number(n: nat)
    ensures
        told_by(decimal(n)) == n,
        decimal(n).len() > 0,
        forall|i: int|
            0 <= i < decimal(n).len() ==> '0' as int <= #[trigger] decimal(n)[i] as int <= '9'
                as int,
        n > 0 ==> decimal(n)[0] != '0',
        n == 0 ==> decimal(n).len() == 1,
    decreases n,
{
    if n < 10 {
        assert(decimal(n).drop_last() =~= seq![]);
        assert(told_by(decimal(n).drop_last()) == 0);
    } else {
        law_decimal_tells_the_number(n / 10);
        assert(decimal(n).drop_last() =~= decimal(n / 10));
        assert(decimal(n).last() == digit(n % 10));
        assert forall|i: int| 0 <= i < decimal(n).len() implies '0' as int
            <= #[trigger] decimal(n)[i] as int <= '9' as int by {
            if i < decimal(n).len() - 1 {
                assert(decimal(n)[i] == decimal(n / 10)[i]);
            }
        }
        assert(decimal(n)[0] == decimal(n / 10)[0]);
    }
}

/// The address to listen on is the configured one, a colon and the port, of which
/// the digits after the colon tell the number.
pub proof fn law_address_names_the_port(cfg: HealthcheckConfig)
    ensures
        ({
            let text = address_text(cfg);
            let split = cfg.bind_addr@.len() as int;
            &&& text.len() > split + 1
            &&& text.subrange(0, split) == cfg.bind_addr@
            &&& text[split] == ':'
            &&& text.subrange(split + 1, text.len() as int) == decimal(cfg.port as nat)
            &&& told_by(text.subrange(split + 1, text.len() as int)) == cfg.port
        }),
{
    reveal_strlit(":");
    law_decimal_tells_the_number(cfg.port as nat);
    let text = address_text(cfg);
    let split = cfg.bind_addr@.len() as int;
    assert(text.subrange(0, split) =~= cfg.bind_addr@);
    assert(text.subrange(split + 1, text.len() as int) =~= decimal(cfg.port as nat));
}

} // verus!
