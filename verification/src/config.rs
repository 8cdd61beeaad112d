//! The parts of the configuration that decisions rest on.

use vstd::prelude::*;

verus! {

/// Which streams of a camera are exposed.
#[derive(Debug, Clone, Copy, PartialEq, Eq)]
pub enum StreamConfig {
    /// None of them.
    Off,
    /// All of them.
    All,
    /// The main and the sub stream.
    Both,
    /// The main stream.
    Main,
    /// The sub stream.
    Sub,
    /// The extern stream.
    Extern,
}

/// The configuration of a camera.
#[derive(Debug, Clone, PartialEq, Eq)]
pub struct CameraConfig {
    /// The name of the camera.
    pub name: String,
    /// Whether the camera is used at all.
    pub enabled: bool,
    /// Which of its streams are exposed.
    pub stream: StreamConfig,
    /// Whether its clock is set even if it has a time.
    pub update_time: bool,
}

/// The configuration of the healthcheck endpoint.
#[derive(Debug, Clone, PartialEq, Eq)]
pub struct HealthcheckConfig {
    /// The address to listen on.
    pub bind_addr: String,
    /// The port to listen on.
    pub port: u16,
}

} // verus!
