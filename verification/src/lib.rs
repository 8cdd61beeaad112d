//! The decision logic of a camera bridge: how a camera connection is kept
//! alive, how a video stream is started and stopped, and how the health of all
//! cameras is reported.
//!
//! Every module is a set of pure decisions. A driver performs the awaits (it
//! talks to the camera, sleeps, reads channels) and hands each outcome back as
//! an event; the functions here say what the next state is and what to do next.

pub mod bc;
pub mod camera;
pub mod camthread;
pub mod clock;
pub mod config;
pub mod error;
pub mod healthcheck;
pub mod stream;
pub mod stream_task;
