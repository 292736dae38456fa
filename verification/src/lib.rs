//! Verified core of an SDL3 windowing backend for the Bevy engine.
//!
//! The library holds the decisions of the backend: frame pacing, the application
//! loop's state machine, the window registry, monitor bookkeeping and the mapping
//! of SDL events to Bevy window updates. The surrounding Bevy plugin performs the
//! SDL and ECS calls and hands the library plain values.
pub mod changes;
pub mod config;
pub mod context;
pub mod converters;
pub mod event;
pub mod monitors;
pub mod runner;
pub mod window_model;
pub mod windows;

pub use config::{FrameRate, SdlSettings};
pub use context::SdlContext;
pub use event::handle_sdl_window_event;
pub use monitors::{get_refresh_rate_millihertz, SdlMonitors};
pub use windows::{SdlWindows, WindowId};
