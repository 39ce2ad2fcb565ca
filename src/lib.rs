//! The lifecycle controller of a single-window GPU renderer: which session
//! exists, when the surface is reconfigured, when a frame is drawn and when
//! the event loop ends, decided from plain events and acquisition outcomes.
pub mod config;
pub mod lifecycle;
pub mod selection;
pub mod laws;

pub use config::SurfaceConfig;
pub use lifecycle::{Acquire, Action, Controller, Event, Phase};
pub use selection::fallback_adapter;
