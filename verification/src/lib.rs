//! A status-bar module registry: heterogeneous, config-driven modules
//! (clock, battery, audio) with independently placed widgets arranged in
//! left/center/right regions.
//!
//! The registry is constructed once from a [`config::ModulesConfig`],
//! routes incoming events to the owning module or widget, and renders a
//! plain data tree that a host GUI toolkit can display.

pub mod config;
pub mod events;
pub mod fmt;
pub mod ids;
pub mod laws;
pub mod module;
pub mod registry;
pub mod render;
pub mod time;
pub mod util;
