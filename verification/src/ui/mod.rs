//! State of the viewer's controls: each control is a value that messages update.

pub mod cache_manager;
pub mod color_legend;
pub mod elevation_tilt_selector;
pub mod moment_switcher;
pub mod offline_indicator;
pub mod pan;
pub mod station_selector;
pub mod timeline;
