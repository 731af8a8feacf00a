//! Tempest: verified core of a NEXRAD weather radar viewer.
//!
//! The crate decodes Archive2 radar messages, parses S3 bucket listings,
//! tracks map tiles and radar scans in bounded caches, and drives the
//! state of the viewer's controls.

pub mod decode;
pub mod fetch;
pub mod golden;
pub mod map;
pub mod render;
pub mod text;
pub mod ui;
