//! NEXRAD Archive2 decoding.

pub mod bytes;
pub mod ieee;
pub mod error;
pub mod types;
pub mod msg31;
pub mod msg1;
pub mod volume;
pub mod utf8;
