//! Directions in which the map can be panned.

use vstd::prelude::*;

verus! {

/// Direction of a pan of the map.
#[derive(Debug, Clone, Copy, PartialEq, Eq)]
pub enum PanDirection {
    Up,
    Down,
    Left,
    Right,
}

} // verus!
