//! Elevation tilt selector: the elevation angles of a volume scan and the
//! one selected.
//!
//! Angles are kept as the bit patterns of their `f32` values (what
//! `f32::to_bits` returns) and compared as floats are compared with `==`.

use vstd::prelude::*;
use crate::decode::ieee::{f32_bits_eq, f32_eq};

verus! {

/// Messages of the elevation tilt selector.
#[derive(Debug, Clone, Copy)]
pub enum ElevationTiltSelectorMessage {
    /// An elevation angle (`f32` bit pattern) was chosen.
    SelectElevation(u32),
}

/// Whether `s` holds an angle equal (as a float) to `x`.
pub open spec fn holds_angle(s: Seq<u32>, x: u32) -> bool {
    exists|i: int| 0 <= i < s.len() && f32_eq(#[trigger] s[i], x)
}

/// The first angle of `s`, if any.
pub open spec fn first_angle(s: Seq<u32>) -> Option<u32> {
    if s.len() > 0 { Some(s[0]) } else { None }
}

/// The state of the elevation tilt selector.
#[derive(Debug, Clone)]
pub struct ElevationTiltSelector {
    available_elevations: Vec<u32>,
    selected_elevation: Option<u32>,
}

/// Whether `v` holds an angle equal (as a float) to `x`.
fn contains_angle(v: &Vec<u32>, x: u32) -> (r: bool)
    ensures
        r == holds_angle(v@, x),
{
    let mut i: usize = 0;
    while i < v.len()
        invariant
            i <= v@.len(),
            forall|j: int| 0 <= j < i ==> !f32_eq(#[trigger] v@[j], x),
        decreases v@.len() - i,
    {
        if f32_bits_eq(v[i], x) {
            return true;
        }
        i = i + 1;
    }
    false
}

impl ElevationTiltSelector {
    /// The angles offered (specification).
    pub closed spec fn angles(&self) -> Seq<u32> {
        self.available_elevations@
    }

    /// The angle selected (specification).
    pub closed spec fn selected(&self) -> Option<u32> {
        self.selected_elevation
    }

    /// A selector with no angles.
    pub fn new() -> (s: Self)
        ensures
            s.angles() == Seq::<u32>::empty(),
            s.selected() is None,
    {
        ElevationTiltSelector { available_elevations: Vec::new(), selected_elevation: None }
    }

    /// A selector offering `elevations`, the first one selected.
    pub fn with_elevations(elevations: Vec<u32>) -> (s: Self)
        ensures
            s.angles() == elevations@,
            s.selected() == first_angle(elevations@),
    {
        let selected_elevation = if elevations.len() > 0 { Some(elevations[0]) } else { None };
        ElevationTiltSelector { available_elevations: elevations, selected_elevation }
    }

    /// The angle selected.
    pub fn selected_elevation(&self) -> (r: Option<u32>)
        ensures
            r == self.selected(),
    {
        self.selected_elevation
    }

    /// The angles offered.
    pub fn elevations(&self) -> (r: &[u32])
        ensures
            r@ == self.angles(),
    {
        self.available_elevations.as_slice()
    }

    /// Selects `elevation` when it is offered; otherwise nothing changes.
    pub fn set_elevation(&mut self, elevation: u32)
        ensures
            final(self).angles() == old(self).angles(),
            final(self).selected() == if holds_angle(old(self).angles(), elevation) {
                Some(elevation)
            } else {
                old(self).selected()
            },
    {
        if contains_angle(&self.available_elevations, elevation) {
            self.selected_elevation = Some(elevation);
        }
    }

    /// Offers `elevations`; the selection stays when still offered, else the
    /// first angle (or none) is selected.
    pub fn set_elevations(&mut self, elevations: Vec<u32>)
        ensures
            final(self).angles() == elevations@,
            final(self).selected() == match old(self).selected() {
                Some(s) => if holds_angle(elevations@, s) {
                    Some(s)
                } else {
                    first_angle(elevations@)
                },
                None => first_angle(elevations@),
            },
    {
        self.available_elevations = elevations;
        let keep = match self.selected_elevation {
            Some(s) => contains_angle(&self.available_elevations, s),
            None => false,
        };
        if !keep {
            self.selected_elevation = if self.available_elevations.len() > 0 {
                Some(self.available_elevations[0])
            } else {
                None
            };
        }
    }

    /// Handles a message: an offered angle becomes the selection.
    pub fn update(&mut self, message: ElevationTiltSelectorMessage)
        ensures
            final(self).angles() == old(self).angles(),
            match message {
                ElevationTiltSelectorMessage::SelectElevation(e) => final(self).selected() == if holds_angle(
                    old(self).angles(),
                    e,
                ) {
                    Some(e)
                } else {
                    old(self).selected()
                },
            },
    {
        let ElevationTiltSelectorMessage::SelectElevation(elevation) = message;
        self.set_elevation(elevation);
    }
}

impl Default for ElevationTiltSelector {
    fn default() -> (s: Self)
        ensures
            s.angles() == Seq::<u32>::empty(),
            s.selected() is None,
    {
        Self::new()
    }
}

} // verus!
