//! RGB/RGBA colors and the radar moments of color ramps.

use vstd::prelude::*;
use crate::text::{decimal, push_decimal, push_str};
use super::rgba_text;

verus! {

/// RGB color with u8 components.
#[derive(Debug, Clone, Copy, PartialEq, Eq)]
pub struct Rgb {
    /// Red component (0-255)
    pub r: u8,
    /// Green component (0-255)
    pub g: u8,
    /// Blue component (0-255)
    pub b: u8,
}

/// How `Display` shows an RGB color: `rgb(r, g, b)`.
pub open spec fn rgb_text(r: u8, g: u8, b: u8) -> Seq<char> {
    "rgb("@ + decimal(r as nat) + ", "@ + decimal(g as nat) + ", "@ + decimal(b as nat) + ")"@
}

impl Rgb {
    /// Creates a new RGB color.
    pub fn new(r: u8, g: u8, b: u8) -> (c: Self)
        ensures
            c == (Rgb { r, g, b }),
    {
        Rgb { r, g, b }
    }

    /// The color fully opaque (alpha 255).
    pub fn to_rgba(self) -> (c: Rgba)
        ensures
            c == (Rgba { r: self.r, g: self.g, b: self.b, a: 255 }),
    {
        Rgba::new(self.r, self.g, self.b, 255)
    }

    /// The color with the given alpha.
    pub fn to_rgba_with_alpha(self, a: u8) -> (c: Rgba)
        ensures
            c == (Rgba { r: self.r, g: self.g, b: self.b, a }),
    {
        Rgba::new(self.r, self.g, self.b, a)
    }

    /// What `Display` shows: `rgb(r, g, b)`.
    pub fn to_display_string(&self) -> (s: String)
        ensures
            s@ == rgb_text(self.r, self.g, self.b),
    {
        let mut s = String::new();
        push_str(&mut s, "rgb(");
        push_decimal(&mut s, self.r as u64);
        push_str(&mut s, ", ");
        push_decimal(&mut s, self.g as u64);
        push_str(&mut s, ", ");
        push_decimal(&mut s, self.b as u64);
        push_str(&mut s, ")");
        proof {
            let e: Seq<char> = Seq::empty();
            assert(e + rgb_text(self.r, self.g, self.b) == rgb_text(self.r, self.g, self.b));
        }
        s
    }
}

/// RGBA color with u8 components.
#[derive(Debug, Clone, Copy, PartialEq, Eq)]
pub struct Rgba {
    /// Red component (0-255)
    pub r: u8,
    /// Green component (0-255)
    pub g: u8,
    /// Blue component (0-255)
    pub b: u8,
    /// Alpha component (0-255)
    pub a: u8,
}

impl Rgba {
    /// Creates a new RGBA color.
    pub fn new(r: u8, g: u8, b: u8, a: u8) -> (c: Self)
        ensures
            c == (Rgba { r, g, b, a }),
    {
        Rgba { r, g, b, a }
    }

    /// The fully transparent color.
    pub fn transparent() -> (c: Self)
        ensures
            c == (Rgba { r: 0, g: 0, b: 0, a: 0 }),
    {
        Rgba { r: 0, g: 0, b: 0, a: 0 }
    }

    /// The fully opaque black.
    pub fn opaque() -> (c: Self)
        ensures
            c == (Rgba { r: 0, g: 0, b: 0, a: 255 }),
    {
        Rgba { r: 0, g: 0, b: 0, a: 255 }
    }

    /// What `Display` shows: `rgba(r, g, b, a)`.
    pub fn to_display_string(&self) -> (s: String)
        ensures
            s@ == rgba_text(self.r, self.g, self.b, self.a),
    {
        super::rgba_string(self.r, self.g, self.b, self.a)
    }
}

/// Radar moment types that color ramps cover.
#[derive(Debug, Clone, Copy, PartialEq, Eq, Hash)]
pub enum RadarMoment {
    /// Reflectivity (dBZ)
    Reflectivity,
    /// Velocity (m/s)
    Velocity,
    /// Spectrum Width (m/s)
    SpectrumWidth,
    /// Differential Reflectivity (dB)
    Zdr,
    /// Correlation Coefficient (0-1)
    Cc,
    /// Differential Phase (degrees/km)
    Kdp,
}

/// The NEXRAD code of a color-ramp moment.
pub open spec fn ramp_moment_code(m: RadarMoment) -> Seq<char> {
    match m {
        RadarMoment::Reflectivity => "REF"@,
        RadarMoment::Velocity => "VEL"@,
        RadarMoment::SpectrumWidth => "SW"@,
        RadarMoment::Zdr => "ZDR"@,
        RadarMoment::Cc => "CC"@,
        RadarMoment::Kdp => "KDP"@,
    }
}

impl RadarMoment {
    /// The NEXRAD moment code.
    pub fn code(&self) -> (r: &'static str)
        ensures
            r@ == ramp_moment_code(*self),
    {
        match self {
            RadarMoment::Reflectivity => "REF",
            RadarMoment::Velocity => "VEL",
            RadarMoment::SpectrumWidth => "SW",
            RadarMoment::Zdr => "ZDR",
            RadarMoment::Cc => "CC",
            RadarMoment::Kdp => "KDP",
        }
    }
}

} // verus!
