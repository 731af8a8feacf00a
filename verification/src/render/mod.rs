//! Colors and radar moment kinds used when rendering radar data.

use vstd::prelude::*;
use crate::text::{decimal, push_decimal, push_str};
use crate::decode::types::{Gate, RadialView, Sweep};

pub mod color;

verus! {

/// RGBA color representation.
#[derive(Debug, Clone, Copy, PartialEq, Eq)]
pub struct Rgba {
    /// Red component (0-255)
    pub r: u8,
    /// Green component (0-255)
    pub g: u8,
    /// Blue component (0-255)
    pub b: u8,
    /// Alpha component (0-255)
    pub a: u8,
}

/// How `Display` shows an RGBA color: `rgba(r, g, b, a)`.
pub open spec fn rgba_text(r: u8, g: u8, b: u8, a: u8) -> Seq<char> {
    "rgba("@ + decimal(r as nat) + ", "@ + decimal(g as nat) + ", "@ + decimal(b as nat) + ", "@
        + decimal(a as nat) + ")"@
}

/// Writes `rgba(r, g, b, a)`.
pub fn rgba_string(r: u8, g: u8, b: u8, a: u8) -> (s: String)
    ensures
        s@ == rgba_text(r, g, b, a),
{
    let mut s = String::new();
    push_str(&mut s, "rgba(");
    push_decimal(&mut s, r as u64);
    push_str(&mut s, ", ");
    push_decimal(&mut s, g as u64);
    push_str(&mut s, ", ");
    push_decimal(&mut s, b as u64);
    push_str(&mut s, ", ");
    push_decimal(&mut s, a as u64);
    push_str(&mut s, ")");
    proof {
        let e: Seq<char> = Seq::empty();
        assert(e + rgba_text(r, g, b, a) == rgba_text(r, g, b, a));
    }
    s
}

impl Rgba {
    /// Creates a new RGBA color.
    pub fn new(r: u8, g: u8, b: u8, a: u8) -> (c: Self)
        ensures
            c == (Rgba { r, g, b, a }),
    {
        Rgba { r, g, b, a }
    }

    /// The color of four bytes `[r, g, b, a]`.
    pub fn from_bytes(bytes: [u8; 4]) -> (c: Self)
        ensures
            c == (Rgba { r: bytes@[0], g: bytes@[1], b: bytes@[2], a: bytes@[3] }),
    {
        Rgba { r: bytes[0], g: bytes[1], b: bytes[2], a: bytes[3] }
    }

    /// The fully transparent color.
    pub fn transparent() -> (c: Self)
        ensures
            c == (Rgba { r: 0, g: 0, b: 0, a: 0 }),
    {
        Rgba { r: 0, g: 0, b: 0, a: 0 }
    }

    /// The components as `[r, g, b, a]`.
    pub fn to_array(&self) -> (arr: [u8; 4])
        ensures
            arr@ == seq![self.r, self.g, self.b, self.a],
    {
        let arr = [self.r, self.g, self.b, self.a];
        assert(arr@ =~= seq![self.r, self.g, self.b, self.a]);
        arr
    }

    /// What `Display` shows: `rgba(r, g, b, a)`.
    pub fn to_display_string(&self) -> (s: String)
        ensures
            s@ == rgba_text(self.r, self.g, self.b, self.a),
    {
        rgba_string(self.r, self.g, self.b, self.a)
    }
}

/// Radar moment types.
#[derive(Debug, Clone, Copy, PartialEq, Eq)]
pub enum RadarMoment {
    /// Reflectivity (dBZ)
    Reflectivity,
    /// Velocity (m/s)
    Velocity,
    /// Spectrum Width (m/s)
    SpectrumWidth,
    /// Differential Reflectivity (dB)
    Zdr,
    /// Correlation Coefficient (0-1)
    Cc,
    /// Differential Phase (degrees)
    Kdp,
}

/// The NEXRAD code of a rendered moment.
pub open spec fn radar_moment_code(m: RadarMoment) -> Seq<char> {
    match m {
        RadarMoment::Reflectivity => "REF"@,
        RadarMoment::Velocity => "VEL"@,
        RadarMoment::SpectrumWidth => "SW"@,
        RadarMoment::Zdr => "ZDR"@,
        RadarMoment::Cc => "CC"@,
        RadarMoment::Kdp => "KDP"@,
    }
}

impl RadarMoment {
    /// The NEXRAD moment code.
    pub fn code(&self) -> (r: &'static str)
        ensures
            r@ == radar_moment_code(*self),
    {
        match self {
            RadarMoment::Reflectivity => "REF",
            RadarMoment::Velocity => "VEL",
            RadarMoment::SpectrumWidth => "SW",
            RadarMoment::Zdr => "ZDR",
            RadarMoment::Cc => "CC",
            RadarMoment::Kdp => "KDP",
        }
    }
}

/// Sentinel values for radar data.
#[derive(Debug, Clone, Copy, PartialEq, Eq)]
pub enum RadarSentinel {
    /// No data available (below threshold)
    NoData,
    /// Range folded (ambiguous data)
    RangeFolded,
    /// Data is valid
    Valid,
}

/// The reading a gate holds for a radar moment (an `f32` bit pattern).
pub open spec fn moment_value(g: Gate, m: RadarMoment) -> Option<u32> {
    match m {
        RadarMoment::Reflectivity => g.reflectivity,
        RadarMoment::Velocity => g.velocity,
        RadarMoment::SpectrumWidth => g.spectrum_width,
        RadarMoment::Zdr => g.zdr,
        RadarMoment::Cc => g.cc,
        RadarMoment::Kdp => g.kdp,
    }
}

/// The reading `gate` holds for `moment`.
pub fn get_moment_value(gate: &Gate, moment: RadarMoment) -> (r: Option<u32>)
    ensures
        r == moment_value(*gate, moment),
{
    match moment {
        RadarMoment::Reflectivity => gate.reflectivity,
        RadarMoment::Velocity => gate.velocity,
        RadarMoment::SpectrumWidth => gate.spectrum_width,
        RadarMoment::Zdr => gate.zdr,
        RadarMoment::Cc => gate.cc,
        RadarMoment::Kdp => gate.kdp,
    }
}

/// The samples of one radial: `(azimuth, range, value)` for each gate that
/// has the moment, in gate order.
pub open spec fn radial_samples(r: RadialView, m: RadarMoment) -> Seq<(u32, u32, u32)>
    decreases r.gates.len(),
{
    if r.gates.len() == 0 {
        Seq::empty()
    } else {
        let rest = radial_samples(RadialView { gates: r.gates.drop_last(), ..r }, m);
        match moment_value(r.gates.last(), m) {
            Some(v) => rest.push((r.azimuth, r.gates.last().range, v)),
            None => rest,
        }
    }
}

/// The samples of radials, radial after radial.
pub open spec fn radials_samples(rs: Seq<RadialView>, m: RadarMoment) -> Seq<(u32, u32, u32)>
    decreases rs.len(),
{
    if rs.len() == 0 {
        Seq::empty()
    } else {
        radials_samples(rs.drop_last(), m) + radial_samples(rs.last(), m)
    }
}

/// The points of a sweep that carry `moment`: `(azimuth, range, value)` for
/// every gate with a value, radial by radial (the gates that projection
/// places on the map).
pub fn sweep_moment_samples(sweep: &Sweep, moment: RadarMoment) -> (v: Vec<(u32, u32, u32)>)
    ensures
        v@ == radials_samples(sweep@.radials, moment),
{
    let mut v: Vec<(u32, u32, u32)> = Vec::new();
    let mut i: usize = 0;
    let ghost rs = sweep@.radials;
    while i < sweep.radials.len()
        invariant
            i <= sweep.radials@.len(),
            rs == sweep@.radials,
            rs.len() == sweep.radials@.len(),
            v@ == radials_samples(rs.take(i as int), moment),
        decreases sweep.radials@.len() - i,
    {
        let radial = &sweep.radials[i];
        let ghost before = v@;
        let ghost rv = rs[i as int];
        assert(rv == radial@);
        let mut k: usize = 0;
        while k < radial.gates.len()
            invariant
                k <= radial.gates@.len(),
                rv == radial@,
                v@ == before + radial_samples(RadialView { gates: rv.gates.take(k as int), ..rv }, moment),
            decreases radial.gates@.len() - k,
        {
            let g = radial.gates[k];
            let ghost cur = RadialView { gates: rv.gates.take(k + 1), ..rv };
            assert(cur.gates.drop_last() =~= rv.gates.take(k as int));
            assert(cur.gates.last() == g);
            if let Some(val) = get_moment_value(&g, moment) {
                v.push((radial.azimuth, g.range, val));
                assert(v@ =~= before + radial_samples(cur, moment));
            }
            k = k + 1;
        }
        proof {
            assert(rv.gates.take(k as int) =~= rv.gates);
            assert(RadialView { gates: rv.gates.take(k as int), ..rv } == rv);
            assert(rs.take(i + 1).drop_last() =~= rs.take(i as int));
            assert(rs.take(i + 1).last() == rv);
        }
        i = i + 1;
    }
    assert(rs.take(i as int) =~= rs);
    v
}

/// Each moment is read from a gate's own field of that moment, and from
/// nothing else: setting one field of a gate changes the value of its own
/// moment to what was set and leaves every other moment's value as it was.
pub proof fn lemma_moment_reads_its_own_field(g: Gate, v: Option<u32>)
    ensures
        moment_value(g, RadarMoment::Reflectivity) == g.reflectivity,
        moment_value(g, RadarMoment::Velocity) == g.velocity,
        moment_value(g, RadarMoment::SpectrumWidth) == g.spectrum_width,
        moment_value(g, RadarMoment::Zdr) == g.zdr,
        moment_value(g, RadarMoment::Cc) == g.cc,
        moment_value(g, RadarMoment::Kdp) == g.kdp,
        forall|m: RadarMoment| #[trigger] moment_value(Gate { reflectivity: v, ..g }, m) == (if m
            == RadarMoment::Reflectivity { v } else { moment_value(g, m) }),
        forall|m: RadarMoment| #[trigger] moment_value(Gate { velocity: v, ..g }, m) == (if m
            == RadarMoment::Velocity { v } else { moment_value(g, m) }),
        forall|m: RadarMoment| #[trigger] moment_value(Gate { spectrum_width: v, ..g }, m) == (if m
            == RadarMoment::SpectrumWidth { v } else { moment_value(g, m) }),
        forall|m: RadarMoment| #[trigger] moment_value(Gate { zdr: v, ..g }, m) == (if m == RadarMoment::Zdr {
            v
        } else {
            moment_value(g, m)
        }),
        forall|m: RadarMoment| #[trigger] moment_value(Gate { cc: v, ..g }, m) == (if m == RadarMoment::Cc {
            v
        } else {
            moment_value(g, m)
        }),
        forall|m: RadarMoment| #[trigger] moment_value(Gate { kdp: v, ..g }, m) == (if m == RadarMoment::Kdp {
            v
        } else {
            moment_value(g, m)
        }),
{
}

} // verus!
