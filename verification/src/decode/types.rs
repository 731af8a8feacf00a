//! Shared types of decoded NEXRAD data.
//!
//! Angles, ranges and moment values are `f32` quantities; they are held as the
//! bit pattern of that `f32` (see `decode::ieee`).

use vstd::prelude::*;
use super::utf8::{
    str_from_utf8, string_from_utf8_lossy, utf8_decoded, utf8_lossy, Utf8Failure,
};

verus! {

/// Modified Julian Date (MJD): days since May 23, 1968.
pub type Mjd = u16;

/// Time in milliseconds since midnight UTC.
pub type Milliseconds = u32;

/// ICAO station identifier (4 bytes, such as `KTLX`).
#[derive(Debug, Clone, Copy, Eq)]
pub struct StationId(pub [u8; 4]);

impl PartialEq for StationId {
    fn eq(&self, other: &Self) -> (r: bool) {
        let r = self.0[0] == other.0[0] && self.0[1] == other.0[1] && self.0[2] == other.0[2] && self.0[3]
            == other.0[3];
        proof {
            if r {
                assert(self.0@ =~= other.0@);
            }
            assert(self.0@ == other.0@ ==> (self.0@[0] == other.0@[0] && self.0@[1] == other.0@[1]
                && self.0@[2] == other.0@[2] && self.0@[3] == other.0@[3]));
        }
        r
    }
}

impl vstd::std_specs::cmp::PartialEqSpecImpl for StationId {
    open spec fn obeys_eq_spec() -> bool {
        true
    }

    open spec fn eq_spec(&self, other: &StationId) -> bool {
        self.0@ == other.0@
    }
}

/// Two station IDs are the same exactly when their bytes are (what `==`
/// on station IDs compares).
pub proof fn lemma_station_id_equality(a: StationId, b: StationId)
    ensures
        (a == b) <==> (a.0@ == b.0@),
{
    if a.0@ == b.0@ {
        assert forall|i: int| 0 <= i < 4 implies a.0[i] == b.0[i] by {
            assert(a.0@[i] == b.0@[i]);
        }
        assert(a.0 =~= b.0);
    }
}

impl StationId {
    /// Creates a new StationId from raw bytes.
    pub fn new(bytes: [u8; 4]) -> (r: Self)
        ensures
            r.0@ == bytes@,
    {
        StationId(bytes)
    }

    /// The station ID as UTF-8 text, or why its bytes are not UTF-8: the
    /// longest prefix that decodes ends at `valid_up_to`.
    pub fn as_str(&self) -> (r: Result<&str, Utf8Failure>)
        ensures
            (r is Ok) == (utf8_decoded(self.0@) is Some),
            r is Ok ==> utf8_decoded(self.0@) == Some(r->Ok_0@),
            r matches Err(f) ==> f.valid_up_to < 4 && utf8_decoded(self.0@.take(f.valid_up_to as int)) is Some,
            r matches Err(f) ==> forall|k: int|
                f.valid_up_to < k <= 4 ==> utf8_decoded(#[trigger] self.0@.take(k)) is None,
    {
        let r = str_from_utf8(self.0.as_slice());
        proof {
            assert(self.0@.take(4) =~= self.0@);
        }
        r
    }

    /// The station ID as text, with invalid UTF-8 replaced by U+FFFD.
    pub fn as_str_lossy(&self) -> (r: String)
        ensures
            r@ == utf8_lossy(self.0@),
            utf8_decoded(self.0@) is Some ==> r@ == utf8_decoded(self.0@)->0,
    {
        string_from_utf8_lossy(self.0.as_slice())
    }

    /// What `Display` shows: the lossy text of the ID.
    pub fn to_display_string(&self) -> (r: String)
        ensures
            r@ == utf8_lossy(self.0@),
    {
        self.as_str_lossy()
    }
}

/// Data moments available in NEXRAD radar data.
#[derive(Debug, Clone, Copy, PartialEq, Eq)]
pub enum Moment {
    /// Reflectivity (dBZ)
    Reflectivity,
    /// Velocity (m/s or knots)
    Velocity,
    /// Spectrum Width (m/s or knots)
    SpectrumWidth,
    /// Differential Reflectivity (dB)
    Zdr,
    /// Correlation Coefficient (unitless)
    Cc,
    /// Differential Phase (degrees)
    Kdp,
}

/// The NEXRAD code of a moment.
pub open spec fn moment_code_text(m: Moment) -> Seq<char> {
    match m {
        Moment::Reflectivity => "REF"@,
        Moment::Velocity => "VEL"@,
        Moment::SpectrumWidth => "SW"@,
        Moment::Zdr => "ZDR"@,
        Moment::Cc => "CC"@,
        Moment::Kdp => "KDP"@,
    }
}

impl Moment {
    /// The NEXRAD moment code.
    pub fn code(&self) -> (r: &'static str)
        ensures
            r@ == moment_code_text(*self),
    {
        match self {
            Moment::Reflectivity => "REF",
            Moment::Velocity => "VEL",
            Moment::SpectrumWidth => "SW",
            Moment::Zdr => "ZDR",
            Moment::Cc => "CC",
            Moment::Kdp => "KDP",
        }
    }
}

/// A single radar gate with moment data (each value the bits of an `f32`).
#[derive(Debug, Clone, Copy, PartialEq, Eq)]
pub struct Gate {
    /// Distance from radar to gate center in meters.
    pub range: u32,
    /// Reflectivity in dBZ, if available.
    pub reflectivity: Option<u32>,
    /// Velocity in m/s, if available.
    pub velocity: Option<u32>,
    /// Spectrum width in m/s, if available.
    pub spectrum_width: Option<u32>,
    /// Differential reflectivity in dB, if available.
    pub zdr: Option<u32>,
    /// Correlation coefficient (0-1), if available.
    pub cc: Option<u32>,
    /// Differential phase in degrees, if available.
    pub kdp: Option<u32>,
}

/// A gate at `range` with no moment values.
pub open spec fn empty_gate(range: u32) -> Gate {
    Gate {
        range,
        reflectivity: None,
        velocity: None,
        spectrum_width: None,
        zdr: None,
        cc: None,
        kdp: None,
    }
}

impl Gate {
    /// Creates a new gate with the given range and no moments.
    pub fn new(range: u32) -> (g: Self)
        ensures
            g == empty_gate(range),
    {
        Gate {
            range,
            reflectivity: None,
            velocity: None,
            spectrum_width: None,
            zdr: None,
            cc: None,
            kdp: None,
        }
    }
}

/// A single radial: the gates along one azimuth.
#[derive(Debug, Clone, PartialEq)]
pub struct Radial {
    /// Azimuth angle in degrees (0-360, 0 = North).
    pub azimuth: u32,
    /// Gates along this radial.
    pub gates: Vec<Gate>,
}

/// The value of a radial.
pub struct RadialView {
    pub azimuth: u32,
    pub gates: Seq<Gate>,
}

impl View for Radial {
    type V = RadialView;

    open spec fn view(&self) -> RadialView {
        RadialView { azimuth: self.azimuth, gates: self.gates@ }
    }
}

impl Radial {
    /// Creates a new radial with the given azimuth and no gates.
    pub fn new(azimuth: u32) -> (r: Self)
        ensures
            r@ == (RadialView { azimuth, gates: Seq::empty() }),
    {
        Radial { azimuth, gates: Vec::new() }
    }
}

/// A single sweep (one elevation angle) of a volume scan.
#[derive(Debug, Clone, PartialEq)]
pub struct Sweep {
    /// Elevation angle in degrees.
    pub elevation: u32,
    /// Radials in this sweep.
    pub radials: Vec<Radial>,
}

/// The value of a sweep.
pub struct SweepView {
    pub elevation: u32,
    pub radials: Seq<RadialView>,
}

impl View for Sweep {
    type V = SweepView;

    open spec fn view(&self) -> SweepView {
        SweepView { elevation: self.elevation, radials: self.radials@.map_values(|r: Radial| r@) }
    }
}

impl Sweep {
    /// Creates a new sweep with the given elevation and no radials.
    pub fn new(elevation: u32) -> (s: Self)
        ensures
            s@ == (SweepView { elevation, radials: Seq::empty() }),
    {
        let s = Sweep { elevation, radials: Vec::new() };
        assert(s@.radials =~= Seq::empty());
        s
    }
}

/// A complete volume scan from a radar station.
#[derive(Debug, Clone, PartialEq)]
pub struct VolumeScan {
    /// Radar station identifier (such as `KTLX`).
    pub station_id: String,
    /// Timestamp of the volume scan, in seconds since the Unix epoch (UTC).
    pub timestamp: i64,
    /// Volume Coverage Pattern number.
    pub vcp: u16,
    /// Sweeps in this volume scan.
    pub sweeps: Vec<Sweep>,
}

/// The value of a volume scan.
pub struct VolumeScanView {
    pub station_id: Seq<char>,
    pub timestamp: i64,
    pub vcp: u16,
    pub sweeps: Seq<SweepView>,
}

impl View for VolumeScan {
    type V = VolumeScanView;

    open spec fn view(&self) -> VolumeScanView {
        VolumeScanView {
            station_id: self.station_id@,
            timestamp: self.timestamp,
            vcp: self.vcp,
            sweeps: self.sweeps@.map_values(|s: Sweep| s@),
        }
    }
}

impl VolumeScan {
    /// Creates a new volume scan with no sweeps.
    pub fn new(station_id: String, timestamp: i64, vcp: u16) -> (v: Self)
        ensures
            v@ == (VolumeScanView {
                station_id: station_id@,
                timestamp,
                vcp,
                sweeps: Seq::empty(),
            }),
    {
        let v = VolumeScan { station_id, timestamp, vcp, sweeps: Vec::new() };
        assert(v@.sweeps =~= Seq::empty());
        v
    }
}

} // verus!
