//! Color legend: which radar moment's color scale is shown.

use vstd::prelude::*;
use vstd::string::StringExecFns;
use crate::render::color::RadarMoment;
use crate::decode::ieee::{f32_bits_from_int, f32_bits_of_int};
use crate::text::{owned, push_signed_decimal, push_str, signed_decimal};

verus! {

/// Messages of the color legend.
#[derive(Debug, Clone, Copy)]
pub enum ColorLegendMessage {
    /// Show the scale of another moment.
    SetMoment(RadarMoment),
}

/// The color legend's state: the displayed moment.
#[derive(Debug, Clone)]
pub struct ColorLegend {
    current_moment: RadarMoment,
}

impl Default for ColorLegend {
    fn default() -> (l: Self)
        ensures
            l.moment() == RadarMoment::Reflectivity,
    {
        Self::new()
    }
}

impl ColorLegend {
    /// The displayed moment (specification).
    pub closed spec fn moment(&self) -> RadarMoment {
        self.current_moment
    }

    /// A legend for reflectivity.
    pub fn new() -> (l: Self)
        ensures
            l.moment() == RadarMoment::Reflectivity,
    {
        ColorLegend { current_moment: RadarMoment::Reflectivity }
    }

    /// A legend for `moment`.
    pub fn with_moment(moment: RadarMoment) -> (l: Self)
        ensures
            l.moment() == moment,
    {
        ColorLegend { current_moment: moment }
    }

    /// The displayed moment.
    pub fn current_moment(&self) -> (m: RadarMoment)
        ensures
            m == self.moment(),
    {
        self.current_moment
    }

    /// Displays `moment`.
    pub fn set_moment(&mut self, moment: RadarMoment)
        ensures
            final(self).moment() == moment,
    {
        self.current_moment = moment;
    }

    /// Handles a message: the displayed moment becomes the message's moment.
    pub fn update(&mut self, message: ColorLegendMessage)
        ensures
            final(self).moment() == (match message {
                ColorLegendMessage::SetMoment(m) => m,
            }),
    {
        let ColorLegendMessage::SetMoment(moment) = message;
        self.current_moment = moment;
    }
}

/// The legend's title, unit and value range (whole numbers) for a moment.
pub open spec fn legend_label(m: RadarMoment) -> (Seq<char>, Seq<char>, int, int) {
    match m {
        RadarMoment::Reflectivity => ("Reflectivity"@, "dBZ"@, -30, 70),
        RadarMoment::Velocity => ("Velocity"@, "m/s"@, -50, 50),
        RadarMoment::SpectrumWidth => ("Spectrum Width"@, "m/s"@, 0, 30),
        RadarMoment::Zdr => ("ZDR"@, "dB"@, -4, 8),
        RadarMoment::Cc => ("Correlation Coefficient"@, ""@, 0, 1),
        RadarMoment::Kdp => ("KDP"@, "deg/km"@, -2, 10),
    }
}

impl ColorLegend {
    /// The title, unit, and the lowest and highest values of the scale shown
    /// (as `f32` bit patterns).
    pub fn get_label(&self) -> (r: (String, String, u32, u32))
        ensures
            r.0@ == legend_label(self.moment()).0,
            r.1@ == legend_label(self.moment()).1,
            r.2 == f32_bits_of_int(legend_label(self.moment()).2),
            r.3 == f32_bits_of_int(legend_label(self.moment()).3),
    {
        let (name, unit, lo, hi): (&str, &str, i32, i32) = match self.current_moment {
            RadarMoment::Reflectivity => ("Reflectivity", "dBZ", -30, 70),
            RadarMoment::Velocity => ("Velocity", "m/s", -50, 50),
            RadarMoment::SpectrumWidth => ("Spectrum Width", "m/s", 0, 30),
            RadarMoment::Zdr => ("ZDR", "dB", -4, 8),
            RadarMoment::Cc => ("Correlation Coefficient", "", 0, 1),
            RadarMoment::Kdp => ("KDP", "deg/km", -2, 10),
        };
        (owned(name), owned(unit), f32_bits_from_int(lo), f32_bits_from_int(hi))
    }

    /// The labels at the two ends of the color bar: the lowest and highest
    /// values of the scale, as whole numbers.
    pub fn range_labels(&self) -> (r: (String, String))
        ensures
            r.0@ == signed_decimal(legend_label(self.moment()).2),
            r.1@ == signed_decimal(legend_label(self.moment()).3),
    {
        let (lo, hi): (i64, i64) = match self.current_moment {
            RadarMoment::Reflectivity => (-30, 70),
            RadarMoment::Velocity => (-50, 50),
            RadarMoment::SpectrumWidth => (0, 30),
            RadarMoment::Zdr => (-4, 8),
            RadarMoment::Cc => (0, 1),
            RadarMoment::Kdp => (-2, 10),
        };
        let mut a = String::new();
        push_signed_decimal(&mut a, lo);
        let mut b = String::new();
        push_signed_decimal(&mut b, hi);
        proof {
            assert(a@ =~= signed_decimal(lo as int));
            assert(b@ =~= signed_decimal(hi as int));
        }
        (a, b)
    }

    /// The title of the legend: the moment's name, followed by its unit in
    /// parentheses when it has one.
    pub fn title(&self) -> (t: String)
        ensures
            t@ == (if legend_label(self.moment()).1.len() == 0 {
                legend_label(self.moment()).0
            } else {
                legend_label(self.moment()).0 + " ("@ + legend_label(self.moment()).1 + ")"@
            }),
    {
        let (name, unit, _, _) = self.get_label();
        if unit.unicode_len() == 0 {
            name
        } else {
            let mut t = name;
            push_str(&mut t, " (");
            push_str(&mut t, unit.as_str());
            push_str(&mut t, ")");
            t
        }
    }
}

} // verus!
