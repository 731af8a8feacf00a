//! Moment switcher: the choice of which radar moment to display.

use vstd::prelude::*;
use crate::text::push_str;

verus! {

/// Supported radar moments.
#[derive(Debug, Clone, Copy, PartialEq, Eq)]
pub enum Moment {
    /// Reflectivity (dBZ)
    REF,
    /// Velocity (m/s)
    VEL,
    /// Spectrum Width (m/s)
    SW,
    /// Differential Reflectivity (dB)
    ZDR,
    /// Correlation Coefficient (0-1)
    CC,
    /// Specific Differential Phase (deg/km)
    KDP,
}

impl Default for Moment {
    fn default() -> (m: Self)
        ensures
            m == Moment::REF,
    {
        Moment::REF
    }
}

/// Human-readable name of a moment.
pub open spec fn moment_name(m: Moment) -> Seq<char> {
    match m {
        Moment::REF => "Reflectivity"@,
        Moment::VEL => "Velocity"@,
        Moment::SW => "Spectrum Width"@,
        Moment::ZDR => "Diff. Reflectivity"@,
        Moment::CC => "Correlation Coef."@,
        Moment::KDP => "Spec. Diff. Phase"@,
    }
}

/// Short code of a moment.
pub open spec fn moment_code(m: Moment) -> Seq<char> {
    match m {
        Moment::REF => "REF"@,
        Moment::VEL => "VEL"@,
        Moment::SW => "SW"@,
        Moment::ZDR => "ZDR"@,
        Moment::CC => "CC"@,
        Moment::KDP => "KDP"@,
    }
}

/// Unit of measurement of a moment.
pub open spec fn moment_unit(m: Moment) -> Seq<char> {
    match m {
        Moment::REF => "dBZ"@,
        Moment::VEL => "m/s"@,
        Moment::SW => "m/s"@,
        Moment::ZDR => "dB"@,
        Moment::CC => ""@,
        Moment::KDP => "deg/km"@,
    }
}

impl Moment {
    /// All supported moments, in display order.
    pub fn all() -> (r: [Moment; 6])
        ensures
            r@ == seq![Moment::REF, Moment::VEL, Moment::SW, Moment::ZDR, Moment::CC, Moment::KDP],
    {
        let r = [Moment::REF, Moment::VEL, Moment::SW, Moment::ZDR, Moment::CC, Moment::KDP];
        assert(r@ =~= seq![Moment::REF, Moment::VEL, Moment::SW, Moment::ZDR, Moment::CC, Moment::KDP]);
        r
    }

    /// The human-readable name.
    pub fn name(&self) -> (r: &'static str)
        ensures
            r@ == moment_name(*self),
    {
        match self {
            Moment::REF => "Reflectivity",
            Moment::VEL => "Velocity",
            Moment::SW => "Spectrum Width",
            Moment::ZDR => "Diff. Reflectivity",
            Moment::CC => "Correlation Coef.",
            Moment::KDP => "Spec. Diff. Phase",
        }
    }

    /// The short code.
    pub fn code(&self) -> (r: &'static str)
        ensures
            r@ == moment_code(*self),
    {
        match self {
            Moment::REF => "REF",
            Moment::VEL => "VEL",
            Moment::SW => "SW",
            Moment::ZDR => "ZDR",
            Moment::CC => "CC",
            Moment::KDP => "KDP",
        }
    }

    /// The unit of measurement.
    pub fn unit(&self) -> (r: &'static str)
        ensures
            r@ == moment_unit(*self),
    {
        match self {
            Moment::REF => "dBZ",
            Moment::VEL => "m/s",
            Moment::SW => "m/s",
            Moment::ZDR => "dB",
            Moment::CC => "",
            Moment::KDP => "deg/km",
        }
    }

    /// The text of the moment's button: code, a line break, name.
    pub fn button_label(&self) -> (r: String)
        ensures
            r@ == moment_code(*self) + "\n"@ + moment_name(*self),
    {
        let mut r = String::new();
        push_str(&mut r, self.code());
        push_str(&mut r, "\n");
        push_str(&mut r, self.name());
        proof {
            assert(r@ =~= moment_code(*self) + "\n"@ + moment_name(*self));
        }
        r
    }
}

/// Messages of the moment switcher.
#[derive(Debug, Clone, Copy)]
pub enum MomentSwitcherMessage {
    /// A moment was selected.
    MomentSelected(Moment),
}

/// The moment switcher's state: the selected moment.
#[derive(Debug, Clone)]
pub struct MomentSwitcher {
    selected_moment: Moment,
}

impl Default for MomentSwitcher {
    fn default() -> (s: Self)
        ensures
            s.selected() == Moment::REF,
    {
        Self::new()
    }
}

impl MomentSwitcher {
    /// The selected moment (specification).
    pub closed spec fn selected(&self) -> Moment {
        self.selected_moment
    }

    /// A switcher with reflectivity selected.
    pub fn new() -> (s: Self)
        ensures
            s.selected() == Moment::REF,
    {
        MomentSwitcher { selected_moment: Moment::REF }
    }

    /// A switcher with `moment` selected.
    pub fn with_moment(moment: Moment) -> (s: Self)
        ensures
            s.selected() == moment,
    {
        MomentSwitcher { selected_moment: moment }
    }

    /// The selected moment.
    pub fn selected_moment(&self) -> (m: Moment)
        ensures
            m == self.selected(),
    {
        self.selected_moment
    }

    /// Selects `moment`.
    pub fn set_moment(&mut self, moment: Moment)
        ensures
            final(self).selected() == moment,
    {
        self.selected_moment = moment;
    }

    /// Handles a message: the selected moment becomes the message's moment.
    pub fn update(&mut self, message: MomentSwitcherMessage)
        ensures
            final(self).selected() == (match message {
                MomentSwitcherMessage::MomentSelected(m) => m,
            }),
    {
        let MomentSwitcherMessage::MomentSelected(moment) = message;
        self.selected_moment = moment;
    }

    /// Whether `moment` is the selected one (its button is shown filled).
    pub fn is_selected(&self, moment: Moment) -> (b: bool)
        ensures
            b == (moment == self.selected()),
    {
        match (self.selected_moment, moment) {
            (Moment::REF, Moment::REF) => true,
            (Moment::VEL, Moment::VEL) => true,
            (Moment::SW, Moment::SW) => true,
            (Moment::ZDR, Moment::ZDR) => true,
            (Moment::CC, Moment::CC) => true,
            (Moment::KDP, Moment::KDP) => true,
            _ => false,
        }
    }

    /// The line describing the selection: `Selected: {name} ({code}) - Unit: {unit}`.
    pub fn selection_text(&self) -> (r: String)
        ensures
            r@ == "Selected: "@ + moment_name(self.selected()) + " ("@ + moment_code(self.selected())
                + ") - Unit: "@ + moment_unit(self.selected()),
    {
        let m = self.selected_moment;
        let mut r = String::new();
        push_str(&mut r, "Selected: ");
        push_str(&mut r, m.name());
        push_str(&mut r, " (");
        push_str(&mut r, m.code());
        push_str(&mut r, ") - Unit: ");
        push_str(&mut r, m.unit());
        proof {
            assert(r@ =~= "Selected: "@ + moment_name(m) + " ("@ + moment_code(m) + ") - Unit: "@ + moment_unit(m));
        }
        r
    }
}

} // verus!
