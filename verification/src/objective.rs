//! The objective lenses of the microscope and their optical constants.

use vstd::prelude::*;
use crate::exact::Fraction;

verus! {

/// The objective lenses, named by the colour of their band.
#[derive(Clone, Copy, Debug, PartialEq, Eq)]
pub enum NikonObjective {
    Yellow,
    Blue,
    White,
}

/// The optical constants of one objective lens.
#[derive(Clone, Copy, Debug)]
pub struct Lens {
    pub numerical_aperture: Fraction,
    pub magnification: Fraction,
}

impl NikonObjective {
    /// The table of lenses: for each objective its numerical aperture in
    /// hundredths, then its magnification.
    pub open spec fn constants(self) -> (nat, nat) {
        match self {
            NikonObjective::Yellow => (25, 10),
            NikonObjective::Blue => (17, 40),
            NikonObjective::White => (17, 100),
        }
    }

    /// The numerical aperture of the objective.
    pub open spec fn numerical_aperture(self) -> real {
        self.constants().0 as real / 100real
    }

    /// The magnification of the objective.
    pub open spec fn magnification(self) -> real {
        self.constants().1 as real
    }

    /// Looks the objective up in the table of lenses.
    pub fn lens(&self) -> (l: Lens)
        ensures
            l.numerical_aperture.wf(),
            l.numerical_aperture.is_positive(),
            l.numerical_aperture.num() == self.constants().0,
            l.numerical_aperture.den() == 100,
            l.numerical_aperture.value() == self.numerical_aperture(),
            l.magnification.wf(),
            l.magnification.is_positive(),
            l.magnification.num() == self.constants().1,
            l.magnification.den() == 1,
            l.magnification.value() == self.magnification(),
    {
        let (hundredths, power): (u32, u32) = match self {
            NikonObjective::Yellow => (25, 10),
            NikonObjective::Blue => (17, 40),
            NikonObjective::White => (17, 100),
        };
        proof {
            assert(power as real / 1u32 as real == power as real) by (nonlinear_arith);
        }
        Lens {
            numerical_aperture: Fraction::new(hundredths, 100).unwrap(),
            magnification: Fraction::new(power, 1).unwrap(),
        }
    }
}

} // verus!
