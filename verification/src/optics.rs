//! The optics of the microscope, configured by an objective lens or by
//! direct parameters.

use vstd::prelude::*;
use crate::exact::{Fraction, Quantity};
use crate::formulas::{ideal_pixel_size, nyquist_pixel_size, rayleigh_resolution, resolution};
use crate::objective::NikonObjective;

verus! {

/// Optics configured by an objective lens and a wavelength.
#[derive(Clone, Copy, Debug)]
pub struct Optics {
    pub objective: NikonObjective,
    pub wavelength: Fraction,
}

impl Optics {
    /// The Rayleigh resolution of the optics, as a real number.
    pub open spec fn resolution(&self) -> real {
        rayleigh_resolution(self.wavelength.value(), self.objective.numerical_aperture())
    }

    /// The ideal pixel size behind the optics, as a real number.
    pub open spec fn ideal_pixel_size(&self) -> real {
        nyquist_pixel_size(self.resolution(), self.objective.magnification())
    }

    /// The magnification of the objective.
    pub fn get_magnification(&self) -> (m: Fraction)
        ensures
            m.wf(),
            m.is_positive(),
            m.num() == self.objective.constants().1,
            m.den() == 1,
            m.value() == self.objective.magnification(),
    {
        self.objective.lens().magnification
    }

    /// The numerical aperture of the objective.
    pub fn get_numerical_aperture(&self) -> (na: Fraction)
        ensures
            na.wf(),
            na.is_positive(),
            na.num() == self.objective.constants().0,
            na.den() == 100,
            na.value() == self.objective.numerical_aperture(),
    {
        self.objective.lens().numerical_aperture
    }

    /// Computes the Rayleigh resolution of the optics.
    pub fn calculate_resolution(&self) -> (q: Quantity)
        ensures
            q.wf(),
            q.num() == 61 * (self.wavelength.num() * 100),
            q.den() == 100 * (self.wavelength.den() * self.objective.constants().0),
            q.value() == self.resolution(),
    {
        let numerical_aperture = self.get_numerical_aperture();
        resolution(self.wavelength, numerical_aperture)
    }

    /// Computes the ideal pixel size: half the resolution, magnified.
    pub fn calculate_ideal_pixel_size(&self) -> (q: Quantity)
        ensures
            q.wf(),
            q.num() == 61 * (self.wavelength.num() * 100) * self.objective.constants().1,
            q.den() == 100 * (self.wavelength.den() * self.objective.constants().0) * 2,
            q.value() == self.ideal_pixel_size(),
            q.value() == self.resolution() * self.objective.magnification() / 2real,
    {
        let magnification = self.get_magnification();
        ideal_pixel_size(self.wavelength, self.get_numerical_aperture(), magnification)
    }
}

/// The parameter that a model was refused for.
#[derive(Clone, Copy, Debug, PartialEq, Eq)]
pub enum ParameterError {
    /// The numerical aperture is not above zero.
    NumericalAperture,
    /// The wavelength is not above zero.
    Wavelength,
    /// The magnification is not above zero.
    Magnification,
}

/// Optics and detector geometry configured by direct parameters. Once made
/// a model does not change.
#[derive(Clone, Copy, Debug)]
pub struct OpticalModel {
    numerical_aperture: Fraction,
    wavelength: Fraction,
    pixel_size: Fraction,
    magnification: Fraction,
    field_of_view: (u16, u16),
}

impl OpticalModel {
    /// The numerical aperture that the model was made with.
    pub closed spec fn spec_numerical_aperture(&self) -> Fraction {
        self.numerical_aperture
    }

    /// The wavelength that the model was made with.
    pub closed spec fn spec_wavelength(&self) -> Fraction {
        self.wavelength
    }

    /// The pixel size that the model was made with.
    pub closed spec fn spec_pixel_size(&self) -> Fraction {
        self.pixel_size
    }

    /// The magnification that the model was made with.
    pub closed spec fn spec_magnification(&self) -> Fraction {
        self.magnification
    }

    /// The sensor's width and height in pixels.
    pub closed spec fn spec_field_of_view(&self) -> (u16, u16) {
        self.field_of_view
    }

    /// Every model is well formed: its parameters are, and its numerical
    /// aperture, wavelength and magnification are above zero.
    #[verifier::type_invariant]
    pub open spec fn wf(&self) -> bool {
        &&& self.spec_numerical_aperture().wf()
        &&& self.spec_wavelength().wf()
        &&& self.spec_pixel_size().wf()
        &&& self.spec_magnification().wf()
        &&& self.spec_numerical_aperture().is_positive()
        &&& self.spec_wavelength().is_positive()
        &&& self.spec_magnification().is_positive()
    }

    /// The Rayleigh resolution of the model, as a real number.
    pub open spec fn resolution(&self) -> real {
        rayleigh_resolution(self.spec_wavelength().value(), self.spec_numerical_aperture().value())
    }

    /// The ideal pixel size of the model, as a real number.
    pub open spec fn ideal_pixel_size(&self) -> real {
        nyquist_pixel_size(self.resolution(), self.spec_magnification().value())
    }

    /// Makes a model of the given parameters. A numerical aperture, a
    /// wavelength or a magnification that is not above zero is refused, the
    /// first of them in this order.
    pub fn new(
        numerical_aperture: Fraction,
        wavelength: Fraction,
        pixel_size: Fraction,
        magnification: Fraction,
        field_of_view: (u16, u16),
    ) -> (r: Result<OpticalModel, ParameterError>)
        ensures
            match r {
                Ok(m) => {
                    &&& numerical_aperture.is_positive()
                    &&& wavelength.is_positive()
                    &&& magnification.is_positive()
                    &&& m.wf()
                    &&& m.spec_numerical_aperture() == numerical_aperture
                    &&& m.spec_wavelength() == wavelength
                    &&& m.spec_pixel_size() == pixel_size
                    &&& m.spec_magnification() == magnification
                    &&& m.spec_field_of_view() == field_of_view
                },
                Err(ParameterError::NumericalAperture) => !numerical_aperture.is_positive(),
                Err(ParameterError::Wavelength) => {
                    &&& numerical_aperture.is_positive()
                    &&& !wavelength.is_positive()
                },
                Err(ParameterError::Magnification) => {
                    &&& numerical_aperture.is_positive()
                    &&& wavelength.is_positive()
                    &&& !magnification.is_positive()
                },
            },
    {
        proof {
            use_type_invariant(&numerical_aperture);
            use_type_invariant(&wavelength);
            use_type_invariant(&pixel_size);
            use_type_invariant(&magnification);
        }
        if numerical_aperture.numerator() == 0 {
            Err(ParameterError::NumericalAperture)
        } else if wavelength.numerator() == 0 {
            Err(ParameterError::Wavelength)
        } else if magnification.numerator() == 0 {
            Err(ParameterError::Magnification)
        } else {
            Ok(OpticalModel { numerical_aperture, wavelength, pixel_size, magnification, field_of_view })
        }
    }

    /// Makes a model of an objective lens: its numerical aperture and its
    /// magnification come from the table of lenses. A wavelength that is not
    /// above zero is refused.
    pub fn from_objective(
        objective: NikonObjective,
        wavelength: Fraction,
        pixel_size: Fraction,
        field_of_view: (u16, u16),
    ) -> (r: Result<OpticalModel, ParameterError>)
        ensures
            match r {
                Ok(m) => {
                    &&& wavelength.is_positive()
                    &&& m.wf()
                    &&& m.spec_numerical_aperture().num() == objective.constants().0
                    &&& m.spec_numerical_aperture().den() == 100
                    &&& m.spec_magnification().num() == objective.constants().1
                    &&& m.spec_magnification().den() == 1
                    &&& m.spec_wavelength() == wavelength
                    &&& m.spec_pixel_size() == pixel_size
                    &&& m.spec_field_of_view() == field_of_view
                    &&& m.resolution() == (Optics { objective, wavelength }).resolution()
                    &&& m.ideal_pixel_size() == (Optics { objective, wavelength }).ideal_pixel_size()
                },
                Err(e) => e == ParameterError::Wavelength && !wavelength.is_positive(),
            },
    {
        let lens = objective.lens();
        OpticalModel::new(
            lens.numerical_aperture,
            wavelength,
            pixel_size,
            lens.magnification,
            field_of_view,
        )
    }

    /// The numerical aperture that the model was made with.
    #[verifier::when_used_as_spec(spec_numerical_aperture)]
    pub fn numerical_aperture(&self) -> (f: Fraction)
        ensures
            f == self.spec_numerical_aperture(),
    {
        self.numerical_aperture
    }

    /// The wavelength that the model was made with.
    #[verifier::when_used_as_spec(spec_wavelength)]
    pub fn wavelength(&self) -> (f: Fraction)
        ensures
            f == self.spec_wavelength(),
    {
        self.wavelength
    }

    /// The pixel size that the model was made with.
    #[verifier::when_used_as_spec(spec_pixel_size)]
    pub fn pixel_size(&self) -> (f: Fraction)
        ensures
            f == self.spec_pixel_size(),
    {
        self.pixel_size
    }

    /// The magnification that the model was made with.
    #[verifier::when_used_as_spec(spec_magnification)]
    pub fn magnification(&self) -> (f: Fraction)
        ensures
            f == self.spec_magnification(),
    {
        self.magnification
    }

    /// The sensor's width and height in pixels.
    #[verifier::when_used_as_spec(spec_field_of_view)]
    pub fn field_of_view(&self) -> (size: (u16, u16))
        ensures
            size == self.spec_field_of_view(),
    {
        self.field_of_view
    }

    /// Computes the Rayleigh resolution of the model.
    pub fn calculate_resolution(&self) -> (q: Quantity)
        ensures
            q.wf(),
            q.num() == 61 * (self.wavelength().num() * self.numerical_aperture().den()),
            q.den() == 100 * (self.wavelength().den() * self.numerical_aperture().num()),
            q.value() == self.resolution(),
    {
        proof {
            use_type_invariant(self);
        }
        resolution(self.wavelength, self.numerical_aperture)
    }

    /// Computes the ideal pixel size: half the resolution, magnified.
    pub fn calculate_ideal_pixel_size(&self) -> (q: Quantity)
        ensures
            q.wf(),
            q.num() == 61 * (self.wavelength().num() * self.numerical_aperture().den())
                * self.magnification().num(),
            q.den() == 100 * (self.wavelength().den() * self.numerical_aperture().num())
                * self.magnification().den() * 2,
            q.value() == self.ideal_pixel_size(),
            q.value() == self.resolution() * self.magnification().value() / 2real,
    {
        proof {
            use_type_invariant(self);
        }
        ideal_pixel_size(self.wavelength, self.numerical_aperture, self.magnification)
    }
}

} // verus!
