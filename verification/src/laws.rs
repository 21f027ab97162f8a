//! What holds of the optical formulas for every valid input.

use vstd::prelude::*;
use crate::formulas::{nyquist_pixel_size, rayleigh_resolution};
use crate::objective::NikonObjective;
use crate::optics::{OpticalModel, Optics};

verus! {

/// The ideal pixel size of a model is its Rayleigh resolution times its
/// magnification, halved.
pub proof fn law_model_pixel_size(model: OpticalModel)
    ensures
        model.ideal_pixel_size() == model.resolution() * model.magnification().value() / 2real,
{
}

/// The ideal pixel size behind an objective is its Rayleigh resolution times
/// the objective's magnification, halved.
pub proof fn law_objective_pixel_size(optics: Optics)
    ensures
        optics.ideal_pixel_size() == optics.resolution() * optics.objective.magnification()
            / 2real,
{
}

/// For every wavelength, numerical aperture and magnification above zero,
/// the ideal pixel size is `0.305 * wavelength * magnification /
/// numerical_aperture`.
pub proof fn law_pixel_size_closed_form(wavelength: real, numerical_aperture: real, magnification: real)
    requires
        wavelength > 0real,
        numerical_aperture > 0real,
        magnification > 0real,
    ensures
        nyquist_pixel_size(rayleigh_resolution(wavelength, numerical_aperture), magnification)
            == 61real / 200real * wavelength * magnification / numerical_aperture,
{
    assert(61real / 100real * wavelength / numerical_aperture * magnification / 2real == 61real
        / 200real * wavelength * magnification / numerical_aperture) by (nonlinear_arith)
        requires
            numerical_aperture > 0real,
    ;
}

/// The Rayleigh resolution times the numerical aperture is `0.61 *
/// wavelength`: the two are inversely proportional.
pub proof fn law_resolution_times_aperture(wavelength: real, numerical_aperture: real)
    requires
        numerical_aperture > 0real,
    ensures
        rayleigh_resolution(wavelength, numerical_aperture) * numerical_aperture == 61real
            / 100real * wavelength,
{
    assert(61real / 100real * wavelength / numerical_aperture * numerical_aperture == 61real
        / 100real * wavelength) by (nonlinear_arith)
        requires
            numerical_aperture > 0real,
    ;
}

/// The Rayleigh resolution of a wavelength and a numerical aperture above
/// zero is above zero.
pub proof fn law_resolution_positive(wavelength: real, numerical_aperture: real)
    requires
        wavelength > 0real,
        numerical_aperture > 0real,
    ensures
        rayleigh_resolution(wavelength, numerical_aperture) > 0real,
{
    assert(61real / 100real * wavelength / numerical_aperture > 0real) by (nonlinear_arith)
        requires
            wavelength > 0real,
            numerical_aperture > 0real,
    ;
}

/// At a fixed wavelength, the smaller the numerical aperture, the larger the
/// Rayleigh resolution.
pub proof fn law_resolution_grows_as_aperture_shrinks(wavelength: real, smaller: real, larger: real)
    requires
        wavelength > 0real,
        0real < smaller < larger,
    ensures
        rayleigh_resolution(wavelength, smaller) > rayleigh_resolution(wavelength, larger),
{
    assert(61real / 100real * wavelength / smaller > 61real / 100real * wavelength / larger)
        by (nonlinear_arith)
        requires
            wavelength > 0real,
            0real < smaller < larger,
    ;
}

/// The Rayleigh resolution has no upper bound as the numerical aperture
/// approaches zero: it exceeds any bound once the numerical aperture is
/// below `0.61 * wavelength / bound`.
pub proof fn law_resolution_exceeds_any_bound(wavelength: real, numerical_aperture: real, bound: real)
    requires
        wavelength > 0real,
        bound > 0real,
        0real < numerical_aperture < 61real / 100real * wavelength / bound,
    ensures
        rayleigh_resolution(wavelength, numerical_aperture) > bound,
{
    assert(61real / 100real * wavelength / numerical_aperture > bound) by (nonlinear_arith)
        requires
            wavelength > 0real,
            bound > 0real,
            0real < numerical_aperture < 61real / 100real * wavelength / bound,
    ;
}

/// Every objective in the table of lenses has a numerical aperture and a
/// magnification above zero.
pub proof fn law_table_positive(objective: NikonObjective)
    ensures
        objective.numerical_aperture() > 0real,
        objective.magnification() > 0real,
{
}

} // verus!
