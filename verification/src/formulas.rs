//! The optical formulas, stated over the reals and computed exactly.

use vstd::prelude::*;
use crate::exact::{lemma_term_product, Fraction, Quantity};

verus! {

/// The Rayleigh criterion: the smallest distance that optics of the given
/// numerical aperture resolve at the given wavelength, `0.61 * wavelength /
/// numerical_aperture`.
pub open spec fn rayleigh_resolution(wavelength: real, numerical_aperture: real) -> real {
    61real / 100real * wavelength / numerical_aperture
}

/// The detector pixel size that samples a resolved distance twice after
/// magnification, `resolution * magnification / 2`.
pub open spec fn nyquist_pixel_size(resolution: real, magnification: real) -> real {
    resolution * magnification / 2real
}

/// The noise that a dark current accumulates over an exposure,
/// `dark_current * exposure`.
pub open spec fn dark_current_noise(dark_current: real, exposure: real) -> real {
    dark_current * exposure
}

/// Computes the Rayleigh resolution for a wavelength and a numerical
/// aperture above zero.
pub fn resolution(wavelength: Fraction, numerical_aperture: Fraction) -> (q: Quantity)
    requires
        numerical_aperture.is_positive(),
    ensures
        q.wf(),
        q.num() == 61 * (wavelength.num() * numerical_aperture.den()),
        q.den() == 100 * (wavelength.den() * numerical_aperture.num()),
        q.value() == rayleigh_resolution(wavelength.value(), numerical_aperture.value()),
{
    let wn: u128 = wavelength.numerator() as u128;
    let wd: u128 = wavelength.denominator() as u128;
    let an: u128 = numerical_aperture.numerator() as u128;
    let ad: u128 = numerical_aperture.denominator() as u128;
    proof {
        use_type_invariant(&wavelength);
        use_type_invariant(&numerical_aperture);
        lemma_term_product(wavelength.num(), numerical_aperture.den());
        lemma_term_product(wavelength.den(), numerical_aperture.num());
    }
    let num: u128 = 61 * (wn * ad);
    let den: u128 = 100 * (wd * an);
    proof {
        assert(num as real / den as real == 61real / 100real * (wn as real / wd as real) / (an as real
            / ad as real)) by (nonlinear_arith)
            requires
                num == 61 * (wn * ad),
                den == 100 * (wd * an),
                wd > 0,
                an > 0,
                ad > 0,
        ;
    }
    Quantity::new(num, den).unwrap()
}

/// Computes the ideal pixel size: half the Rayleigh resolution, magnified.
pub fn ideal_pixel_size(
    wavelength: Fraction,
    numerical_aperture: Fraction,
    magnification: Fraction,
) -> (q: Quantity)
    requires
        numerical_aperture.is_positive(),
    ensures
        q.wf(),
        q.num() == 61 * (wavelength.num() * numerical_aperture.den()) * magnification.num(),
        q.den() == 100 * (wavelength.den() * numerical_aperture.num()) * magnification.den() * 2,
        q.value() == nyquist_pixel_size(
            rayleigh_resolution(wavelength.value(), numerical_aperture.value()),
            magnification.value(),
        ),
{
    let r = resolution(wavelength, numerical_aperture);
    let rn: u128 = r.numerator();
    let rd: u128 = r.denominator();
    let mn: u128 = magnification.numerator() as u128;
    let md: u128 = magnification.denominator() as u128;
    proof {
        use_type_invariant(&wavelength);
        use_type_invariant(&magnification);
        lemma_term_product(wavelength.num(), numerical_aperture.den());
        lemma_term_product(wavelength.den(), numerical_aperture.num());
        assert(rn * mn <= 61 * 0xFFFF_FFFE_0000_0001 * 0xFFFF_FFFF) by (nonlinear_arith)
            requires
                rn <= 61 * 0xFFFF_FFFE_0000_0001,
                mn <= 0xFFFF_FFFF,
        ;
        assert(0 < rd * md <= 100 * 0xFFFF_FFFE_0000_0001 * 0xFFFF_FFFF) by (nonlinear_arith)
            requires
                0 < rd <= 100 * 0xFFFF_FFFE_0000_0001,
                0 < md <= 0xFFFF_FFFF,
        ;
    }
    let num: u128 = rn * mn;
    let den: u128 = rd * md * 2;
    proof {
        assert(num as real / den as real == (rn as real / rd as real) * (mn as real / md as real)
            / 2real) by (nonlinear_arith)
            requires
                num == rn * mn,
                den == rd * md * 2,
                rd > 0,
                md > 0,
        ;
    }
    Quantity::new(num, den).unwrap()
}

/// Computes the dark-current noise of an exposure.
pub fn noise(dark_current: Fraction, exposure: Fraction) -> (q: Quantity)
    ensures
        q.wf(),
        q.num() == dark_current.num() * exposure.num(),
        q.den() == dark_current.den() * exposure.den(),
        q.value() == dark_current_noise(dark_current.value(), exposure.value()),
{
    let cn: u128 = dark_current.numerator() as u128;
    let cd: u128 = dark_current.denominator() as u128;
    let en: u128 = exposure.numerator() as u128;
    let ed: u128 = exposure.denominator() as u128;
    proof {
        use_type_invariant(&dark_current);
        use_type_invariant(&exposure);
        lemma_term_product(dark_current.num(), exposure.num());
        lemma_term_product(dark_current.den(), exposure.den());
    }
    let num: u128 = cn * en;
    let den: u128 = cd * ed;
    proof {
        assert(num as real / den as real == (cn as real / cd as real) * (en as real / ed as real))
            by (nonlinear_arith)
            requires
                num == cn * en,
                den == cd * ed,
                cd > 0,
                ed > 0,
        ;
    }
    Quantity::new(num, den).unwrap()
}

} // verus!
