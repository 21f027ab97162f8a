//! Exact microscope optics: the Rayleigh resolution, the ideal detector pixel
//! size and the dark-current noise, computed over rational numbers. The
//! contracts state each result as a real number.
//!
//! - `exact`: the rational numbers that go in and come out.
//! - `formulas`: the three formulas.
//! - `objective`: the objective lenses and their constants.
//! - `optics`: optics configured by a lens or by direct parameters.
//! - `detector`: the detector and its dark-current noise.
//! - `laws`: what holds of the formulas for every input.

pub mod detector;
pub mod exact;
pub mod formulas;
pub mod laws;
pub mod objective;
pub mod optics;
