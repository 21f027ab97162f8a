//! The detector behind the optics.

use vstd::prelude::*;
use crate::exact::{Fraction, Quantity};
use crate::formulas::{dark_current_noise, noise};

verus! {

/// A detector: the size of a pixel, the sensor's size in pixels, its read
/// noise and its dark current per unit of time.
#[derive(Clone, Copy, Debug)]
pub struct Detector {
    pub pixel_size: Fraction,
    pub sensor_size: (u16, u16),
    pub read_noise: Fraction,
    pub dark_current: Fraction,
}

impl Detector {
    /// The noise that the dark current accumulates over an exposure, as a
    /// real number.
    pub open spec fn dark_current_noise(&self, exposure: Fraction) -> real {
        dark_current_noise(self.dark_current.value(), exposure.value())
    }

    /// Computes the noise that the dark current accumulates over an exposure.
    pub fn calculate_dark_current_noise(&self, exposure: Fraction) -> (q: Quantity)
        ensures
            q.wf(),
            q.num() == self.dark_current.num() * exposure.num(),
            q.den() == self.dark_current.den() * exposure.den(),
            q.value() == self.dark_current_noise(exposure),
    {
        noise(self.dark_current, exposure)
    }
}

} // verus!
