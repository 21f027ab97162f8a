//! Exact non-negative rational numbers.
//!
//! A `Fraction` is a parameter handed to the library; a `Quantity` is a
//! value the library derives. Both denote the real number `num / den`.

use vstd::prelude::*;

verus! {

/// An exact non-negative rational parameter with 32-bit terms.
#[derive(Clone, Copy, Debug)]
pub struct Fraction {
    num: u32,
    den: u32,
}

/// An exact non-negative rational result with 128-bit terms.
#[derive(Clone, Copy, Debug)]
pub struct Quantity {
    num: u128,
    den: u128,
}

impl Fraction {
    /// The numerator.
    pub closed spec fn num(&self) -> u32 {
        self.num
    }

    /// The denominator.
    pub closed spec fn den(&self) -> u32 {
        self.den
    }

    /// Every fraction is well formed: its denominator is not zero.
    #[verifier::type_invariant]
    pub open spec fn wf(&self) -> bool {
        self.den() > 0
    }

    /// The real number that the fraction denotes.
    pub open spec fn value(&self) -> real {
        self.num() as real / self.den() as real
    }

    /// Whether the fraction denotes a number above zero.
    pub open spec fn is_positive(&self) -> bool {
        self.num() > 0
    }

    /// Builds `num / den`; there is no fraction with a zero denominator.
    pub fn new(num: u32, den: u32) -> (r: Option<Fraction>)
        ensures
            r.is_some() <==> den != 0,
            r matches Some(f) ==> f.wf() && f.num() == num && f.den() == den,
    {
        if den == 0 {
            None
        } else {
            Some(Fraction { num, den })
        }
    }

    /// The numerator, as given to `new`.
    pub fn numerator(&self) -> (n: u32)
        ensures
            n == self.num(),
    {
        self.num
    }

    /// The denominator, as given to `new`.
    pub fn denominator(&self) -> (d: u32)
        ensures
            d == self.den(),
    {
        self.den
    }
}

impl Quantity {
    /// The numerator.
    pub closed spec fn num(&self) -> u128 {
        self.num
    }

    /// The denominator.
    pub closed spec fn den(&self) -> u128 {
        self.den
    }

    /// Every quantity is well formed: its denominator is not zero.
    #[verifier::type_invariant]
    pub open spec fn wf(&self) -> bool {
        self.den() > 0
    }

    /// The real number that the quantity denotes.
    pub open spec fn value(&self) -> real {
        self.num() as real / self.den() as real
    }

    /// Builds `num / den`; there is no quantity with a zero denominator.
    pub fn new(num: u128, den: u128) -> (r: Option<Quantity>)
        ensures
            r.is_some() <==> den != 0,
            r matches Some(q) ==> q.wf() && q.num() == num && q.den() == den,
    {
        if den == 0 {
            None
        } else {
            Some(Quantity { num, den })
        }
    }

    /// The numerator; a quantity is not reduced to lowest terms.
    pub fn numerator(&self) -> (n: u128)
        ensures
            n == self.num(),
    {
        self.num
    }

    /// The denominator; a quantity is not reduced to lowest terms.
    pub fn denominator(&self) -> (d: u128)
        ensures
            d == self.den(),
    {
        self.den
    }
}

/// The product of two 32-bit terms fits in 64 bits, and is zero only where
/// one of them is.
pub proof fn lemma_term_product(a: u32, b: u32)
    ensures
        a * b <= 0xFFFF_FFFE_0000_0001,
        b > 0 && a > 0 ==> a * b > 0,
{
    assert(a * b <= 0xFFFF_FFFF * 0xFFFF_FFFF) by (nonlinear_arith)
        requires
            a <= 0xFFFF_FFFF,
            b <= 0xFFFF_FFFF,
    ;
    assert(b > 0 && a > 0 ==> a * b > 0) by (nonlinear_arith);
}

} // verus!
