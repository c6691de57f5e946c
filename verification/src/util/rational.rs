//! Rational numbers as the engine stores them.
use vstd::prelude::*;
use vstd::std_specs::convert::FromSpecImpl;

verus! {

/// A numerator and a denominator, kept exactly as given.
#[derive(Clone, Copy, Debug, PartialEq, Eq, Structural)]
pub struct Rational(pub i32, pub i32);

impl Rational {
    /// The rational `numerator / denominator`, not reduced.
    pub fn new(numerator: i32, denominator: i32) -> (rational: Rational)
        ensures
            rational == Rational(numerator, denominator),
    {
        Rational(numerator, denominator)
    }

    pub fn numerator(&self) -> (numerator: i32)
        ensures
            numerator == self.0,
    {
        self.0
    }

    pub fn denominator(&self) -> (denominator: i32)
        ensures
            denominator == self.1,
    {
        self.1
    }
}

impl From<(i32, i32)> for Rational {
    fn from(pair: (i32, i32)) -> (rational: Rational) {
        Rational(pair.0, pair.1)
    }
}

impl FromSpecImpl<(i32, i32)> for Rational {
    open spec fn obeys_from_spec() -> bool {
        true
    }

    open spec fn from_spec(pair: (i32, i32)) -> Rational {
        Rational(pair.0, pair.1)
    }
}

} // verus!
