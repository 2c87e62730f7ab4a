//! The chance that a cell comes alive when a board is randomised.

use vstd::prelude::*;

verus! {

/// A probability between zero and one, held exactly as the ratio
/// `numerator / denominator` of two integers.
#[derive(Clone, Copy, Debug, PartialEq, Eq)]
pub struct Density {
    numerator: u32,
    denominator: u32,
}

impl Density {
    pub closed spec fn spec_numerator(self) -> u32 {
        self.numerator
    }

    pub closed spec fn spec_denominator(self) -> u32 {
        self.denominator
    }

    /// The ratio is a probability: it has a denominator and does not exceed
    /// one.
    pub open spec fn wf(self) -> bool {
        0 < self.denominator() && self.numerator() <= self.denominator()
    }

    /// Probability zero: no cell comes alive.
    pub open spec fn never(self) -> bool {
        self.numerator() == 0
    }

    /// Probability one: every cell comes alive.
    pub open spec fn always(self) -> bool {
        self.numerator() == self.denominator()
    }

    /// The density `numerator / denominator`, if that is a probability.
    pub fn new(numerator: u32, denominator: u32) -> (density: Option<Density>)
        ensures
            match density {
                Some(d) => d.wf() && d.numerator() == numerator && d.denominator() == denominator,
                None => denominator == 0 || numerator > denominator,
            },
    {
        if denominator == 0 || numerator > denominator {
            None
        } else {
            Some(Density { numerator, denominator })
        }
    }

    #[verifier::when_used_as_spec(spec_numerator)]
    pub fn numerator(self) -> (n: u32)
        ensures
            n == self.numerator(),
    {
        self.numerator
    }

    #[verifier::when_used_as_spec(spec_denominator)]
    pub fn denominator(self) -> (d: u32)
        ensures
            d == self.denominator(),
    {
        self.denominator
    }
}

} // verus!
