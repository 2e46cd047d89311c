//! Relevance scores.
//!
//! A score is counted in half points, so that the weight of one and a half
//! points for a category match stays an integer. Scores are exact sums: the
//! counter carries into a second limb instead of wrapping or saturating, so
//! no input, however long, is scored wrongly.

use vstd::prelude::*;

verus! {

/// What the lower limb of a score counts up to, exclusive.
pub open spec fn limb() -> nat {
    0x1_0000_0000_0000_0000_0000_0000_0000_0000nat
}

/// A relevance score in half points.
#[derive(Clone, Copy, Debug)]
pub struct Score {
    carries: u64,
    low: u128,
}

impl Score {
    /// The number of half points.
    pub closed spec fn halves(self) -> nat {
        self.carries as nat * limb() + self.low as nat
    }

    /// How often the lower limb has run over.
    pub closed spec fn carried(self) -> nat {
        self.carries as nat
    }

    /// The score of nothing.
    pub fn zero() -> (score: Score)
        ensures
            score.halves() == 0,
            score.carried() == 0,
    {
        Score { carries: 0, low: 0 }
    }

    /// The score raised by `amount` half points. The carry limb must have
    /// room for one more carry; it runs over at most once per call.
    pub fn plus(self, amount: u128) -> (score: Score)
        requires
            self.carried() < u64::MAX,
        ensures
            score.halves() == self.halves() + amount,
            score.carried() <= self.carried() + 1,
    {
        let room = u128::MAX - self.low;
        if amount > room {
            Score { carries: self.carries + 1, low: amount - room - 1 }
        } else {
            Score { carries: self.carries, low: self.low + amount }
        }
    }

    pub fn is_positive(&self) -> (positive: bool)
        ensures
            positive == (self.halves() > 0),
    {
        self.carries > 0 || self.low > 0
    }

    /// Whether this score is strictly higher than `other`.
    pub fn exceeds(&self, other: &Score) -> (higher: bool)
        ensures
            higher == (self.halves() > other.halves()),
    {
        assert(self.carries > other.carries ==> self.halves() > other.halves()) by (nonlinear_arith)
            requires
                self.halves() == self.carries as nat * limb() + self.low as nat,
                other.halves() == other.carries as nat * limb() + other.low as nat,
                other.low < limb(),
        ;
        assert(self.carries < other.carries ==> self.halves() < other.halves()) by (nonlinear_arith)
            requires
                self.halves() == self.carries as nat * limb() + self.low as nat,
                other.halves() == other.carries as nat * limb() + other.low as nat,
                self.low < limb(),
        ;
        self.carries > other.carries || (self.carries == other.carries && self.low > other.low)
    }

    /// The number of half points, when it fits into 128 bits.
    pub fn to_halves(&self) -> (halves: Option<u128>)
        ensures
            match halves {
                Some(count) => count == self.halves(),
                None => self.halves() > u128::MAX,
            },
    {
        if self.carries == 0 {
            Some(self.low)
        } else {
            assert(self.halves() >= limb()) by (nonlinear_arith)
                requires
                    self.halves() == self.carries as nat * limb() + self.low as nat,
                    self.carries >= 1,
            ;
            None
        }
    }
}

} // verus!
