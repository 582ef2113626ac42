//! Scores of the ordered index.
//!
//! The store orders members by a double-precision score. A `Score` holds an
//! integer that such a score represents exactly, so two scores compare in the
//! store as their integers do.

use vstd::prelude::*;
use crate::error::IndexBuildError;

verus! {

/// The largest magnitude of a score: two to the power 53. Every integer up to
/// it is a double of its own.
pub const SCORE_LIMIT: i64 = 9_007_199_254_740_992;

/// An integer score within `-SCORE_LIMIT ..= SCORE_LIMIT`.
#[derive(Clone, Copy, Debug, PartialEq, Eq, Hash)]
pub struct Score {
    value: i64,
}

/// Whether an integer can serve as a score.
pub open spec fn in_score_range(v: int) -> bool {
    -SCORE_LIMIT <= v <= SCORE_LIMIT
}

/// The decimal digits of a natural number, most significant first.
pub open spec fn decimal_digits(n: nat) -> Seq<u8>
    decreases n,
{
    if n < 10 {
        seq![(48 + n) as u8]
    } else {
        decimal_digits(n / 10).push((48 + n % 10) as u8)
    }
}

/// The decimal text of an integer: a minus sign for a negative one, then the
/// digits of its magnitude.
pub open spec fn decimal_text(v: int) -> Seq<u8> {
    if v < 0 {
        seq![45u8] + decimal_digits((-v) as nat)
    } else {
        decimal_digits(v as nat)
    }
}

impl View for Score {
    type V = int;

    closed spec fn view(&self) -> int {
        self.value as int
    }
}

impl Score {
    #[verifier::type_invariant]
    spec fn in_range(self) -> bool {
        in_score_range(self.value as int)
    }

    /// The score of `value`, or `ScoreOutOfRange` where the store could not
    /// tell it from its neighbours.
    pub fn new(value: i64) -> (out: Result<Score, IndexBuildError>)
        ensures
            in_score_range(value as int) ==> out is Ok && out->Ok_0@ == value,
            !in_score_range(value as int) ==> out == Err::<Score, IndexBuildError>(
                IndexBuildError::ScoreOutOfRange,
            ),
    {
        if -SCORE_LIMIT <= value && value <= SCORE_LIMIT {
            Ok(Score { value })
        } else {
            Err(IndexBuildError::ScoreOutOfRange)
        }
    }

    /// The score of a 32-bit count, which always fits.
    pub fn from_u32(value: u32) -> (out: Score)
        ensures
            out@ == value,
    {
        Score { value: value as i64 }
    }

    /// The integer this score stands for.
    pub fn value(&self) -> (v: i64)
        ensures
            v == self@,
            in_score_range(v as int),
    {
        proof {
            use_type_invariant(self);
        }
        self.value
    }
}

} // verus!
