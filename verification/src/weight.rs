//! Weights: the reference time an extrinsic may take, counted in picoseconds,
//! together with the per-read and per-write cost of the runtime's database.

use vstd::prelude::*;
use frame_support::traits::Get;

verus! {

/// A weight: reference execution time in picoseconds.
pub type Weight = u64;

/// `x`, saturated at the largest value a `Weight` can hold.
pub open spec fn capped(x: int) -> int {
    if x > u64::MAX as int {
        u64::MAX as int
    } else {
        x
    }
}

/// `u64::saturating_mul`: the product, saturated at `u64::MAX`
/// (std documents it as "Saturating integer multiplication. Computes
/// `self * rhs`, saturating at the numeric bounds instead of overflowing").
pub assume_specification[ <u64>::saturating_mul ](x: u64, y: u64) -> (r: u64)
    ensures
        r == capped(x * y),
;

/// What one database read and one database write cost.
#[derive(Clone, Copy, Debug, PartialEq, Eq, Structural)]
pub struct DbWeight {
    /// Weight of reading one storage item.
    pub read: Weight,
    /// Weight of writing one storage item.
    pub write: Weight,
}

impl DbWeight {
    /// Weight of `r` reads.
    pub fn reads(&self, r: u64) -> (w: Weight)
        ensures
            w == capped(self.read * r),
    {
        self.read.saturating_mul(r)
    }

    /// Weight of `w` writes.
    pub fn writes(&self, w: u64) -> (res: Weight)
        ensures
            res == capped(self.write * w),
    {
        self.write.saturating_mul(w)
    }
}

/// The database weights Substrate assumes by default: 25 µs per read and
/// 100 µs per write.
pub open spec fn substrate_default_db_weight() -> DbWeight {
    DbWeight { read: 25_000_000, write: 100_000_000 }
}

/// Reads `frame_support::weights::constants::RocksDbWeight`, Substrate's default
/// database weights. Its source sets `read` to `25_000 * WEIGHT_REF_TIME_PER_NANOS`
/// and `write` to `100_000 * WEIGHT_REF_TIME_PER_NANOS`, with one nanosecond
/// worth 1_000 units of reference time; this function hands both on unchanged.
#[verifier::external_body]
pub(crate) fn substrate_rocks_db_weight() -> (w: DbWeight)
    ensures
        w == substrate_default_db_weight(),
{
    let w = frame_support::weights::constants::RocksDbWeight::get();
    DbWeight { read: w.read, write: w.write }
}

/// Reads `frame_support::weights::constants::WEIGHT_REF_TIME_PER_NANOS`, the
/// reference time of one nanosecond, which sp-weights sets to 1_000.
#[verifier::external_body]
pub(crate) fn weight_ref_time_per_nanos() -> (w: u64)
    ensures
        w == 1_000,
{
    frame_support::weights::constants::WEIGHT_REF_TIME_PER_NANOS
}

/// A linear cost: a fixed part plus a part per unit of each of two counts.
pub open spec fn linear_cost(fixed: int, per_a: int, a: int, per_b: int, b: int) -> int {
    fixed + per_a * a + per_b * b
}

/// A linear cost with non-negative parts never shrinks when its counts grow,
/// and neither does that cost once saturated.
pub proof fn lemma_linear_cost_monotone(
    fixed: int,
    per_a: int,
    a1: int,
    a2: int,
    per_b: int,
    b1: int,
    b2: int,
)
    requires
        per_a >= 0,
        per_b >= 0,
        a1 <= a2,
        b1 <= b2,
    ensures
        linear_cost(fixed, per_a, a1, per_b, b1) <= linear_cost(fixed, per_a, a2, per_b, b2),
        capped(linear_cost(fixed, per_a, a1, per_b, b1)) <= capped(
            linear_cost(fixed, per_a, a2, per_b, b2),
        ),
{
    assert(per_a * a1 <= per_a * a2) by (nonlinear_arith)
        requires
            per_a >= 0,
            a1 <= a2,
    ;
    assert(per_b * b1 <= per_b * b2) by (nonlinear_arith)
        requires
            per_b >= 0,
            b1 <= b2,
    ;
}

} // verus!
