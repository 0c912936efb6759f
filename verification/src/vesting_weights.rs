//! Weights of the calls of the vesting pallet on the Peregrine runtime.

use vstd::prelude::*;
use crate::weight::{capped, lemma_linear_cost_monotone, linear_cost, DbWeight, Weight};

verus! {

/// Cost of `vest_locked` before saturation. `l` counts the locks on the account.
pub open spec fn vest_locked_cost(db: DbWeight, l: int) -> int {
    linear_cost(
        50_570_000 + 2 * db.read + db.write,
        249_000,
        l,
        0,
        0,
    )
}

/// `vest_locked` costs a fixed 50_570_000, 249_000 for each of `l`, 2 reads, 1 write; each further unit of `l` adds exactly its own part.
pub proof fn lemma_vest_locked_cost(db: DbWeight, l: int)
    ensures
        vest_locked_cost(db, l) == 50_570_000 + 249_000 * l + 2 * db.read + db.write,
        vest_locked_cost(db, l + 1) == vest_locked_cost(db, l) + 249_000,
{
    assert(vest_locked_cost(db, l) == 50_570_000 + 249_000 * l + 2 * db.read + db.write) by (nonlinear_arith);
    assert(vest_locked_cost(db, l + 1) == vest_locked_cost(db, l) + 249_000) by (nonlinear_arith);
}

/// Cost of `vest_unlocked` before saturation. `l` counts the locks on the account.
pub open spec fn vest_unlocked_cost(db: DbWeight, l: int) -> int {
    linear_cost(
        54_292_000 + 2 * db.read + 2 * db.write,
        196_000,
        l,
        0,
        0,
    )
}

/// `vest_unlocked` costs a fixed 54_292_000, 196_000 for each of `l`, 2 reads, 2 writes; each further unit of `l` adds exactly its own part.
pub proof fn lemma_vest_unlocked_cost(db: DbWeight, l: int)
    ensures
        vest_unlocked_cost(db, l) == 54_292_000 + 196_000 * l + 2 * db.read + 2 * db.write,
        vest_unlocked_cost(db, l + 1) == vest_unlocked_cost(db, l) + 196_000,
{
    assert(vest_unlocked_cost(db, l) == 54_292_000 + 196_000 * l + 2 * db.read + 2 * db.write) by (nonlinear_arith);
    assert(vest_unlocked_cost(db, l + 1) == vest_unlocked_cost(db, l) + 196_000) by (nonlinear_arith);
}

/// Cost of `vest_other_locked` before saturation. `l` counts the locks on the account.
pub open spec fn vest_other_locked_cost(db: DbWeight, l: int) -> int {
    linear_cost(
        50_273_000 + 3 * db.read + 2 * db.write,
        252_000,
        l,
        0,
        0,
    )
}

/// `vest_other_locked` costs a fixed 50_273_000, 252_000 for each of `l`, 3 reads, 2 writes; each further unit of `l` adds exactly its own part.
pub proof fn lemma_vest_other_locked_cost(db: DbWeight, l: int)
    ensures
        vest_other_locked_cost(db, l) == 50_273_000 + 252_000 * l + 3 * db.read + 2 * db.write,
        vest_other_locked_cost(db, l + 1) == vest_other_locked_cost(db, l) + 252_000,
{
    assert(vest_other_locked_cost(db, l) == 50_273_000 + 252_000 * l + 3 * db.read + 2 * db.write) by (nonlinear_arith);
    assert(vest_other_locked_cost(db, l + 1) == vest_other_locked_cost(db, l) + 252_000) by (nonlinear_arith);
}

/// Cost of `vest_other_unlocked` before saturation. `l` counts the locks on the account.
pub open spec fn vest_other_unlocked_cost(db: DbWeight, l: int) -> int {
    linear_cost(
        53_495_000 + 3 * db.read + 3 * db.write,
        228_000,
        l,
        0,
        0,
    )
}

/// `vest_other_unlocked` costs a fixed 53_495_000, 228_000 for each of `l`, 3 reads, 3 writes; each further unit of `l` adds exactly its own part.
pub proof fn lemma_vest_other_unlocked_cost(db: DbWeight, l: int)
    ensures
        vest_other_unlocked_cost(db, l) == 53_495_000 + 228_000 * l + 3 * db.read + 3 * db.write,
        vest_other_unlocked_cost(db, l + 1) == vest_other_unlocked_cost(db, l) + 228_000,
{
    assert(vest_other_unlocked_cost(db, l) == 53_495_000 + 228_000 * l + 3 * db.read + 3 * db.write) by (nonlinear_arith);
    assert(vest_other_unlocked_cost(db, l + 1) == vest_other_unlocked_cost(db, l) + 228_000) by (nonlinear_arith);
}

/// Cost of `vested_transfer` before saturation. `l` counts the locks on the account.
pub open spec fn vested_transfer_cost(db: DbWeight, l: int) -> int {
    linear_cost(
        119_157_000 + 3 * db.read + 3 * db.write,
        150_000,
        l,
        0,
        0,
    )
}

/// `vested_transfer` costs a fixed 119_157_000, 150_000 for each of `l`, 3 reads, 3 writes; each further unit of `l` adds exactly its own part.
pub proof fn lemma_vested_transfer_cost(db: DbWeight, l: int)
    ensures
        vested_transfer_cost(db, l) == 119_157_000 + 150_000 * l + 3 * db.read + 3 * db.write,
        vested_transfer_cost(db, l + 1) == vested_transfer_cost(db, l) + 150_000,
{
    assert(vested_transfer_cost(db, l) == 119_157_000 + 150_000 * l + 3 * db.read + 3 * db.write) by (nonlinear_arith);
    assert(vested_transfer_cost(db, l + 1) == vested_transfer_cost(db, l) + 150_000) by (nonlinear_arith);
}

/// Cost of `force_vested_transfer` before saturation. `l` counts the locks on the account.
pub open spec fn force_vested_transfer_cost(db: DbWeight, l: int) -> int {
    linear_cost(
        121_235_000 + 4 * db.read + 4 * db.write,
        74_000,
        l,
        0,
        0,
    )
}

/// `force_vested_transfer` costs a fixed 121_235_000, 74_000 for each of `l`, 4 reads, 4 writes; each further unit of `l` adds exactly its own part.
pub proof fn lemma_force_vested_transfer_cost(db: DbWeight, l: int)
    ensures
        force_vested_transfer_cost(db, l) == 121_235_000 + 74_000 * l + 4 * db.read + 4 * db.write,
        force_vested_transfer_cost(db, l + 1) == force_vested_transfer_cost(db, l) + 74_000,
{
    assert(force_vested_transfer_cost(db, l) == 121_235_000 + 74_000 * l + 4 * db.read + 4 * db.write) by (nonlinear_arith);
    assert(force_vested_transfer_cost(db, l + 1) == force_vested_transfer_cost(db, l) + 74_000) by (nonlinear_arith);
}

/// Weights of the vesting pallet for a runtime with the given database weights.
#[derive(Clone, Copy, Debug, PartialEq, Eq, Structural)]
pub struct WeightInfo {
    /// Cost of one database read and of one database write.
    pub db_weight: DbWeight,
}

impl WeightInfo {
    /// Weight of `vest_locked`. `l` counts the locks on the account.
    pub fn vest_locked(&self, l: u32) -> (w: Weight)
        ensures
            w == capped(vest_locked_cost(self.db_weight, l as int)),
            w == capped(50_570_000 + 249_000 * l as int + 2 * self.db_weight.read + self.db_weight.write),
    {
        let db = self.db_weight;
        let w = 50_570_000u64
            .saturating_add(249_000u64.saturating_mul(l as u64))
            .saturating_add(db.reads(2))
            .saturating_add(db.writes(1));
        proof {
            let rd = db.read as int;
            let wt = db.write as int;
            let li = l as int;
            assert((249_000) * li == 249_000 * li) by (nonlinear_arith);
        }
        proof {
            lemma_vest_locked_cost(db, l as int);
        }
        w
    }

    /// Weight of `vest_unlocked`. `l` counts the locks on the account.
    pub fn vest_unlocked(&self, l: u32) -> (w: Weight)
        ensures
            w == capped(vest_unlocked_cost(self.db_weight, l as int)),
            w == capped(54_292_000 + 196_000 * l as int + 2 * self.db_weight.read + 2 * self.db_weight.write),
    {
        let db = self.db_weight;
        let w = 54_292_000u64
            .saturating_add(196_000u64.saturating_mul(l as u64))
            .saturating_add(db.reads(2))
            .saturating_add(db.writes(2));
        proof {
            let rd = db.read as int;
            let wt = db.write as int;
            let li = l as int;
            assert((196_000) * li == 196_000 * li) by (nonlinear_arith);
        }
        proof {
            lemma_vest_unlocked_cost(db, l as int);
        }
        w
    }

    /// Weight of `vest_other_locked`. `l` counts the locks on the account.
    pub fn vest_other_locked(&self, l: u32) -> (w: Weight)
        ensures
            w == capped(vest_other_locked_cost(self.db_weight, l as int)),
            w == capped(50_273_000 + 252_000 * l as int + 3 * self.db_weight.read + 2 * self.db_weight.write),
    {
        let db = self.db_weight;
        let w = 50_273_000u64
            .saturating_add(252_000u64.saturating_mul(l as u64))
            .saturating_add(db.reads(3))
            .saturating_add(db.writes(2));
        proof {
            let rd = db.read as int;
            let wt = db.write as int;
            let li = l as int;
            assert((252_000) * li == 252_000 * li) by (nonlinear_arith);
        }
        proof {
            lemma_vest_other_locked_cost(db, l as int);
        }
        w
    }

    /// Weight of `vest_other_unlocked`. `l` counts the locks on the account.
    pub fn vest_other_unlocked(&self, l: u32) -> (w: Weight)
        ensures
            w == capped(vest_other_unlocked_cost(self.db_weight, l as int)),
            w == capped(53_495_000 + 228_000 * l as int + 3 * self.db_weight.read + 3 * self.db_weight.write),
    {
        let db = self.db_weight;
        let w = 53_495_000u64
            .saturating_add(228_000u64.saturating_mul(l as u64))
            .saturating_add(db.reads(3))
            .saturating_add(db.writes(3));
        proof {
            let rd = db.read as int;
            let wt = db.write as int;
            let li = l as int;
            assert((228_000) * li == 228_000 * li) by (nonlinear_arith);
        }
        proof {
            lemma_vest_other_unlocked_cost(db, l as int);
        }
        w
    }

    /// Weight of `vested_transfer`. `l` counts the locks on the account.
    pub fn vested_transfer(&self, l: u32) -> (w: Weight)
        ensures
            w == capped(vested_transfer_cost(self.db_weight, l as int)),
            w == capped(119_157_000 + 150_000 * l as int + 3 * self.db_weight.read + 3 * self.db_weight.write),
    {
        let db = self.db_weight;
        let w = 119_157_000u64
            .saturating_add(150_000u64.saturating_mul(l as u64))
            .saturating_add(db.reads(3))
            .saturating_add(db.writes(3));
        proof {
            let rd = db.read as int;
            let wt = db.write as int;
            let li = l as int;
            assert((150_000) * li == 150_000 * li) by (nonlinear_arith);
        }
        proof {
            lemma_vested_transfer_cost(db, l as int);
        }
        w
    }

    /// Weight of `force_vested_transfer`. `l` counts the locks on the account.
    pub fn force_vested_transfer(&self, l: u32) -> (w: Weight)
        ensures
            w == capped(force_vested_transfer_cost(self.db_weight, l as int)),
            w == capped(121_235_000 + 74_000 * l as int + 4 * self.db_weight.read + 4 * self.db_weight.write),
    {
        let db = self.db_weight;
        let w = 121_235_000u64
            .saturating_add(74_000u64.saturating_mul(l as u64))
            .saturating_add(db.reads(4))
            .saturating_add(db.writes(4));
        proof {
            let rd = db.read as int;
            let wt = db.write as int;
            let li = l as int;
            assert((74_000) * li == 74_000 * li) by (nonlinear_arith);
        }
        proof {
            lemma_force_vested_transfer_cost(db, l as int);
        }
        w
    }
}

/// The weight of a vesting call never shrinks when the account holds more locks.
pub proof fn lemma_vesting_weights_monotone(db: DbWeight, x1: int, x2: int, y1: int, y2: int)
    requires
        x1 <= x2,
        y1 <= y2,
    ensures
        capped(vest_locked_cost(db, x1)) <= capped(vest_locked_cost(db, x2)),
        capped(vest_unlocked_cost(db, x1)) <= capped(vest_unlocked_cost(db, x2)),
        capped(vest_other_locked_cost(db, x1)) <= capped(vest_other_locked_cost(db, x2)),
        capped(vest_other_unlocked_cost(db, x1)) <= capped(vest_other_unlocked_cost(db, x2)),
        capped(vested_transfer_cost(db, x1)) <= capped(vested_transfer_cost(db, x2)),
        capped(force_vested_transfer_cost(db, x1)) <= capped(force_vested_transfer_cost(db, x2)),
{
    lemma_linear_cost_monotone(50_570_000 + 2 * db.read + db.write, 249_000, x1, x2, 0, 0, 0);
    lemma_linear_cost_monotone(54_292_000 + 2 * db.read + 2 * db.write, 196_000, x1, x2, 0, 0, 0);
    lemma_linear_cost_monotone(50_273_000 + 3 * db.read + 2 * db.write, 252_000, x1, x2, 0, 0, 0);
    lemma_linear_cost_monotone(53_495_000 + 3 * db.read + 3 * db.write, 228_000, x1, x2, 0, 0, 0);
    lemma_linear_cost_monotone(119_157_000 + 3 * db.read + 3 * db.write, 150_000, x1, x2, 0, 0, 0);
    lemma_linear_cost_monotone(121_235_000 + 4 * db.read + 4 * db.write, 74_000, x1, x2, 0, 0, 0);
}

} // verus!
