//! Weights of the calls of the delegation pallet on the Peregrine runtime.

use vstd::prelude::*;
use crate::weight::{capped, lemma_linear_cost_monotone, linear_cost, DbWeight, Weight};

verus! {

/// Cost of `create_root` before saturation.
pub open spec fn create_root_cost(db: DbWeight) -> int {
    45_635_000 + 2 * db.read + db.write
}

/// `create_root` costs a fixed 45_635_000, 2 reads, 1 write.
pub proof fn lemma_create_root_cost(db: DbWeight)
    ensures
        create_root_cost(db) == 45_635_000 + 2 * db.read + db.write,
{
}

/// Cost of `revoke_root` before saturation. `r` counts the revoked nodes.
pub open spec fn revoke_root_cost(db: DbWeight, r: int) -> int {
    linear_cost(
        48_761_000 + 2 * db.read + db.write,
        31_784_000 + 2 * db.read + db.write,
        r,
        0,
        0,
    )
}

/// `revoke_root` costs a fixed 48_761_000, 31_784_000 for each of `r`, 2 reads and 2 more for each of `r`, 1 write and 1 more for each of `r`; each further unit of `r` adds exactly its own part.
pub proof fn lemma_revoke_root_cost(db: DbWeight, r: int)
    ensures
        revoke_root_cost(db, r) == 48_761_000 + 31_784_000 * r + (2 + 2 * r) * db.read + (1 + r) * db.write,
        revoke_root_cost(db, r + 1) == revoke_root_cost(db, r) + 31_784_000 + 2 * db.read + db.write,
{
    assert(revoke_root_cost(db, r) == 48_761_000 + 31_784_000 * r + (2 + 2 * r) * db.read + (1 + r) * db.write) by (nonlinear_arith);
    assert(revoke_root_cost(db, r + 1) == revoke_root_cost(db, r) + 31_784_000 + 2 * db.read + db.write) by (nonlinear_arith);
}

/// Cost of `add_delegation` before saturation.
pub open spec fn add_delegation_cost(db: DbWeight) -> int {
    142_316_000 + 4 * db.read + 2 * db.write
}

/// `add_delegation` costs a fixed 142_316_000, 4 reads, 2 writes.
pub proof fn lemma_add_delegation_cost(db: DbWeight)
    ensures
        add_delegation_cost(db) == 142_316_000 + 4 * db.read + 2 * db.write,
{
}

/// Cost of `revoke_delegation_root_child` before saturation. `r` counts the revoked nodes. `_c` counts the parents checked, which costs nothing extra.
pub open spec fn revoke_delegation_root_child_cost(db: DbWeight, r: int, _c: int) -> int {
    linear_cost(
        21_746_000,
        32_601_000 + 2 * db.read + db.write,
        r,
        0,
        _c,
    )
}

/// `revoke_delegation_root_child` costs a fixed 21_746_000, 32_601_000 for each of `r`, no fixed reads and 2 more for each of `r`, no fixed writes and 1 more for each of `r`; each further unit of `r` or `_c` adds exactly its own part.
pub proof fn lemma_revoke_delegation_root_child_cost(db: DbWeight, r: int, _c: int)
    ensures
        revoke_delegation_root_child_cost(db, r, _c) == 21_746_000 + 32_601_000 * r + (2 * r) * db.read + (r) * db.write,
        revoke_delegation_root_child_cost(db, r + 1, _c) == revoke_delegation_root_child_cost(db, r, _c) + 32_601_000 + 2 * db.read + db.write,
        revoke_delegation_root_child_cost(db, r, _c + 1) == revoke_delegation_root_child_cost(db, r, _c) + 0,
{
    assert(revoke_delegation_root_child_cost(db, r, _c) == 21_746_000 + 32_601_000 * r + (2 * r) * db.read + (r) * db.write) by (nonlinear_arith);
    assert(revoke_delegation_root_child_cost(db, r + 1, _c) == revoke_delegation_root_child_cost(db, r, _c) + 32_601_000 + 2 * db.read + db.write) by (nonlinear_arith);
    assert(revoke_delegation_root_child_cost(db, r, _c + 1) == revoke_delegation_root_child_cost(db, r, _c) + 0) by (nonlinear_arith);
}

/// Cost of `revoke_delegation_leaf` before saturation. `r` counts the revoked nodes. `c` counts the parents checked.
pub open spec fn revoke_delegation_leaf_cost(db: DbWeight, r: int, c: int) -> int {
    linear_cost(
        52_521_000 + 2 * db.read + db.write,
        93_000,
        r,
        8_110_000 + db.read,
        c,
    )
}

/// `revoke_delegation_leaf` costs a fixed 52_521_000, 93_000 for each of `r`, 8_110_000 for each of `c`, 2 reads and 1 more for each of `c`, 1 write; each further unit of `r` or `c` adds exactly its own part.
pub proof fn lemma_revoke_delegation_leaf_cost(db: DbWeight, r: int, c: int)
    ensures
        revoke_delegation_leaf_cost(db, r, c) == 52_521_000 + 93_000 * r + 8_110_000 * c + (2 + c) * db.read + db.write,
        revoke_delegation_leaf_cost(db, r + 1, c) == revoke_delegation_leaf_cost(db, r, c) + 93_000,
        revoke_delegation_leaf_cost(db, r, c + 1) == revoke_delegation_leaf_cost(db, r, c) + 8_110_000 + db.read,
{
    assert(revoke_delegation_leaf_cost(db, r, c) == 52_521_000 + 93_000 * r + 8_110_000 * c + (2 + c) * db.read + db.write) by (nonlinear_arith);
    assert(revoke_delegation_leaf_cost(db, r + 1, c) == revoke_delegation_leaf_cost(db, r, c) + 93_000) by (nonlinear_arith);
    assert(revoke_delegation_leaf_cost(db, r, c + 1) == revoke_delegation_leaf_cost(db, r, c) + 8_110_000 + db.read) by (nonlinear_arith);
}

/// Weights of the delegation pallet for a runtime with the given database weights.
#[derive(Clone, Copy, Debug, PartialEq, Eq, Structural)]
pub struct WeightInfo {
    /// Cost of one database read and of one database write.
    pub db_weight: DbWeight,
}

impl WeightInfo {
    /// Weight of `create_root`.
    pub fn create_root(&self) -> (w: Weight)
        ensures
            w == capped(create_root_cost(self.db_weight)),
            w == capped(45_635_000 + 2 * self.db_weight.read + self.db_weight.write),
    {
        let db = self.db_weight;
        let w = 45_635_000u64
            .saturating_add(db.reads(2))
            .saturating_add(db.writes(1));
        proof {
            lemma_create_root_cost(db);
        }
        w
    }

    /// Weight of `revoke_root`. `r` counts the revoked nodes.
    pub fn revoke_root(&self, r: u32) -> (w: Weight)
        ensures
            w == capped(revoke_root_cost(self.db_weight, r as int)),
            w == capped(48_761_000 + 31_784_000 * r as int + (2 + 2 * r as int) * self.db_weight.read + (1 + r as int) * self.db_weight.write),
    {
        let db = self.db_weight;
        let w = 48_761_000u64
            .saturating_add(31_784_000u64.saturating_mul(r as u64))
            .saturating_add(db.reads(2))
            .saturating_add(db.reads(2u64.saturating_mul(r as u64)))
            .saturating_add(db.writes(1))
            .saturating_add(db.writes(1u64.saturating_mul(r as u64)));
        proof {
            let rd = db.read as int;
            let wt = db.write as int;
            let ri = r as int;
            assert(rd * (2 * ri) >= 0 && wt * (1 * ri) >= 0) by (nonlinear_arith)
                requires
                    rd >= 0,
                    wt >= 0,
                    ri >= 0,
            ;
            assert((31_784_000 + 2 * rd + 1 * wt) * ri == 31_784_000 * ri + rd * (2 * ri) + wt * (1 * ri)) by (nonlinear_arith);
        }
        proof {
            lemma_revoke_root_cost(db, r as int);
        }
        w
    }

    /// Weight of `add_delegation`.
    pub fn add_delegation(&self) -> (w: Weight)
        ensures
            w == capped(add_delegation_cost(self.db_weight)),
            w == capped(142_316_000 + 4 * self.db_weight.read + 2 * self.db_weight.write),
    {
        let db = self.db_weight;
        let w = 142_316_000u64
            .saturating_add(db.reads(4))
            .saturating_add(db.writes(2));
        proof {
            lemma_add_delegation_cost(db);
        }
        w
    }

    /// Weight of `revoke_delegation_root_child`. `r` counts the revoked nodes. `_c` counts the parents checked, which costs nothing extra.
    pub fn revoke_delegation_root_child(&self, r: u32, _c: u32) -> (w: Weight)
        ensures
            w == capped(revoke_delegation_root_child_cost(self.db_weight, r as int, _c as int)),
            w == capped(21_746_000 + 32_601_000 * r as int + (2 * r as int) * self.db_weight.read + (r as int) * self.db_weight.write),
    {
        let db = self.db_weight;
        let w = 21_746_000u64
            .saturating_add(32_601_000u64.saturating_mul(r as u64))
            .saturating_add(db.reads(2u64.saturating_mul(r as u64)))
            .saturating_add(db.writes(1u64.saturating_mul(r as u64)));
        proof {
            let rd = db.read as int;
            let wt = db.write as int;
            let ri = r as int;
            let _ci = _c as int;
            assert(rd * (2 * ri) >= 0 && wt * (1 * ri) >= 0) by (nonlinear_arith)
                requires
                    rd >= 0,
                    wt >= 0,
                    ri >= 0,
            ;
            assert((32_601_000 + 2 * rd + 1 * wt) * ri == 32_601_000 * ri + rd * (2 * ri) + wt * (1 * ri)) by (nonlinear_arith);
        }
        proof {
            lemma_revoke_delegation_root_child_cost(db, r as int, _c as int);
        }
        w
    }

    /// Weight of `revoke_delegation_leaf`. `r` counts the revoked nodes. `c` counts the parents checked.
    pub fn revoke_delegation_leaf(&self, r: u32, c: u32) -> (w: Weight)
        ensures
            w == capped(revoke_delegation_leaf_cost(self.db_weight, r as int, c as int)),
            w == capped(52_521_000 + 93_000 * r as int + 8_110_000 * c as int + (2 + c as int) * self.db_weight.read + self.db_weight.write),
    {
        let db = self.db_weight;
        let w = 52_521_000u64
            .saturating_add(93_000u64.saturating_mul(r as u64))
            .saturating_add(8_110_000u64.saturating_mul(c as u64))
            .saturating_add(db.reads(2))
            .saturating_add(db.reads(1u64.saturating_mul(c as u64)))
            .saturating_add(db.writes(1));
        proof {
            let rd = db.read as int;
            let wt = db.write as int;
            let ri = r as int;
            let ci = c as int;
            assert((93_000) * ri == 93_000 * ri) by (nonlinear_arith);
            assert(rd * (1 * ci) >= 0) by (nonlinear_arith)
                requires
                    rd >= 0,
                    wt >= 0,
                    ci >= 0,
            ;
            assert((8_110_000 + 1 * rd) * ci == 8_110_000 * ci + rd * (1 * ci)) by (nonlinear_arith);
        }
        proof {
            lemma_revoke_delegation_leaf_cost(db, r as int, c as int);
        }
        w
    }
}

/// The weight of a delegation call never shrinks when its counts grow, and revoking a root child
/// costs the same whatever number of parents is checked.
pub proof fn lemma_delegation_weights_monotone(db: DbWeight, x1: int, x2: int, y1: int, y2: int)
    requires
        x1 <= x2,
        y1 <= y2,
    ensures
        capped(revoke_root_cost(db, x1)) <= capped(revoke_root_cost(db, x2)),
        capped(revoke_delegation_root_child_cost(db, x1, y1)) <= capped(revoke_delegation_root_child_cost(db, x2, y2)),
        capped(revoke_delegation_leaf_cost(db, x1, y1)) <= capped(revoke_delegation_leaf_cost(db, x2, y2)),
        revoke_delegation_root_child_cost(db, x1, y1) == revoke_delegation_root_child_cost(db, x1, y2),
{
    lemma_linear_cost_monotone(48_761_000 + 2 * db.read + db.write, 31_784_000 + 2 * db.read + db.write, x1, x2, 0, 0, 0);
    lemma_linear_cost_monotone(21_746_000, 32_601_000 + 2 * db.read + db.write, x1, x2, 0, y1, y2);
    lemma_linear_cost_monotone(52_521_000 + 2 * db.read + db.write, 93_000, x1, x2, 8_110_000 + db.read, y1, y2);
}

} // verus!
