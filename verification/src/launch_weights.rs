//! Weights of the calls of the KILT launch pallet.

use vstd::prelude::*;
use crate::weight::{
    capped, lemma_linear_cost_monotone, linear_cost, substrate_default_db_weight,
    substrate_rocks_db_weight, DbWeight, Weight,
};

verus! {

/// Cost of `change_transfer_account` before saturation.
pub open spec fn change_transfer_account_cost(db: DbWeight) -> int {
    3_190_000 + db.write
}

/// `change_transfer_account` costs a fixed 3_190_000, 1 write.
pub proof fn lemma_change_transfer_account_cost(db: DbWeight)
    ensures
        change_transfer_account_cost(db) == 3_190_000 + db.write,
{
}

/// Cost of `force_unlock` before saturation. `n` counts the accounts unlocked.
pub open spec fn force_unlock_cost(db: DbWeight, n: int) -> int {
    linear_cost(
        28_682_000 + db.read + db.write,
        29_561_000 + 2 * db.read + 3 * db.write,
        n,
        0,
        0,
    )
}

/// `force_unlock` costs a fixed 28_682_000, 29_561_000 for each of `n`, 1 read and 2 more for each of `n`, 1 write and 3 more for each of `n`; each further unit of `n` adds exactly its own part.
pub proof fn lemma_force_unlock_cost(db: DbWeight, n: int)
    ensures
        force_unlock_cost(db, n) == 28_682_000 + 29_561_000 * n + (1 + 2 * n) * db.read + (1 + 3 * n) * db.write,
        force_unlock_cost(db, n + 1) == force_unlock_cost(db, n) + 29_561_000 + 2 * db.read + 3 * db.write,
{
    assert(force_unlock_cost(db, n) == 28_682_000 + 29_561_000 * n + (1 + 2 * n) * db.read + (1 + 3 * n) * db.write) by (nonlinear_arith);
    assert(force_unlock_cost(db, n + 1) == force_unlock_cost(db, n) + 29_561_000 + 2 * db.read + 3 * db.write) by (nonlinear_arith);
}

/// Cost of `locked_transfer` before saturation.
pub open spec fn locked_transfer_cost(db: DbWeight) -> int {
    142_908_000 + 6 * db.read + 6 * db.write
}

/// `locked_transfer` costs a fixed 142_908_000, 6 reads, 6 writes.
pub proof fn lemma_locked_transfer_cost(db: DbWeight)
    ensures
        locked_transfer_cost(db) == 142_908_000 + 6 * db.read + 6 * db.write,
{
}

/// Cost of `migrate_genesis_account_vesting` before saturation.
pub open spec fn migrate_genesis_account_vesting_cost(db: DbWeight) -> int {
    155_271_000 + 9 * db.read + 6 * db.write
}

/// `migrate_genesis_account_vesting` costs a fixed 155_271_000, 9 reads, 6 writes.
pub proof fn lemma_migrate_genesis_account_vesting_cost(db: DbWeight)
    ensures
        migrate_genesis_account_vesting_cost(db) == 155_271_000 + 9 * db.read + 6 * db.write,
{
}

/// Cost of `migrate_genesis_account_locking` before saturation.
pub open spec fn migrate_genesis_account_locking_cost(db: DbWeight) -> int {
    163_097_000 + 10 * db.read + 7 * db.write
}

/// `migrate_genesis_account_locking` costs a fixed 163_097_000, 10 reads, 7 writes.
pub proof fn lemma_migrate_genesis_account_locking_cost(db: DbWeight)
    ensures
        migrate_genesis_account_locking_cost(db) == 163_097_000 + 10 * db.read + 7 * db.write,
{
}

/// Cost of `migrate_multiple_genesis_accounts_vesting` before saturation. `n` counts the genesis accounts migrated.
pub open spec fn migrate_multiple_genesis_accounts_vesting_cost(db: DbWeight, n: int) -> int {
    linear_cost(
        49_280_000 + 4 * db.read + 3 * db.write,
        101_621_000 + 5 * db.read + 3 * db.write,
        n,
        0,
        0,
    )
}

/// `migrate_multiple_genesis_accounts_vesting` costs a fixed 49_280_000, 101_621_000 for each of `n`, 4 reads and 5 more for each of `n`, 3 writes and 3 more for each of `n`; each further unit of `n` adds exactly its own part.
pub proof fn lemma_migrate_multiple_genesis_accounts_vesting_cost(db: DbWeight, n: int)
    ensures
        migrate_multiple_genesis_accounts_vesting_cost(db, n) == 49_280_000 + 101_621_000 * n + (4 + 5 * n) * db.read + (3 + 3 * n) * db.write,
        migrate_multiple_genesis_accounts_vesting_cost(db, n + 1) == migrate_multiple_genesis_accounts_vesting_cost(db, n) + 101_621_000 + 5 * db.read + 3 * db.write,
{
    assert(migrate_multiple_genesis_accounts_vesting_cost(db, n) == 49_280_000 + 101_621_000 * n + (4 + 5 * n) * db.read + (3 + 3 * n) * db.write) by (nonlinear_arith);
    assert(migrate_multiple_genesis_accounts_vesting_cost(db, n + 1) == migrate_multiple_genesis_accounts_vesting_cost(db, n) + 101_621_000 + 5 * db.read + 3 * db.write) by (nonlinear_arith);
}

/// Cost of `migrate_multiple_genesis_accounts_locking` before saturation. `n` counts the genesis accounts migrated.
pub open spec fn migrate_multiple_genesis_accounts_locking_cost(db: DbWeight, n: int) -> int {
    linear_cost(
        60_077_000 + 5 * db.read + 4 * db.write,
        103_402_000 + 5 * db.read + 3 * db.write,
        n,
        0,
        0,
    )
}

/// `migrate_multiple_genesis_accounts_locking` costs a fixed 60_077_000, 103_402_000 for each of `n`, 5 reads and 5 more for each of `n`, 4 writes and 3 more for each of `n`; each further unit of `n` adds exactly its own part.
pub proof fn lemma_migrate_multiple_genesis_accounts_locking_cost(db: DbWeight, n: int)
    ensures
        migrate_multiple_genesis_accounts_locking_cost(db, n) == 60_077_000 + 103_402_000 * n + (5 + 5 * n) * db.read + (4 + 3 * n) * db.write,
        migrate_multiple_genesis_accounts_locking_cost(db, n + 1) == migrate_multiple_genesis_accounts_locking_cost(db, n) + 103_402_000 + 5 * db.read + 3 * db.write,
{
    assert(migrate_multiple_genesis_accounts_locking_cost(db, n) == 60_077_000 + 103_402_000 * n + (5 + 5 * n) * db.read + (4 + 3 * n) * db.write) by (nonlinear_arith);
    assert(migrate_multiple_genesis_accounts_locking_cost(db, n + 1) == migrate_multiple_genesis_accounts_locking_cost(db, n) + 103_402_000 + 5 * db.read + 3 * db.write) by (nonlinear_arith);
}

/// Weight functions needed for the KILT launch pallet.
pub trait WeightInfo {
    fn change_transfer_account(&self) -> Weight;

    fn force_unlock(&self, n: u32) -> Weight;

    fn locked_transfer(&self) -> Weight;

    fn migrate_genesis_account_vesting(&self) -> Weight;

    fn migrate_genesis_account_locking(&self) -> Weight;

    fn migrate_multiple_genesis_accounts_vesting(&self, n: u32) -> Weight;

    fn migrate_multiple_genesis_accounts_locking(&self, n: u32) -> Weight;
}

/// Weights of the KILT launch pallet for a runtime with the given database weights.
#[derive(Clone, Copy, Debug, PartialEq, Eq, Structural)]
pub struct SubstrateWeight {
    /// Cost of one database read and of one database write.
    pub db_weight: DbWeight,
}

impl WeightInfo for SubstrateWeight {
    /// Weight of `change_transfer_account`.
    fn change_transfer_account(&self) -> (w: Weight)
        ensures
            w == capped(change_transfer_account_cost(self.db_weight)),
            w == capped(3_190_000 + self.db_weight.write),
    {
        let db = self.db_weight;
        let w = 3_190_000u64
            .saturating_add(db.writes(1));
        proof {
            lemma_change_transfer_account_cost(db);
        }
        w
    }

    /// Weight of `force_unlock`. `n` counts the accounts unlocked.
    fn force_unlock(&self, n: u32) -> (w: Weight)
        ensures
            w == capped(force_unlock_cost(self.db_weight, n as int)),
            w == capped(28_682_000 + 29_561_000 * n as int + (1 + 2 * n as int) * self.db_weight.read + (1 + 3 * n as int) * self.db_weight.write),
    {
        let db = self.db_weight;
        let w = 28_682_000u64
            .saturating_add(29_561_000u64.saturating_mul(n as u64))
            .saturating_add(db.reads(1))
            .saturating_add(db.reads(2u64.saturating_mul(n as u64)))
            .saturating_add(db.writes(1))
            .saturating_add(db.writes(3u64.saturating_mul(n as u64)));
        proof {
            let rd = db.read as int;
            let wt = db.write as int;
            let ni = n as int;
            assert(rd * (2 * ni) >= 0 && wt * (3 * ni) >= 0) by (nonlinear_arith)
                requires
                    rd >= 0,
                    wt >= 0,
                    ni >= 0,
            ;
            assert((29_561_000 + 2 * rd + 3 * wt) * ni == 29_561_000 * ni + rd * (2 * ni) + wt * (3 * ni)) by (nonlinear_arith);
        }
        proof {
            lemma_force_unlock_cost(db, n as int);
        }
        w
    }

    /// Weight of `locked_transfer`.
    fn locked_transfer(&self) -> (w: Weight)
        ensures
            w == capped(locked_transfer_cost(self.db_weight)),
            w == capped(142_908_000 + 6 * self.db_weight.read + 6 * self.db_weight.write),
    {
        let db = self.db_weight;
        let w = 142_908_000u64
            .saturating_add(db.reads(6))
            .saturating_add(db.writes(6));
        proof {
            lemma_locked_transfer_cost(db);
        }
        w
    }

    /// Weight of `migrate_genesis_account_vesting`.
    fn migrate_genesis_account_vesting(&self) -> (w: Weight)
        ensures
            w == capped(migrate_genesis_account_vesting_cost(self.db_weight)),
            w == capped(155_271_000 + 9 * self.db_weight.read + 6 * self.db_weight.write),
    {
        let db = self.db_weight;
        let w = 155_271_000u64
            .saturating_add(db.reads(9))
            .saturating_add(db.writes(6));
        proof {
            lemma_migrate_genesis_account_vesting_cost(db);
        }
        w
    }

    /// Weight of `migrate_genesis_account_locking`.
    fn migrate_genesis_account_locking(&self) -> (w: Weight)
        ensures
            w == capped(migrate_genesis_account_locking_cost(self.db_weight)),
            w == capped(163_097_000 + 10 * self.db_weight.read + 7 * self.db_weight.write),
    {
        let db = self.db_weight;
        let w = 163_097_000u64
            .saturating_add(db.reads(10))
            .saturating_add(db.writes(7));
        proof {
            lemma_migrate_genesis_account_locking_cost(db);
        }
        w
    }

    /// Weight of `migrate_multiple_genesis_accounts_vesting`. `n` counts the genesis accounts migrated.
    fn migrate_multiple_genesis_accounts_vesting(&self, n: u32) -> (w: Weight)
        ensures
            w == capped(migrate_multiple_genesis_accounts_vesting_cost(self.db_weight, n as int)),
            w == capped(49_280_000 + 101_621_000 * n as int + (4 + 5 * n as int) * self.db_weight.read + (3 + 3 * n as int) * self.db_weight.write),
    {
        let db = self.db_weight;
        let w = 49_280_000u64
            .saturating_add(101_621_000u64.saturating_mul(n as u64))
            .saturating_add(db.reads(4))
            .saturating_add(db.reads(5u64.saturating_mul(n as u64)))
            .saturating_add(db.writes(3))
            .saturating_add(db.writes(3u64.saturating_mul(n as u64)));
        proof {
            let rd = db.read as int;
            let wt = db.write as int;
            let ni = n as int;
            assert(rd * (5 * ni) >= 0 && wt * (3 * ni) >= 0) by (nonlinear_arith)
                requires
                    rd >= 0,
                    wt >= 0,
                    ni >= 0,
            ;
            assert((101_621_000 + 5 * rd + 3 * wt) * ni == 101_621_000 * ni + rd * (5 * ni) + wt * (3 * ni)) by (nonlinear_arith);
        }
        proof {
            lemma_migrate_multiple_genesis_accounts_vesting_cost(db, n as int);
        }
        w
    }

    /// Weight of `migrate_multiple_genesis_accounts_locking`. `n` counts the genesis accounts migrated.
    fn migrate_multiple_genesis_accounts_locking(&self, n: u32) -> (w: Weight)
        ensures
            w == capped(migrate_multiple_genesis_accounts_locking_cost(self.db_weight, n as int)),
            w == capped(60_077_000 + 103_402_000 * n as int + (5 + 5 * n as int) * self.db_weight.read + (4 + 3 * n as int) * self.db_weight.write),
    {
        let db = self.db_weight;
        let w = 60_077_000u64
            .saturating_add(103_402_000u64.saturating_mul(n as u64))
            .saturating_add(db.reads(5))
            .saturating_add(db.reads(5u64.saturating_mul(n as u64)))
            .saturating_add(db.writes(4))
            .saturating_add(db.writes(3u64.saturating_mul(n as u64)));
        proof {
            let rd = db.read as int;
            let wt = db.write as int;
            let ni = n as int;
            assert(rd * (5 * ni) >= 0 && wt * (3 * ni) >= 0) by (nonlinear_arith)
                requires
                    rd >= 0,
                    wt >= 0,
                    ni >= 0,
            ;
            assert((103_402_000 + 5 * rd + 3 * wt) * ni == 103_402_000 * ni + rd * (5 * ni) + wt * (3 * ni)) by (nonlinear_arith);
        }
        proof {
            lemma_migrate_multiple_genesis_accounts_locking_cost(db, n as int);
        }
        w
    }
}

/// The same weights, priced with Substrate's default RocksDB database weights.
impl WeightInfo for () {
    fn change_transfer_account(&self) -> (w: Weight)
        ensures
            w == capped(change_transfer_account_cost(substrate_default_db_weight())),
            w == capped(3_190_000 + substrate_default_db_weight().write),
    {
        SubstrateWeight { db_weight: substrate_rocks_db_weight() }.change_transfer_account()
    }

    fn force_unlock(&self, n: u32) -> (w: Weight)
        ensures
            w == capped(force_unlock_cost(substrate_default_db_weight(), n as int)),
            w == capped(28_682_000 + 29_561_000 * n as int + (1 + 2 * n as int) * substrate_default_db_weight().read + (1 + 3 * n as int) * substrate_default_db_weight().write),
    {
        SubstrateWeight { db_weight: substrate_rocks_db_weight() }.force_unlock(n)
    }

    fn locked_transfer(&self) -> (w: Weight)
        ensures
            w == capped(locked_transfer_cost(substrate_default_db_weight())),
            w == capped(142_908_000 + 6 * substrate_default_db_weight().read + 6 * substrate_default_db_weight().write),
    {
        SubstrateWeight { db_weight: substrate_rocks_db_weight() }.locked_transfer()
    }

    fn migrate_genesis_account_vesting(&self) -> (w: Weight)
        ensures
            w == capped(migrate_genesis_account_vesting_cost(substrate_default_db_weight())),
            w == capped(155_271_000 + 9 * substrate_default_db_weight().read + 6 * substrate_default_db_weight().write),
    {
        SubstrateWeight { db_weight: substrate_rocks_db_weight() }.migrate_genesis_account_vesting()
    }

    fn migrate_genesis_account_locking(&self) -> (w: Weight)
        ensures
            w == capped(migrate_genesis_account_locking_cost(substrate_default_db_weight())),
            w == capped(163_097_000 + 10 * substrate_default_db_weight().read + 7 * substrate_default_db_weight().write),
    {
        SubstrateWeight { db_weight: substrate_rocks_db_weight() }.migrate_genesis_account_locking()
    }

    fn migrate_multiple_genesis_accounts_vesting(&self, n: u32) -> (w: Weight)
        ensures
            w == capped(migrate_multiple_genesis_accounts_vesting_cost(substrate_default_db_weight(), n as int)),
            w == capped(49_280_000 + 101_621_000 * n as int + (4 + 5 * n as int) * substrate_default_db_weight().read + (3 + 3 * n as int) * substrate_default_db_weight().write),
    {
        SubstrateWeight { db_weight: substrate_rocks_db_weight() }.migrate_multiple_genesis_accounts_vesting(n)
    }

    fn migrate_multiple_genesis_accounts_locking(&self, n: u32) -> (w: Weight)
        ensures
            w == capped(migrate_multiple_genesis_accounts_locking_cost(substrate_default_db_weight(), n as int)),
            w == capped(60_077_000 + 103_402_000 * n as int + (5 + 5 * n as int) * substrate_default_db_weight().read + (4 + 3 * n as int) * substrate_default_db_weight().write),
    {
        SubstrateWeight { db_weight: substrate_rocks_db_weight() }.migrate_multiple_genesis_accounts_locking(n)
    }
}

/// The weight of a KILT launch call never shrinks when more accounts are involved.
pub proof fn lemma_launch_weights_monotone(db: DbWeight, x1: int, x2: int, y1: int, y2: int)
    requires
        x1 <= x2,
        y1 <= y2,
    ensures
        capped(force_unlock_cost(db, x1)) <= capped(force_unlock_cost(db, x2)),
        capped(migrate_multiple_genesis_accounts_vesting_cost(db, x1)) <= capped(migrate_multiple_genesis_accounts_vesting_cost(db, x2)),
        capped(migrate_multiple_genesis_accounts_locking_cost(db, x1)) <= capped(migrate_multiple_genesis_accounts_locking_cost(db, x2)),
{
    lemma_linear_cost_monotone(28_682_000 + db.read + db.write, 29_561_000 + 2 * db.read + 3 * db.write, x1, x2, 0, 0, 0);
    lemma_linear_cost_monotone(49_280_000 + 4 * db.read + 3 * db.write, 101_621_000 + 5 * db.read + 3 * db.write, x1, x2, 0, 0, 0);
    lemma_linear_cost_monotone(60_077_000 + 5 * db.read + 4 * db.write, 103_402_000 + 5 * db.read + 3 * db.write, x1, x2, 0, 0, 0);
}

} // verus!
