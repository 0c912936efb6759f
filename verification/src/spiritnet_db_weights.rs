//! Storage database weights measured for the KILT Spiritnet runtime on RocksDB.

use vstd::prelude::*;
use crate::weight::{capped, weight_ref_time_per_nanos, DbWeight};

verus! {

/// The Spiritnet database weights: 80_987 ns per read and 142_577 ns per write,
/// each the measured average multiplied by 1.1.
pub open spec fn spiritnet_db_weight() -> DbWeight {
    DbWeight { read: 80_987_000, write: 142_577_000 }
}

/// Storage database weights of the Spiritnet runtime, which uses RocksDB.
pub struct RocksDbWeight;

impl RocksDbWeight {
    /// The weight of one read and of one write. One read and one write each
    /// take at least 1 µs and at most 1 ms.
    pub fn get() -> (w: DbWeight)
        ensures
            w == spiritnet_db_weight(),
            1_000_000 <= capped(w.read * 1) <= 1_000_000_000,
            1_000_000 <= capped(w.write * 1) <= 1_000_000_000,
    {
        let per_nanos = weight_ref_time_per_nanos();
        DbWeight { read: 80_987 * per_nanos, write: 142_577 * per_nanos }
    }
}

} // verus!
