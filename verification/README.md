# kilt

Verified building blocks of the KILT parachain runtimes.

- `weight`: weights as reference time, the cost of database reads and writes,
  and the saturating linear cost model that every weight formula follows.
- `launch_weights`, `delegation_weights`, `did_weights`, `vesting_weights`:
  the benchmarked weight formulas of the KILT launch, delegation, DID and
  vesting pallets. Each function is proved to return its exact linear cost,
  saturated at `u64::MAX`, and each module proves that its weights never
  shrink when their counts grow.
- `spiritnet_db_weights`: the RocksDB weights measured for Spiritnet, proved to
  lie between 1 µs and 1 ms per read and per write.
- `did_details`, `did_mock`, `did_keys`: DID keys and their encoding, key
  identifiers, the test DIDs' keys and identifiers, and the test calls with the
  key relationship each of them requires.

`app/` builds the weight tables from a FRAME runtime's `RuntimeDbWeight`.
