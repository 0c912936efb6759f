//! Dispatch weights of the KILT runtimes and the DID key fixtures used to
//! exercise the DID pallet.

pub mod weight;
pub mod launch_weights;
pub mod delegation_weights;
pub mod did_weights;
pub mod vesting_weights;
pub mod spiritnet_db_weights;
pub mod did_details;
pub mod did_mock;
pub mod did_keys;
