//! Weights of the calls of the DID pallet on the Peregrine runtime.

use vstd::prelude::*;
use crate::weight::{capped, lemma_linear_cost_monotone, linear_cost, DbWeight, Weight};

verus! {

/// Cost of `create_ed25519_keys` before saturation. `n` counts the new key agreement keys. `c` counts the service endpoints.
pub open spec fn create_ed25519_keys_cost(db: DbWeight, n: int, c: int) -> int {
    linear_cost(
        155_554_000 + 4 * db.read + 4 * db.write,
        2_340_000,
        n,
        10_183_000 + db.write,
        c,
    )
}

/// `create_ed25519_keys` costs a fixed 155_554_000, 2_340_000 for each of `n`, 10_183_000 for each of `c`, 4 reads, 4 writes and 1 more for each of `c`; each further unit of `n` or `c` adds exactly its own part.
pub proof fn lemma_create_ed25519_keys_cost(db: DbWeight, n: int, c: int)
    ensures
        create_ed25519_keys_cost(db, n, c) == 155_554_000 + 2_340_000 * n + 10_183_000 * c + 4 * db.read + (4 + c) * db.write,
        create_ed25519_keys_cost(db, n + 1, c) == create_ed25519_keys_cost(db, n, c) + 2_340_000,
        create_ed25519_keys_cost(db, n, c + 1) == create_ed25519_keys_cost(db, n, c) + 10_183_000 + db.write,
{
    assert(create_ed25519_keys_cost(db, n, c) == 155_554_000 + 2_340_000 * n + 10_183_000 * c + 4 * db.read + (4 + c) * db.write) by (nonlinear_arith);
    assert(create_ed25519_keys_cost(db, n + 1, c) == create_ed25519_keys_cost(db, n, c) + 2_340_000) by (nonlinear_arith);
    assert(create_ed25519_keys_cost(db, n, c + 1) == create_ed25519_keys_cost(db, n, c) + 10_183_000 + db.write) by (nonlinear_arith);
}

/// Cost of `create_sr25519_keys` before saturation. `n` counts the new key agreement keys. `c` counts the service endpoints.
pub open spec fn create_sr25519_keys_cost(db: DbWeight, n: int, c: int) -> int {
    linear_cost(
        157_851_000 + 4 * db.read + 4 * db.write,
        2_477_000,
        n,
        10_523_000 + db.write,
        c,
    )
}

/// `create_sr25519_keys` costs a fixed 157_851_000, 2_477_000 for each of `n`, 10_523_000 for each of `c`, 4 reads, 4 writes and 1 more for each of `c`; each further unit of `n` or `c` adds exactly its own part.
pub proof fn lemma_create_sr25519_keys_cost(db: DbWeight, n: int, c: int)
    ensures
        create_sr25519_keys_cost(db, n, c) == 157_851_000 + 2_477_000 * n + 10_523_000 * c + 4 * db.read + (4 + c) * db.write,
        create_sr25519_keys_cost(db, n + 1, c) == create_sr25519_keys_cost(db, n, c) + 2_477_000,
        create_sr25519_keys_cost(db, n, c + 1) == create_sr25519_keys_cost(db, n, c) + 10_523_000 + db.write,
{
    assert(create_sr25519_keys_cost(db, n, c) == 157_851_000 + 2_477_000 * n + 10_523_000 * c + 4 * db.read + (4 + c) * db.write) by (nonlinear_arith);
    assert(create_sr25519_keys_cost(db, n + 1, c) == create_sr25519_keys_cost(db, n, c) + 2_477_000) by (nonlinear_arith);
    assert(create_sr25519_keys_cost(db, n, c + 1) == create_sr25519_keys_cost(db, n, c) + 10_523_000 + db.write) by (nonlinear_arith);
}

/// Cost of `create_ecdsa_keys` before saturation. `n` counts the new key agreement keys. `c` counts the service endpoints.
pub open spec fn create_ecdsa_keys_cost(db: DbWeight, n: int, c: int) -> int {
    linear_cost(
        275_184_000 + 4 * db.read + 4 * db.write,
        2_307_000,
        n,
        9_953_000 + db.write,
        c,
    )
}

/// `create_ecdsa_keys` costs a fixed 275_184_000, 2_307_000 for each of `n`, 9_953_000 for each of `c`, 4 reads, 4 writes and 1 more for each of `c`; each further unit of `n` or `c` adds exactly its own part.
pub proof fn lemma_create_ecdsa_keys_cost(db: DbWeight, n: int, c: int)
    ensures
        create_ecdsa_keys_cost(db, n, c) == 275_184_000 + 2_307_000 * n + 9_953_000 * c + 4 * db.read + (4 + c) * db.write,
        create_ecdsa_keys_cost(db, n + 1, c) == create_ecdsa_keys_cost(db, n, c) + 2_307_000,
        create_ecdsa_keys_cost(db, n, c + 1) == create_ecdsa_keys_cost(db, n, c) + 9_953_000 + db.write,
{
    assert(create_ecdsa_keys_cost(db, n, c) == 275_184_000 + 2_307_000 * n + 9_953_000 * c + 4 * db.read + (4 + c) * db.write) by (nonlinear_arith);
    assert(create_ecdsa_keys_cost(db, n + 1, c) == create_ecdsa_keys_cost(db, n, c) + 2_307_000) by (nonlinear_arith);
    assert(create_ecdsa_keys_cost(db, n, c + 1) == create_ecdsa_keys_cost(db, n, c) + 9_953_000 + db.write) by (nonlinear_arith);
}

/// Cost of `delete` before saturation. `c` counts the service endpoints removed.
pub open spec fn delete_cost(db: DbWeight, c: int) -> int {
    linear_cost(
        40_970_000 + 2 * db.read + 3 * db.write,
        1_039_000 + db.write,
        c,
        0,
        0,
    )
}

/// `delete` costs a fixed 40_970_000, 1_039_000 for each of `c`, 2 reads, 3 writes and 1 more for each of `c`; each further unit of `c` adds exactly its own part.
pub proof fn lemma_delete_cost(db: DbWeight, c: int)
    ensures
        delete_cost(db, c) == 40_970_000 + 1_039_000 * c + 2 * db.read + (3 + c) * db.write,
        delete_cost(db, c + 1) == delete_cost(db, c) + 1_039_000 + db.write,
{
    assert(delete_cost(db, c) == 40_970_000 + 1_039_000 * c + 2 * db.read + (3 + c) * db.write) by (nonlinear_arith);
    assert(delete_cost(db, c + 1) == delete_cost(db, c) + 1_039_000 + db.write) by (nonlinear_arith);
}

/// Cost of `reclaim_deposit` before saturation. `c` counts the service endpoints removed.
pub open spec fn reclaim_deposit_cost(db: DbWeight, c: int) -> int {
    linear_cost(
        45_659_000 + 2 * db.read + 3 * db.write,
        1_037_000 + db.write,
        c,
        0,
        0,
    )
}

/// `reclaim_deposit` costs a fixed 45_659_000, 1_037_000 for each of `c`, 2 reads, 3 writes and 1 more for each of `c`; each further unit of `c` adds exactly its own part.
pub proof fn lemma_reclaim_deposit_cost(db: DbWeight, c: int)
    ensures
        reclaim_deposit_cost(db, c) == 45_659_000 + 1_037_000 * c + 2 * db.read + (3 + c) * db.write,
        reclaim_deposit_cost(db, c + 1) == reclaim_deposit_cost(db, c) + 1_037_000 + db.write,
{
    assert(reclaim_deposit_cost(db, c) == 45_659_000 + 1_037_000 * c + 2 * db.read + (3 + c) * db.write) by (nonlinear_arith);
    assert(reclaim_deposit_cost(db, c + 1) == reclaim_deposit_cost(db, c) + 1_037_000 + db.write) by (nonlinear_arith);
}

/// Cost of `submit_did_call_ed25519_key` before saturation.
pub open spec fn submit_did_call_ed25519_key_cost(db: DbWeight) -> int {
    85_657_000 + db.read + db.write
}

/// `submit_did_call_ed25519_key` costs a fixed 85_657_000, 1 read, 1 write.
pub proof fn lemma_submit_did_call_ed25519_key_cost(db: DbWeight)
    ensures
        submit_did_call_ed25519_key_cost(db) == 85_657_000 + db.read + db.write,
{
}

/// Cost of `submit_did_call_sr25519_key` before saturation.
pub open spec fn submit_did_call_sr25519_key_cost(db: DbWeight) -> int {
    88_121_000 + db.read + db.write
}

/// `submit_did_call_sr25519_key` costs a fixed 88_121_000, 1 read, 1 write.
pub proof fn lemma_submit_did_call_sr25519_key_cost(db: DbWeight)
    ensures
        submit_did_call_sr25519_key_cost(db) == 88_121_000 + db.read + db.write,
{
}

/// Cost of `submit_did_call_ecdsa_key` before saturation.
pub open spec fn submit_did_call_ecdsa_key_cost(db: DbWeight) -> int {
    203_208_000 + db.read + db.write
}

/// `submit_did_call_ecdsa_key` costs a fixed 203_208_000, 1 read, 1 write.
pub proof fn lemma_submit_did_call_ecdsa_key_cost(db: DbWeight)
    ensures
        submit_did_call_ecdsa_key_cost(db) == 203_208_000 + db.read + db.write,
{
}

/// Cost of `set_ed25519_authentication_key` before saturation.
pub open spec fn set_ed25519_authentication_key_cost(db: DbWeight) -> int {
    47_523_000 + db.read + db.write
}

/// `set_ed25519_authentication_key` costs a fixed 47_523_000, 1 read, 1 write.
pub proof fn lemma_set_ed25519_authentication_key_cost(db: DbWeight)
    ensures
        set_ed25519_authentication_key_cost(db) == 47_523_000 + db.read + db.write,
{
}

/// Cost of `set_sr25519_authentication_key` before saturation.
pub open spec fn set_sr25519_authentication_key_cost(db: DbWeight) -> int {
    47_139_000 + db.read + db.write
}

/// `set_sr25519_authentication_key` costs a fixed 47_139_000, 1 read, 1 write.
pub proof fn lemma_set_sr25519_authentication_key_cost(db: DbWeight)
    ensures
        set_sr25519_authentication_key_cost(db) == 47_139_000 + db.read + db.write,
{
}

/// Cost of `set_ecdsa_authentication_key` before saturation.
pub open spec fn set_ecdsa_authentication_key_cost(db: DbWeight) -> int {
    47_445_000 + db.read + db.write
}

/// `set_ecdsa_authentication_key` costs a fixed 47_445_000, 1 read, 1 write.
pub proof fn lemma_set_ecdsa_authentication_key_cost(db: DbWeight)
    ensures
        set_ecdsa_authentication_key_cost(db) == 47_445_000 + db.read + db.write,
{
}

/// Cost of `set_ed25519_delegation_key` before saturation.
pub open spec fn set_ed25519_delegation_key_cost(db: DbWeight) -> int {
    47_109_000 + db.read + db.write
}

/// `set_ed25519_delegation_key` costs a fixed 47_109_000, 1 read, 1 write.
pub proof fn lemma_set_ed25519_delegation_key_cost(db: DbWeight)
    ensures
        set_ed25519_delegation_key_cost(db) == 47_109_000 + db.read + db.write,
{
}

/// Cost of `set_sr25519_delegation_key` before saturation.
pub open spec fn set_sr25519_delegation_key_cost(db: DbWeight) -> int {
    47_153_000 + db.read + db.write
}

/// `set_sr25519_delegation_key` costs a fixed 47_153_000, 1 read, 1 write.
pub proof fn lemma_set_sr25519_delegation_key_cost(db: DbWeight)
    ensures
        set_sr25519_delegation_key_cost(db) == 47_153_000 + db.read + db.write,
{
}

/// Cost of `set_ecdsa_delegation_key` before saturation.
pub open spec fn set_ecdsa_delegation_key_cost(db: DbWeight) -> int {
    47_180_000 + db.read + db.write
}

/// `set_ecdsa_delegation_key` costs a fixed 47_180_000, 1 read, 1 write.
pub proof fn lemma_set_ecdsa_delegation_key_cost(db: DbWeight)
    ensures
        set_ecdsa_delegation_key_cost(db) == 47_180_000 + db.read + db.write,
{
}

/// Cost of `remove_ed25519_delegation_key` before saturation.
pub open spec fn remove_ed25519_delegation_key_cost(db: DbWeight) -> int {
    43_349_000 + db.read + db.write
}

/// `remove_ed25519_delegation_key` costs a fixed 43_349_000, 1 read, 1 write.
pub proof fn lemma_remove_ed25519_delegation_key_cost(db: DbWeight)
    ensures
        remove_ed25519_delegation_key_cost(db) == 43_349_000 + db.read + db.write,
{
}

/// Cost of `remove_sr25519_delegation_key` before saturation.
pub open spec fn remove_sr25519_delegation_key_cost(db: DbWeight) -> int {
    43_782_000 + db.read + db.write
}

/// `remove_sr25519_delegation_key` costs a fixed 43_782_000, 1 read, 1 write.
pub proof fn lemma_remove_sr25519_delegation_key_cost(db: DbWeight)
    ensures
        remove_sr25519_delegation_key_cost(db) == 43_782_000 + db.read + db.write,
{
}

/// Cost of `remove_ecdsa_delegation_key` before saturation.
pub open spec fn remove_ecdsa_delegation_key_cost(db: DbWeight) -> int {
    43_469_000 + db.read + db.write
}

/// `remove_ecdsa_delegation_key` costs a fixed 43_469_000, 1 read, 1 write.
pub proof fn lemma_remove_ecdsa_delegation_key_cost(db: DbWeight)
    ensures
        remove_ecdsa_delegation_key_cost(db) == 43_469_000 + db.read + db.write,
{
}

/// Cost of `set_ed25519_attestation_key` before saturation.
pub open spec fn set_ed25519_attestation_key_cost(db: DbWeight) -> int {
    47_008_000 + db.read + db.write
}

/// `set_ed25519_attestation_key` costs a fixed 47_008_000, 1 read, 1 write.
pub proof fn lemma_set_ed25519_attestation_key_cost(db: DbWeight)
    ensures
        set_ed25519_attestation_key_cost(db) == 47_008_000 + db.read + db.write,
{
}

/// Cost of `set_sr25519_attestation_key` before saturation.
pub open spec fn set_sr25519_attestation_key_cost(db: DbWeight) -> int {
    46_791_000 + db.read + db.write
}

/// `set_sr25519_attestation_key` costs a fixed 46_791_000, 1 read, 1 write.
pub proof fn lemma_set_sr25519_attestation_key_cost(db: DbWeight)
    ensures
        set_sr25519_attestation_key_cost(db) == 46_791_000 + db.read + db.write,
{
}

/// Cost of `set_ecdsa_attestation_key` before saturation.
pub open spec fn set_ecdsa_attestation_key_cost(db: DbWeight) -> int {
    46_654_000 + db.read + db.write
}

/// `set_ecdsa_attestation_key` costs a fixed 46_654_000, 1 read, 1 write.
pub proof fn lemma_set_ecdsa_attestation_key_cost(db: DbWeight)
    ensures
        set_ecdsa_attestation_key_cost(db) == 46_654_000 + db.read + db.write,
{
}

/// Cost of `remove_ed25519_attestation_key` before saturation.
pub open spec fn remove_ed25519_attestation_key_cost(db: DbWeight) -> int {
    43_206_000 + db.read + db.write
}

/// `remove_ed25519_attestation_key` costs a fixed 43_206_000, 1 read, 1 write.
pub proof fn lemma_remove_ed25519_attestation_key_cost(db: DbWeight)
    ensures
        remove_ed25519_attestation_key_cost(db) == 43_206_000 + db.read + db.write,
{
}

/// Cost of `remove_sr25519_attestation_key` before saturation.
pub open spec fn remove_sr25519_attestation_key_cost(db: DbWeight) -> int {
    43_339_000 + db.read + db.write
}

/// `remove_sr25519_attestation_key` costs a fixed 43_339_000, 1 read, 1 write.
pub proof fn lemma_remove_sr25519_attestation_key_cost(db: DbWeight)
    ensures
        remove_sr25519_attestation_key_cost(db) == 43_339_000 + db.read + db.write,
{
}

/// Cost of `remove_ecdsa_attestation_key` before saturation.
pub open spec fn remove_ecdsa_attestation_key_cost(db: DbWeight) -> int {
    43_217_000 + db.read + db.write
}

/// `remove_ecdsa_attestation_key` costs a fixed 43_217_000, 1 read, 1 write.
pub proof fn lemma_remove_ecdsa_attestation_key_cost(db: DbWeight)
    ensures
        remove_ecdsa_attestation_key_cost(db) == 43_217_000 + db.read + db.write,
{
}

/// Cost of `add_ed25519_key_agreement_key` before saturation.
pub open spec fn add_ed25519_key_agreement_key_cost(db: DbWeight) -> int {
    45_677_000 + db.read + db.write
}

/// `add_ed25519_key_agreement_key` costs a fixed 45_677_000, 1 read, 1 write.
pub proof fn lemma_add_ed25519_key_agreement_key_cost(db: DbWeight)
    ensures
        add_ed25519_key_agreement_key_cost(db) == 45_677_000 + db.read + db.write,
{
}

/// Cost of `add_sr25519_key_agreement_key` before saturation.
pub open spec fn add_sr25519_key_agreement_key_cost(db: DbWeight) -> int {
    45_880_000 + db.read + db.write
}

/// `add_sr25519_key_agreement_key` costs a fixed 45_880_000, 1 read, 1 write.
pub proof fn lemma_add_sr25519_key_agreement_key_cost(db: DbWeight)
    ensures
        add_sr25519_key_agreement_key_cost(db) == 45_880_000 + db.read + db.write,
{
}

/// Cost of `add_ecdsa_key_agreement_key` before saturation.
pub open spec fn add_ecdsa_key_agreement_key_cost(db: DbWeight) -> int {
    45_968_000 + db.read + db.write
}

/// `add_ecdsa_key_agreement_key` costs a fixed 45_968_000, 1 read, 1 write.
pub proof fn lemma_add_ecdsa_key_agreement_key_cost(db: DbWeight)
    ensures
        add_ecdsa_key_agreement_key_cost(db) == 45_968_000 + db.read + db.write,
{
}

/// Cost of `remove_ed25519_key_agreement_key` before saturation.
pub open spec fn remove_ed25519_key_agreement_key_cost(db: DbWeight) -> int {
    43_709_000 + db.read + db.write
}

/// `remove_ed25519_key_agreement_key` costs a fixed 43_709_000, 1 read, 1 write.
pub proof fn lemma_remove_ed25519_key_agreement_key_cost(db: DbWeight)
    ensures
        remove_ed25519_key_agreement_key_cost(db) == 43_709_000 + db.read + db.write,
{
}

/// Cost of `remove_sr25519_key_agreement_key` before saturation.
pub open spec fn remove_sr25519_key_agreement_key_cost(db: DbWeight) -> int {
    43_659_000 + db.read + db.write
}

/// `remove_sr25519_key_agreement_key` costs a fixed 43_659_000, 1 read, 1 write.
pub proof fn lemma_remove_sr25519_key_agreement_key_cost(db: DbWeight)
    ensures
        remove_sr25519_key_agreement_key_cost(db) == 43_659_000 + db.read + db.write,
{
}

/// Cost of `remove_ecdsa_key_agreement_key` before saturation.
pub open spec fn remove_ecdsa_key_agreement_key_cost(db: DbWeight) -> int {
    43_747_000 + db.read + db.write
}

/// `remove_ecdsa_key_agreement_key` costs a fixed 43_747_000, 1 read, 1 write.
pub proof fn lemma_remove_ecdsa_key_agreement_key_cost(db: DbWeight)
    ensures
        remove_ecdsa_key_agreement_key_cost(db) == 43_747_000 + db.read + db.write,
{
}

/// Cost of `add_service_endpoint` before saturation.
pub open spec fn add_service_endpoint_cost(db: DbWeight) -> int {
    43_232_000 + 3 * db.read + 2 * db.write
}

/// `add_service_endpoint` costs a fixed 43_232_000, 3 reads, 2 writes.
pub proof fn lemma_add_service_endpoint_cost(db: DbWeight)
    ensures
        add_service_endpoint_cost(db) == 43_232_000 + 3 * db.read + 2 * db.write,
{
}

/// Cost of `remove_service_endpoint` before saturation.
pub open spec fn remove_service_endpoint_cost(db: DbWeight) -> int {
    34_532_000 + 2 * db.read + 2 * db.write
}

/// `remove_service_endpoint` costs a fixed 34_532_000, 2 reads, 2 writes.
pub proof fn lemma_remove_service_endpoint_cost(db: DbWeight)
    ensures
        remove_service_endpoint_cost(db) == 34_532_000 + 2 * db.read + 2 * db.write,
{
}

/// Cost of `signature_verification_sr25519` before saturation. `l` counts the bytes of the signed payload.
pub open spec fn signature_verification_sr25519_cost(db: DbWeight, l: int) -> int {
    linear_cost(
        25_823_000 + db.read,
        4_000,
        l,
        0,
        0,
    )
}

/// `signature_verification_sr25519` costs a fixed 25_823_000, 4_000 for each of `l`, 1 read; each further unit of `l` adds exactly its own part.
pub proof fn lemma_signature_verification_sr25519_cost(db: DbWeight, l: int)
    ensures
        signature_verification_sr25519_cost(db, l) == 25_823_000 + 4_000 * l + db.read,
        signature_verification_sr25519_cost(db, l + 1) == signature_verification_sr25519_cost(db, l) + 4_000,
{
    assert(signature_verification_sr25519_cost(db, l) == 25_823_000 + 4_000 * l + db.read) by (nonlinear_arith);
    assert(signature_verification_sr25519_cost(db, l + 1) == signature_verification_sr25519_cost(db, l) + 4_000) by (nonlinear_arith);
}

/// Cost of `signature_verification_ed25519` before saturation. `l` counts the bytes of the signed payload.
pub open spec fn signature_verification_ed25519_cost(db: DbWeight, l: int) -> int {
    linear_cost(
        23_103_000 + db.read,
        2_000,
        l,
        0,
        0,
    )
}

/// `signature_verification_ed25519` costs a fixed 23_103_000, 2_000 for each of `l`, 1 read; each further unit of `l` adds exactly its own part.
pub proof fn lemma_signature_verification_ed25519_cost(db: DbWeight, l: int)
    ensures
        signature_verification_ed25519_cost(db, l) == 23_103_000 + 2_000 * l + db.read,
        signature_verification_ed25519_cost(db, l + 1) == signature_verification_ed25519_cost(db, l) + 2_000,
{
    assert(signature_verification_ed25519_cost(db, l) == 23_103_000 + 2_000 * l + db.read) by (nonlinear_arith);
    assert(signature_verification_ed25519_cost(db, l + 1) == signature_verification_ed25519_cost(db, l) + 2_000) by (nonlinear_arith);
}

/// Cost of `signature_verification_ecdsa` before saturation. `l` counts the bytes of the signed payload.
pub open spec fn signature_verification_ecdsa_cost(db: DbWeight, l: int) -> int {
    linear_cost(
        141_265_000 + db.read,
        1_000,
        l,
        0,
        0,
    )
}

/// `signature_verification_ecdsa` costs a fixed 141_265_000, 1_000 for each of `l`, 1 read; each further unit of `l` adds exactly its own part.
pub proof fn lemma_signature_verification_ecdsa_cost(db: DbWeight, l: int)
    ensures
        signature_verification_ecdsa_cost(db, l) == 141_265_000 + 1_000 * l + db.read,
        signature_verification_ecdsa_cost(db, l + 1) == signature_verification_ecdsa_cost(db, l) + 1_000,
{
    assert(signature_verification_ecdsa_cost(db, l) == 141_265_000 + 1_000 * l + db.read) by (nonlinear_arith);
    assert(signature_verification_ecdsa_cost(db, l + 1) == signature_verification_ecdsa_cost(db, l) + 1_000) by (nonlinear_arith);
}

/// Weights of the DID pallet for a runtime with the given database weights.
#[derive(Clone, Copy, Debug, PartialEq, Eq, Structural)]
pub struct WeightInfo {
    /// Cost of one database read and of one database write.
    pub db_weight: DbWeight,
}

impl WeightInfo {
    /// Weight of `create_ed25519_keys`. `n` counts the new key agreement keys. `c` counts the service endpoints.
    pub fn create_ed25519_keys(&self, n: u32, c: u32) -> (w: Weight)
        ensures
            w == capped(create_ed25519_keys_cost(self.db_weight, n as int, c as int)),
            w == capped(155_554_000 + 2_340_000 * n as int + 10_183_000 * c as int + 4 * self.db_weight.read + (4 + c as int) * self.db_weight.write),
    {
        let db = self.db_weight;
        let w = 155_554_000u64
            .saturating_add(2_340_000u64.saturating_mul(n as u64))
            .saturating_add(10_183_000u64.saturating_mul(c as u64))
            .saturating_add(db.reads(4))
            .saturating_add(db.writes(4))
            .saturating_add(db.writes(1u64.saturating_mul(c as u64)));
        proof {
            let rd = db.read as int;
            let wt = db.write as int;
            let ni = n as int;
            let ci = c as int;
            assert((2_340_000) * ni == 2_340_000 * ni) by (nonlinear_arith);
            assert(wt * (1 * ci) >= 0) by (nonlinear_arith)
                requires
                    rd >= 0,
                    wt >= 0,
                    ci >= 0,
            ;
            assert((10_183_000 + 1 * wt) * ci == 10_183_000 * ci + wt * (1 * ci)) by (nonlinear_arith);
        }
        proof {
            lemma_create_ed25519_keys_cost(db, n as int, c as int);
        }
        w
    }

    /// Weight of `create_sr25519_keys`. `n` counts the new key agreement keys. `c` counts the service endpoints.
    pub fn create_sr25519_keys(&self, n: u32, c: u32) -> (w: Weight)
        ensures
            w == capped(create_sr25519_keys_cost(self.db_weight, n as int, c as int)),
            w == capped(157_851_000 + 2_477_000 * n as int + 10_523_000 * c as int + 4 * self.db_weight.read + (4 + c as int) * self.db_weight.write),
    {
        let db = self.db_weight;
        let w = 157_851_000u64
            .saturating_add(2_477_000u64.saturating_mul(n as u64))
            .saturating_add(10_523_000u64.saturating_mul(c as u64))
            .saturating_add(db.reads(4))
            .saturating_add(db.writes(4))
            .saturating_add(db.writes(1u64.saturating_mul(c as u64)));
        proof {
            let rd = db.read as int;
            let wt = db.write as int;
            let ni = n as int;
            let ci = c as int;
            assert((2_477_000) * ni == 2_477_000 * ni) by (nonlinear_arith);
            assert(wt * (1 * ci) >= 0) by (nonlinear_arith)
                requires
                    rd >= 0,
                    wt >= 0,
                    ci >= 0,
            ;
            assert((10_523_000 + 1 * wt) * ci == 10_523_000 * ci + wt * (1 * ci)) by (nonlinear_arith);
        }
        proof {
            lemma_create_sr25519_keys_cost(db, n as int, c as int);
        }
        w
    }

    /// Weight of `create_ecdsa_keys`. `n` counts the new key agreement keys. `c` counts the service endpoints.
    pub fn create_ecdsa_keys(&self, n: u32, c: u32) -> (w: Weight)
        ensures
            w == capped(create_ecdsa_keys_cost(self.db_weight, n as int, c as int)),
            w == capped(275_184_000 + 2_307_000 * n as int + 9_953_000 * c as int + 4 * self.db_weight.read + (4 + c as int) * self.db_weight.write),
    {
        let db = self.db_weight;
        let w = 275_184_000u64
            .saturating_add(2_307_000u64.saturating_mul(n as u64))
            .saturating_add(9_953_000u64.saturating_mul(c as u64))
            .saturating_add(db.reads(4))
            .saturating_add(db.writes(4))
            .saturating_add(db.writes(1u64.saturating_mul(c as u64)));
        proof {
            let rd = db.read as int;
            let wt = db.write as int;
            let ni = n as int;
            let ci = c as int;
            assert((2_307_000) * ni == 2_307_000 * ni) by (nonlinear_arith);
            assert(wt * (1 * ci) >= 0) by (nonlinear_arith)
                requires
                    rd >= 0,
                    wt >= 0,
                    ci >= 0,
            ;
            assert((9_953_000 + 1 * wt) * ci == 9_953_000 * ci + wt * (1 * ci)) by (nonlinear_arith);
        }
        proof {
            lemma_create_ecdsa_keys_cost(db, n as int, c as int);
        }
        w
    }

    /// Weight of `delete`. `c` counts the service endpoints removed.
    pub fn delete(&self, c: u32) -> (w: Weight)
        ensures
            w == capped(delete_cost(self.db_weight, c as int)),
            w == capped(40_970_000 + 1_039_000 * c as int + 2 * self.db_weight.read + (3 + c as int) * self.db_weight.write),
    {
        let db = self.db_weight;
        let w = 40_970_000u64
            .saturating_add(1_039_000u64.saturating_mul(c as u64))
            .saturating_add(db.reads(2))
            .saturating_add(db.writes(3))
            .saturating_add(db.writes(1u64.saturating_mul(c as u64)));
        proof {
            let rd = db.read as int;
            let wt = db.write as int;
            let ci = c as int;
            assert(wt * (1 * ci) >= 0) by (nonlinear_arith)
                requires
                    rd >= 0,
                    wt >= 0,
                    ci >= 0,
            ;
            assert((1_039_000 + 1 * wt) * ci == 1_039_000 * ci + wt * (1 * ci)) by (nonlinear_arith);
        }
        proof {
            lemma_delete_cost(db, c as int);
        }
        w
    }

    /// Weight of `reclaim_deposit`. `c` counts the service endpoints removed.
    pub fn reclaim_deposit(&self, c: u32) -> (w: Weight)
        ensures
            w == capped(reclaim_deposit_cost(self.db_weight, c as int)),
            w == capped(45_659_000 + 1_037_000 * c as int + 2 * self.db_weight.read + (3 + c as int) * self.db_weight.write),
    {
        let db = self.db_weight;
        let w = 45_659_000u64
            .saturating_add(1_037_000u64.saturating_mul(c as u64))
            .saturating_add(db.reads(2))
            .saturating_add(db.writes(3))
            .saturating_add(db.writes(1u64.saturating_mul(c as u64)));
        proof {
            let rd = db.read as int;
            let wt = db.write as int;
            let ci = c as int;
            assert(wt * (1 * ci) >= 0) by (nonlinear_arith)
                requires
                    rd >= 0,
                    wt >= 0,
                    ci >= 0,
            ;
            assert((1_037_000 + 1 * wt) * ci == 1_037_000 * ci + wt * (1 * ci)) by (nonlinear_arith);
        }
        proof {
            lemma_reclaim_deposit_cost(db, c as int);
        }
        w
    }

    /// Weight of `submit_did_call_ed25519_key`.
    pub fn submit_did_call_ed25519_key(&self) -> (w: Weight)
        ensures
            w == capped(submit_did_call_ed25519_key_cost(self.db_weight)),
            w == capped(85_657_000 + self.db_weight.read + self.db_weight.write),
    {
        let db = self.db_weight;
        let w = 85_657_000u64
            .saturating_add(db.reads(1))
            .saturating_add(db.writes(1));
        proof {
            lemma_submit_did_call_ed25519_key_cost(db);
        }
        w
    }

    /// Weight of `submit_did_call_sr25519_key`.
    pub fn submit_did_call_sr25519_key(&self) -> (w: Weight)
        ensures
            w == capped(submit_did_call_sr25519_key_cost(self.db_weight)),
            w == capped(88_121_000 + self.db_weight.read + self.db_weight.write),
    {
        let db = self.db_weight;
        let w = 88_121_000u64
            .saturating_add(db.reads(1))
            .saturating_add(db.writes(1));
        proof {
            lemma_submit_did_call_sr25519_key_cost(db);
        }
        w
    }

    /// Weight of `submit_did_call_ecdsa_key`.
    pub fn submit_did_call_ecdsa_key(&self) -> (w: Weight)
        ensures
            w == capped(submit_did_call_ecdsa_key_cost(self.db_weight)),
            w == capped(203_208_000 + self.db_weight.read + self.db_weight.write),
    {
        let db = self.db_weight;
        let w = 203_208_000u64
            .saturating_add(db.reads(1))
            .saturating_add(db.writes(1));
        proof {
            lemma_submit_did_call_ecdsa_key_cost(db);
        }
        w
    }

    /// Weight of `set_ed25519_authentication_key`.
    pub fn set_ed25519_authentication_key(&self) -> (w: Weight)
        ensures
            w == capped(set_ed25519_authentication_key_cost(self.db_weight)),
            w == capped(47_523_000 + self.db_weight.read + self.db_weight.write),
    {
        let db = self.db_weight;
        let w = 47_523_000u64
            .saturating_add(db.reads(1))
            .saturating_add(db.writes(1));
        proof {
            lemma_set_ed25519_authentication_key_cost(db);
        }
        w
    }

    /// Weight of `set_sr25519_authentication_key`.
    pub fn set_sr25519_authentication_key(&self) -> (w: Weight)
        ensures
            w == capped(set_sr25519_authentication_key_cost(self.db_weight)),
            w == capped(47_139_000 + self.db_weight.read + self.db_weight.write),
    {
        let db = self.db_weight;
        let w = 47_139_000u64
            .saturating_add(db.reads(1))
            .saturating_add(db.writes(1));
        proof {
            lemma_set_sr25519_authentication_key_cost(db);
        }
        w
    }

    /// Weight of `set_ecdsa_authentication_key`.
    pub fn set_ecdsa_authentication_key(&self) -> (w: Weight)
        ensures
            w == capped(set_ecdsa_authentication_key_cost(self.db_weight)),
            w == capped(47_445_000 + self.db_weight.read + self.db_weight.write),
    {
        let db = self.db_weight;
        let w = 47_445_000u64
            .saturating_add(db.reads(1))
            .saturating_add(db.writes(1));
        proof {
            lemma_set_ecdsa_authentication_key_cost(db);
        }
        w
    }

    /// Weight of `set_ed25519_delegation_key`.
    pub fn set_ed25519_delegation_key(&self) -> (w: Weight)
        ensures
            w == capped(set_ed25519_delegation_key_cost(self.db_weight)),
            w == capped(47_109_000 + self.db_weight.read + self.db_weight.write),
    {
        let db = self.db_weight;
        let w = 47_109_000u64
            .saturating_add(db.reads(1))
            .saturating_add(db.writes(1));
        proof {
            lemma_set_ed25519_delegation_key_cost(db);
        }
        w
    }

    /// Weight of `set_sr25519_delegation_key`.
    pub fn set_sr25519_delegation_key(&self) -> (w: Weight)
        ensures
            w == capped(set_sr25519_delegation_key_cost(self.db_weight)),
            w == capped(47_153_000 + self.db_weight.read + self.db_weight.write),
    {
        let db = self.db_weight;
        let w = 47_153_000u64
            .saturating_add(db.reads(1))
            .saturating_add(db.writes(1));
        proof {
            lemma_set_sr25519_delegation_key_cost(db);
        }
        w
    }

    /// Weight of `set_ecdsa_delegation_key`.
    pub fn set_ecdsa_delegation_key(&self) -> (w: Weight)
        ensures
            w == capped(set_ecdsa_delegation_key_cost(self.db_weight)),
            w == capped(47_180_000 + self.db_weight.read + self.db_weight.write),
    {
        let db = self.db_weight;
        let w = 47_180_000u64
            .saturating_add(db.reads(1))
            .saturating_add(db.writes(1));
        proof {
            lemma_set_ecdsa_delegation_key_cost(db);
        }
        w
    }

    /// Weight of `remove_ed25519_delegation_key`.
    pub fn remove_ed25519_delegation_key(&self) -> (w: Weight)
        ensures
            w == capped(remove_ed25519_delegation_key_cost(self.db_weight)),
            w == capped(43_349_000 + self.db_weight.read + self.db_weight.write),
    {
        let db = self.db_weight;
        let w = 43_349_000u64
            .saturating_add(db.reads(1))
            .saturating_add(db.writes(1));
        proof {
            lemma_remove_ed25519_delegation_key_cost(db);
        }
        w
    }

    /// Weight of `remove_sr25519_delegation_key`.
    pub fn remove_sr25519_delegation_key(&self) -> (w: Weight)
        ensures
            w == capped(remove_sr25519_delegation_key_cost(self.db_weight)),
            w == capped(43_782_000 + self.db_weight.read + self.db_weight.write),
    {
        let db = self.db_weight;
        let w = 43_782_000u64
            .saturating_add(db.reads(1))
            .saturating_add(db.writes(1));
        proof {
            lemma_remove_sr25519_delegation_key_cost(db);
        }
        w
    }

    /// Weight of `remove_ecdsa_delegation_key`.
    pub fn remove_ecdsa_delegation_key(&self) -> (w: Weight)
        ensures
            w == capped(remove_ecdsa_delegation_key_cost(self.db_weight)),
            w == capped(43_469_000 + self.db_weight.read + self.db_weight.write),
    {
        let db = self.db_weight;
        let w = 43_469_000u64
            .saturating_add(db.reads(1))
            .saturating_add(db.writes(1));
        proof {
            lemma_remove_ecdsa_delegation_key_cost(db);
        }
        w
    }

    /// Weight of `set_ed25519_attestation_key`.
    pub fn set_ed25519_attestation_key(&self) -> (w: Weight)
        ensures
            w == capped(set_ed25519_attestation_key_cost(self.db_weight)),
            w == capped(47_008_000 + self.db_weight.read + self.db_weight.write),
    {
        let db = self.db_weight;
        let w = 47_008_000u64
            .saturating_add(db.reads(1))
            .saturating_add(db.writes(1));
        proof {
            lemma_set_ed25519_attestation_key_cost(db);
        }
        w
    }

    /// Weight of `set_sr25519_attestation_key`.
    pub fn set_sr25519_attestation_key(&self) -> (w: Weight)
        ensures
            w == capped(set_sr25519_attestation_key_cost(self.db_weight)),
            w == capped(46_791_000 + self.db_weight.read + self.db_weight.write),
    {
        let db = self.db_weight;
        let w = 46_791_000u64
            .saturating_add(db.reads(1))
            .saturating_add(db.writes(1));
        proof {
            lemma_set_sr25519_attestation_key_cost(db);
        }
        w
    }

    /// Weight of `set_ecdsa_attestation_key`.
    pub fn set_ecdsa_attestation_key(&self) -> (w: Weight)
        ensures
            w == capped(set_ecdsa_attestation_key_cost(self.db_weight)),
            w == capped(46_654_000 + self.db_weight.read + self.db_weight.write),
    {
        let db = self.db_weight;
        let w = 46_654_000u64
            .saturating_add(db.reads(1))
            .saturating_add(db.writes(1));
        proof {
            lemma_set_ecdsa_attestation_key_cost(db);
        }
        w
    }

    /// Weight of `remove_ed25519_attestation_key`.
    pub fn remove_ed25519_attestation_key(&self) -> (w: Weight)
        ensures
            w == capped(remove_ed25519_attestation_key_cost(self.db_weight)),
            w == capped(43_206_000 + self.db_weight.read + self.db_weight.write),
    {
        let db = self.db_weight;
        let w = 43_206_000u64
            .saturating_add(db.reads(1))
            .saturating_add(db.writes(1));
        proof {
            lemma_remove_ed25519_attestation_key_cost(db);
        }
        w
    }

    /// Weight of `remove_sr25519_attestation_key`.
    pub fn remove_sr25519_attestation_key(&self) -> (w: Weight)
        ensures
            w == capped(remove_sr25519_attestation_key_cost(self.db_weight)),
            w == capped(43_339_000 + self.db_weight.read + self.db_weight.write),
    {
        let db = self.db_weight;
        let w = 43_339_000u64
            .saturating_add(db.reads(1))
            .saturating_add(db.writes(1));
        proof {
            lemma_remove_sr25519_attestation_key_cost(db);
        }
        w
    }

    /// Weight of `remove_ecdsa_attestation_key`.
    pub fn remove_ecdsa_attestation_key(&self) -> (w: Weight)
        ensures
            w == capped(remove_ecdsa_attestation_key_cost(self.db_weight)),
            w == capped(43_217_000 + self.db_weight.read + self.db_weight.write),
    {
        let db = self.db_weight;
        let w = 43_217_000u64
            .saturating_add(db.reads(1))
            .saturating_add(db.writes(1));
        proof {
            lemma_remove_ecdsa_attestation_key_cost(db);
        }
        w
    }

    /// Weight of `add_ed25519_key_agreement_key`.
    pub fn add_ed25519_key_agreement_key(&self) -> (w: Weight)
        ensures
            w == capped(add_ed25519_key_agreement_key_cost(self.db_weight)),
            w == capped(45_677_000 + self.db_weight.read + self.db_weight.write),
    {
        let db = self.db_weight;
        let w = 45_677_000u64
            .saturating_add(db.reads(1))
            .saturating_add(db.writes(1));
        proof {
            lemma_add_ed25519_key_agreement_key_cost(db);
        }
        w
    }

    /// Weight of `add_sr25519_key_agreement_key`.
    pub fn add_sr25519_key_agreement_key(&self) -> (w: Weight)
        ensures
            w == capped(add_sr25519_key_agreement_key_cost(self.db_weight)),
            w == capped(45_880_000 + self.db_weight.read + self.db_weight.write),
    {
        let db = self.db_weight;
        let w = 45_880_000u64
            .saturating_add(db.reads(1))
            .saturating_add(db.writes(1));
        proof {
            lemma_add_sr25519_key_agreement_key_cost(db);
        }
        w
    }

    /// Weight of `add_ecdsa_key_agreement_key`.
    pub fn add_ecdsa_key_agreement_key(&self) -> (w: Weight)
        ensures
            w == capped(add_ecdsa_key_agreement_key_cost(self.db_weight)),
            w == capped(45_968_000 + self.db_weight.read + self.db_weight.write),
    {
        let db = self.db_weight;
        let w = 45_968_000u64
            .saturating_add(db.reads(1))
            .saturating_add(db.writes(1));
        proof {
            lemma_add_ecdsa_key_agreement_key_cost(db);
        }
        w
    }

    /// Weight of `remove_ed25519_key_agreement_key`.
    pub fn remove_ed25519_key_agreement_key(&self) -> (w: Weight)
        ensures
            w == capped(remove_ed25519_key_agreement_key_cost(self.db_weight)),
            w == capped(43_709_000 + self.db_weight.read + self.db_weight.write),
    {
        let db = self.db_weight;
        let w = 43_709_000u64
            .saturating_add(db.reads(1))
            .saturating_add(db.writes(1));
        proof {
            lemma_remove_ed25519_key_agreement_key_cost(db);
        }
        w
    }

    /// Weight of `remove_sr25519_key_agreement_key`.
    pub fn remove_sr25519_key_agreement_key(&self) -> (w: Weight)
        ensures
            w == capped(remove_sr25519_key_agreement_key_cost(self.db_weight)),
            w == capped(43_659_000 + self.db_weight.read + self.db_weight.write),
    {
        let db = self.db_weight;
        let w = 43_659_000u64
            .saturating_add(db.reads(1))
            .saturating_add(db.writes(1));
        proof {
            lemma_remove_sr25519_key_agreement_key_cost(db);
        }
        w
    }

    /// Weight of `remove_ecdsa_key_agreement_key`.
    pub fn remove_ecdsa_key_agreement_key(&self) -> (w: Weight)
        ensures
            w == capped(remove_ecdsa_key_agreement_key_cost(self.db_weight)),
            w == capped(43_747_000 + self.db_weight.read + self.db_weight.write),
    {
        let db = self.db_weight;
        let w = 43_747_000u64
            .saturating_add(db.reads(1))
            .saturating_add(db.writes(1));
        proof {
            lemma_remove_ecdsa_key_agreement_key_cost(db);
        }
        w
    }

    /// Weight of `add_service_endpoint`.
    pub fn add_service_endpoint(&self) -> (w: Weight)
        ensures
            w == capped(add_service_endpoint_cost(self.db_weight)),
            w == capped(43_232_000 + 3 * self.db_weight.read + 2 * self.db_weight.write),
    {
        let db = self.db_weight;
        let w = 43_232_000u64
            .saturating_add(db.reads(3))
            .saturating_add(db.writes(2));
        proof {
            lemma_add_service_endpoint_cost(db);
        }
        w
    }

    /// Weight of `remove_service_endpoint`.
    pub fn remove_service_endpoint(&self) -> (w: Weight)
        ensures
            w == capped(remove_service_endpoint_cost(self.db_weight)),
            w == capped(34_532_000 + 2 * self.db_weight.read + 2 * self.db_weight.write),
    {
        let db = self.db_weight;
        let w = 34_532_000u64
            .saturating_add(db.reads(2))
            .saturating_add(db.writes(2));
        proof {
            lemma_remove_service_endpoint_cost(db);
        }
        w
    }

    /// Weight of `signature_verification_sr25519`. `l` counts the bytes of the signed payload.
    pub fn signature_verification_sr25519(&self, l: u32) -> (w: Weight)
        ensures
            w == capped(signature_verification_sr25519_cost(self.db_weight, l as int)),
            w == capped(25_823_000 + 4_000 * l as int + self.db_weight.read),
    {
        let db = self.db_weight;
        let w = 25_823_000u64
            .saturating_add(4_000u64.saturating_mul(l as u64))
            .saturating_add(db.reads(1));
        proof {
            let rd = db.read as int;
            let wt = db.write as int;
            let li = l as int;
            assert((4_000) * li == 4_000 * li) by (nonlinear_arith);
        }
        proof {
            lemma_signature_verification_sr25519_cost(db, l as int);
        }
        w
    }

    /// Weight of `signature_verification_ed25519`. `l` counts the bytes of the signed payload.
    pub fn signature_verification_ed25519(&self, l: u32) -> (w: Weight)
        ensures
            w == capped(signature_verification_ed25519_cost(self.db_weight, l as int)),
            w == capped(23_103_000 + 2_000 * l as int + self.db_weight.read),
    {
        let db = self.db_weight;
        let w = 23_103_000u64
            .saturating_add(2_000u64.saturating_mul(l as u64))
            .saturating_add(db.reads(1));
        proof {
            let rd = db.read as int;
            let wt = db.write as int;
            let li = l as int;
            assert((2_000) * li == 2_000 * li) by (nonlinear_arith);
        }
        proof {
            lemma_signature_verification_ed25519_cost(db, l as int);
        }
        w
    }

    /// Weight of `signature_verification_ecdsa`. `l` counts the bytes of the signed payload.
    pub fn signature_verification_ecdsa(&self, l: u32) -> (w: Weight)
        ensures
            w == capped(signature_verification_ecdsa_cost(self.db_weight, l as int)),
            w == capped(141_265_000 + 1_000 * l as int + self.db_weight.read),
    {
        let db = self.db_weight;
        let w = 141_265_000u64
            .saturating_add(1_000u64.saturating_mul(l as u64))
            .saturating_add(db.reads(1));
        proof {
            let rd = db.read as int;
            let wt = db.write as int;
            let li = l as int;
            assert((1_000) * li == 1_000 * li) by (nonlinear_arith);
        }
        proof {
            lemma_signature_verification_ecdsa_cost(db, l as int);
        }
        w
    }
}

/// The weight of a DID call never shrinks when its counts grow: more keys, endpoints or
/// signed bytes never make a call cheaper.
pub proof fn lemma_did_weights_monotone(db: DbWeight, x1: int, x2: int, y1: int, y2: int)
    requires
        x1 <= x2,
        y1 <= y2,
    ensures
        capped(create_ed25519_keys_cost(db, x1, y1)) <= capped(create_ed25519_keys_cost(db, x2, y2)),
        capped(create_sr25519_keys_cost(db, x1, y1)) <= capped(create_sr25519_keys_cost(db, x2, y2)),
        capped(create_ecdsa_keys_cost(db, x1, y1)) <= capped(create_ecdsa_keys_cost(db, x2, y2)),
        capped(delete_cost(db, x1)) <= capped(delete_cost(db, x2)),
        capped(reclaim_deposit_cost(db, x1)) <= capped(reclaim_deposit_cost(db, x2)),
        capped(signature_verification_sr25519_cost(db, x1)) <= capped(signature_verification_sr25519_cost(db, x2)),
        capped(signature_verification_ed25519_cost(db, x1)) <= capped(signature_verification_ed25519_cost(db, x2)),
        capped(signature_verification_ecdsa_cost(db, x1)) <= capped(signature_verification_ecdsa_cost(db, x2)),
{
    lemma_linear_cost_monotone(155_554_000 + 4 * db.read + 4 * db.write, 2_340_000, x1, x2, 10_183_000 + db.write, y1, y2);
    lemma_linear_cost_monotone(157_851_000 + 4 * db.read + 4 * db.write, 2_477_000, x1, x2, 10_523_000 + db.write, y1, y2);
    lemma_linear_cost_monotone(275_184_000 + 4 * db.read + 4 * db.write, 2_307_000, x1, x2, 9_953_000 + db.write, y1, y2);
    lemma_linear_cost_monotone(40_970_000 + 2 * db.read + 3 * db.write, 1_039_000 + db.write, x1, x2, 0, 0, 0);
    lemma_linear_cost_monotone(45_659_000 + 2 * db.read + 3 * db.write, 1_037_000 + db.write, x1, x2, 0, 0, 0);
    lemma_linear_cost_monotone(25_823_000 + db.read, 4_000, x1, x2, 0, 0, 0);
    lemma_linear_cost_monotone(23_103_000 + db.read, 2_000, x1, x2, 0, 0, 0);
    lemma_linear_cost_monotone(141_265_000 + db.read, 1_000, x1, x2, 0, 0, 0);
}

} // verus!
