//! The key pairs of the test DIDs, each derived from a fixed seed.

use vstd::prelude::*;
use crate::did_mock::{filled, filled_array};

verus! {

#[verifier::external_type_specification]
#[verifier::external_body]
pub struct ExEd25519Pair(sp_core::ed25519::Pair);

#[verifier::external_type_specification]
#[verifier::external_body]
pub struct ExSr25519Pair(sp_core::sr25519::Pair);

#[verifier::external_type_specification]
#[verifier::external_body]
#[verifier::reject_recursive_types(P)]
pub struct ExEcdsaGenericPair<P>(sp_core::ecdsa::GenericPair<P>);

#[verifier::external_type_specification]
#[verifier::external_body]
#[verifier::reject_recursive_types(T)]
pub struct ExCryptoBytes<const N: usize, T>(sp_core::crypto_bytes::CryptoBytes<N, T>);

#[verifier::external_type_specification]
#[verifier::external_body]
pub struct ExPublicTag(sp_core::crypto_bytes::PublicTag);

#[verifier::external_type_specification]
#[verifier::external_body]
pub struct ExEcdsaTag(sp_core::ecdsa::EcdsaTag);

/// The Ed25519 key pair that `sp_core::ed25519::Pair::from_seed` derives from
/// `seed`, which depends on the seed bytes alone.
pub uninterp spec fn ed25519_pair_of_seed(seed: Seq<u8>) -> sp_core::ed25519::Pair;

/// Derives an Ed25519 key pair from `seed` with `sp_core::ed25519::Pair::from_seed`.
/// The contract names the pair and says nothing more of it.
#[verifier::external_body]
fn ed25519_pair_from_seed(seed: &[u8; 32]) -> (pair: sp_core::ed25519::Pair)
    ensures
        pair == ed25519_pair_of_seed(seed@),
{
    <sp_core::ed25519::Pair as sp_core::Pair>::from_seed(seed)
}

/// The Sr25519 key pair that `sp_core::sr25519::Pair::from_seed` derives from
/// `seed`, which depends on the seed bytes alone.
pub uninterp spec fn sr25519_pair_of_seed(seed: Seq<u8>) -> sp_core::sr25519::Pair;

/// Derives an Sr25519 key pair from `seed` with `sp_core::sr25519::Pair::from_seed`,
/// which reads the seed as a mini secret key. The contract names the pair and
/// says nothing more of it.
#[verifier::external_body]
fn sr25519_pair_from_seed(seed: &[u8; 32]) -> (pair: sp_core::sr25519::Pair)
    ensures
        pair == sr25519_pair_of_seed(seed@),
{
    <sp_core::sr25519::Pair as sp_core::Pair>::from_seed(seed)
}

/// A seed that secp256k1 accepts as a secret key: a big-endian number that is
/// neither zero nor as large as the group order. The order's first byte is
/// 0xff, so a first byte below 0xff keeps the seed below it.
pub open spec fn valid_secp256k1_seed(seed: Seq<u8>) -> bool {
    &&& seed.len() == 32
    &&& seed[0] < 0xff
    &&& exists|i: int| 0 <= i < 32 && seed[i] != 0
}

/// The ECDSA key pair that `sp_core::ecdsa::Pair::from_seed` derives from
/// `seed`, which depends on the seed bytes alone.
pub uninterp spec fn ecdsa_pair_of_seed(seed: Seq<u8>) -> sp_core::ecdsa::Pair;

/// Derives an ECDSA key pair from `seed` with `sp_core::ecdsa::Pair::from_seed`,
/// which panics on a seed that is no valid secp256k1 secret key. The contract
/// names the pair and says nothing more of it.
#[verifier::external_body]
fn ecdsa_pair_from_seed(seed: &[u8; 32]) -> (pair: sp_core::ecdsa::Pair)
    requires
        valid_secp256k1_seed(seed@),
    ensures
        pair == ecdsa_pair_of_seed(seed@),
{
    <sp_core::ecdsa::Pair as sp_core::Pair>::from_seed(seed)
}

/// The seed of the authentication keys of the test DIDs: 32 bytes of 4 for the
/// default key, 32 bytes of 40 for the alternative one.
pub fn authentication_seed(default: bool) -> (seed: [u8; 32])
    ensures
        seed@ == filled(if default { 4u8 } else { 40u8 }, 32),
        valid_secp256k1_seed(seed@),
{
    let seed = if default {
        filled_array(4)
    } else {
        filled_array(40)
    };
    assert(seed@[0] != 0);
    seed
}

/// The Ed25519 authentication key pair of the test DIDs, derived from
/// [`authentication_seed`].
pub fn get_ed25519_authentication_key(default: bool) -> (pair: sp_core::ed25519::Pair)
    ensures
        pair == ed25519_pair_of_seed(filled(if default { 4u8 } else { 40u8 }, 32)),
{
    ed25519_pair_from_seed(&authentication_seed(default))
}

/// The Sr25519 authentication key pair of the test DIDs, derived from
/// [`authentication_seed`].
pub fn get_sr25519_authentication_key(default: bool) -> (pair: sp_core::sr25519::Pair)
    ensures
        pair == sr25519_pair_of_seed(filled(if default { 4u8 } else { 40u8 }, 32)),
{
    sr25519_pair_from_seed(&authentication_seed(default))
}

/// The ECDSA authentication key pair of the test DIDs, derived from
/// [`authentication_seed`].
pub fn get_ecdsa_authentication_key(default: bool) -> (pair: sp_core::ecdsa::Pair)
    ensures
        pair == ecdsa_pair_of_seed(filled(if default { 4u8 } else { 40u8 }, 32)),
{
    ecdsa_pair_from_seed(&authentication_seed(default))
}

/// The seed of the attestation keys of the test DIDs: 32 bytes of 6 for the
/// default key, 32 bytes of 60 for the alternative one.
pub fn attestation_seed(default: bool) -> (seed: [u8; 32])
    ensures
        seed@ == filled(if default { 6u8 } else { 60u8 }, 32),
        valid_secp256k1_seed(seed@),
{
    let seed = if default {
        filled_array(6)
    } else {
        filled_array(60)
    };
    assert(seed@[0] != 0);
    seed
}

/// The Ed25519 attestation key pair of the test DIDs, derived from
/// [`attestation_seed`].
pub fn get_ed25519_attestation_key(default: bool) -> (pair: sp_core::ed25519::Pair)
    ensures
        pair == ed25519_pair_of_seed(filled(if default { 6u8 } else { 60u8 }, 32)),
{
    ed25519_pair_from_seed(&attestation_seed(default))
}

/// The Sr25519 attestation key pair of the test DIDs, derived from
/// [`attestation_seed`].
pub fn get_sr25519_attestation_key(default: bool) -> (pair: sp_core::sr25519::Pair)
    ensures
        pair == sr25519_pair_of_seed(filled(if default { 6u8 } else { 60u8 }, 32)),
{
    sr25519_pair_from_seed(&attestation_seed(default))
}

/// The ECDSA attestation key pair of the test DIDs, derived from
/// [`attestation_seed`].
pub fn get_ecdsa_attestation_key(default: bool) -> (pair: sp_core::ecdsa::Pair)
    ensures
        pair == ecdsa_pair_of_seed(filled(if default { 6u8 } else { 60u8 }, 32)),
{
    ecdsa_pair_from_seed(&attestation_seed(default))
}

/// The seed of the delegation keys of the test DIDs: 32 bytes of 7 for the
/// default key, 32 bytes of 70 for the alternative one.
pub fn delegation_seed(default: bool) -> (seed: [u8; 32])
    ensures
        seed@ == filled(if default { 7u8 } else { 70u8 }, 32),
        valid_secp256k1_seed(seed@),
{
    let seed = if default {
        filled_array(7)
    } else {
        filled_array(70)
    };
    assert(seed@[0] != 0);
    seed
}

/// The Ed25519 delegation key pair of the test DIDs, derived from
/// [`delegation_seed`].
pub fn get_ed25519_delegation_key(default: bool) -> (pair: sp_core::ed25519::Pair)
    ensures
        pair == ed25519_pair_of_seed(filled(if default { 7u8 } else { 70u8 }, 32)),
{
    ed25519_pair_from_seed(&delegation_seed(default))
}

/// The Sr25519 delegation key pair of the test DIDs, derived from
/// [`delegation_seed`].
pub fn get_sr25519_delegation_key(default: bool) -> (pair: sp_core::sr25519::Pair)
    ensures
        pair == sr25519_pair_of_seed(filled(if default { 7u8 } else { 70u8 }, 32)),
{
    sr25519_pair_from_seed(&delegation_seed(default))
}

/// The ECDSA delegation key pair of the test DIDs, derived from
/// [`delegation_seed`].
pub fn get_ecdsa_delegation_key(default: bool) -> (pair: sp_core::ecdsa::Pair)
    ensures
        pair == ecdsa_pair_of_seed(filled(if default { 7u8 } else { 70u8 }, 32)),
{
    ecdsa_pair_from_seed(&delegation_seed(default))
}

} // verus!
