//! Fixtures for exercising the DID pallet: the keys of the test DIDs, the
//! identifiers derived from them, and the calls that each key relationship
//! authorizes.

use vstd::prelude::*;
use crate::did_details::{
    blake2_256, blake_two_256, ctype_add_input, did_public_key_encoding, Call, CtypeCall,
    DidAuthorizedCallOperation, DidAuthorizedCallOperationWithVerificationRelationship,
    DidEncryptionKey, DidPublicKey, DidVerificationKey, DidVerificationKeyRelationship,
    RelationshipDeriveError,
};

verus! {

/// `len` copies of the byte `b`.
pub open spec fn filled(b: u8, len: nat) -> Seq<u8> {
    Seq::new(len, |_i: int| b)
}

/// 32 copies of `b`.
fn filled_vec(b: u8) -> (v: Vec<u8>)
    ensures
        v@ == filled(b, 32),
{
    let v = vec![b; 32];
    assert(v@ =~= filled(b, 32));
    v
}

/// 32 copies of `b`, as an array.
pub(crate) fn filled_array(b: u8) -> (a: [u8; 32])
    ensures
        a@ == filled(b, 32),
{
    let a = [b; 32];
    assert(a@ =~= filled(b, 32));
    a
}

/// The account that a DID with this Ed25519 key is identified by.
pub fn get_did_identifier_from_ed25519_key(public_key: [u8; 32]) -> (did: [u8; 32])
    ensures
        did@ == public_key@,
{
    ed25519_account(public_key)
}

/// The account that a DID with this Sr25519 key is identified by.
pub fn get_did_identifier_from_sr25519_key(public_key: [u8; 32]) -> (did: [u8; 32])
    ensures
        did@ == public_key@,
{
    sr25519_account(public_key)
}

/// The account that a DID with this compressed ECDSA key is identified by:
/// the Blake2-256 digest of the key.
pub fn get_did_identifier_from_ecdsa_key(public_key: [u8; 33]) -> (did: [u8; 32])
    ensures
        did@ == blake2_256(public_key@),
{
    ecdsa_account(public_key)
}

/// Identifies the signer of an Ed25519 key with
/// `sp_runtime::MultiSigner::into_account`, whose source takes the 32 key
/// bytes as the account id unchanged.
#[verifier::external_body]
fn ed25519_account(public_key: [u8; 32]) -> (account: [u8; 32])
    ensures
        account@ == public_key@,
{
    let signer = sp_runtime::MultiSigner::from(sp_core::ed25519::Public::from_raw(public_key));
    <sp_runtime::MultiSigner as sp_runtime::traits::IdentifyAccount>::into_account(signer).into()
}

/// Identifies the signer of an Sr25519 key with
/// `sp_runtime::MultiSigner::into_account`, whose source takes the 32 key
/// bytes as the account id unchanged.
#[verifier::external_body]
fn sr25519_account(public_key: [u8; 32]) -> (account: [u8; 32])
    ensures
        account@ == public_key@,
{
    let signer = sp_runtime::MultiSigner::from(sp_core::sr25519::Public::from_raw(public_key));
    <sp_runtime::MultiSigner as sp_runtime::traits::IdentifyAccount>::into_account(signer).into()
}

/// Identifies the signer of a compressed ECDSA key with
/// `sp_runtime::MultiSigner::into_account`, whose source takes
/// `sp_io::hashing::blake2_256` of the 33 key bytes as the account id.
#[verifier::external_body]
fn ecdsa_account(public_key: [u8; 33]) -> (account: [u8; 32])
    ensures
        account@ == blake2_256(public_key@),
{
    let signer = sp_runtime::MultiSigner::from(sp_core::ecdsa::Public::from_raw(public_key));
    <sp_runtime::MultiSigner as sp_runtime::traits::IdentifyAccount>::into_account(signer).into()
}

/// The public encryption key of the test DIDs: 32 bytes of 254 for the default
/// key, 32 bytes of 255 for the alternative one.
pub fn get_x25519_encryption_key(default: bool) -> (key: DidEncryptionKey)
    ensures
        key matches DidEncryptionKey::X25519(k) && k@ == filled(if default { 254u8 } else { 255u8 }, 32),
{
    if default {
        DidEncryptionKey::X25519(filled_array(254))
    } else {
        DidEncryptionKey::X25519(filled_array(255))
    }
}

/// The identifier of a DID public key: the Blake2-256 digest of its encoding.
pub fn generate_key_id(key: &DidPublicKey) -> (id: [u8; 32])
    ensures
        id@ == blake2_256(did_public_key_encoding(*key)),
        (match *key {
            DidPublicKey::PublicVerificationKey(DidVerificationKey::Ed25519(k)) => id@ == blake2_256(seq![0u8, 0u8] + k@),
            DidPublicKey::PublicVerificationKey(DidVerificationKey::Sr25519(k)) => id@ == blake2_256(seq![0u8, 1u8] + k@),
            DidPublicKey::PublicVerificationKey(DidVerificationKey::Ecdsa(k)) => id@ == blake2_256(seq![0u8, 2u8] + k@),
            DidPublicKey::PublicEncryptionKey(DidEncryptionKey::X25519(k)) => id@ == blake2_256(seq![1u8, 0u8] + k@),
        }),
{
    let encoded = key.encode();
    blake_two_256(encoded.as_slice())
}

/// The ctype bytes of the call that requires an attestation key.
pub fn get_attestation_key_test_input() -> (v: Vec<u8>)
    ensures
        v@ == filled(0, 32),
{
    filled_vec(0)
}

/// The call that requires an attestation key.
pub fn get_attestation_key_call() -> (call: Call)
    ensures
        ctype_add_input(call) == Some(filled(0, 32)),
{
    Call::Ctype(CtypeCall::Add { ctype: get_attestation_key_test_input() })
}

/// The ctype bytes of the call that requires an authentication key.
pub fn get_authentication_key_test_input() -> (v: Vec<u8>)
    ensures
        v@ == filled(1, 32),
{
    filled_vec(1)
}

/// The call that requires an authentication key.
pub fn get_authentication_key_call() -> (call: Call)
    ensures
        ctype_add_input(call) == Some(filled(1, 32)),
{
    Call::Ctype(CtypeCall::Add { ctype: get_authentication_key_test_input() })
}

/// The ctype bytes of the call that requires a delegation key.
pub fn get_delegation_key_test_input() -> (v: Vec<u8>)
    ensures
        v@ == filled(2, 32),
{
    filled_vec(2)
}

/// The call that requires a delegation key.
pub fn get_delegation_key_call() -> (call: Call)
    ensures
        ctype_add_input(call) == Some(filled(2, 32)),
{
    Call::Ctype(CtypeCall::Add { ctype: get_delegation_key_test_input() })
}

/// The ctype bytes of the call that no key may authorize.
pub fn get_none_key_test_input() -> (v: Vec<u8>)
    ensures
        v@ == filled(3, 32),
{
    filled_vec(3)
}

/// The call that no key may authorize.
pub fn get_none_key_call() -> (call: Call)
    ensures
        ctype_add_input(call) == Some(filled(3, 32)),
{
    Call::Ctype(CtypeCall::Add { ctype: get_none_key_test_input() })
}

/// The key relationship that a ctype `add` call with the bytes `input` requires.
pub open spec fn relationship_for_input(input: Seq<u8>) -> Result<
    DidVerificationKeyRelationship,
    RelationshipDeriveError,
> {
    if input == filled(0, 32) {
        Ok(DidVerificationKeyRelationship::AssertionMethod)
    } else if input == filled(1, 32) {
        Ok(DidVerificationKeyRelationship::Authentication)
    } else if input == filled(2, 32) {
        Ok(DidVerificationKeyRelationship::CapabilityDelegation)
    } else {
        Err(RelationshipDeriveError::NotCallableByDid)
    }
}

/// The key relationship that `call` requires: only the three test calls may be
/// dispatched by a DID.
pub open spec fn relationship_for_call(call: Call) -> Result<
    DidVerificationKeyRelationship,
    RelationshipDeriveError,
> {
    match ctype_add_input(call) {
        Some(input) => relationship_for_input(input),
        None => Err(RelationshipDeriveError::NotCallableByDid),
    }
}

/// The ctype bytes of the test call for a key relationship.
pub open spec fn test_input_for(relationship: DidVerificationKeyRelationship) -> Seq<u8> {
    match relationship {
        DidVerificationKeyRelationship::AssertionMethod => filled(0, 32),
        DidVerificationKeyRelationship::Authentication => filled(1, 32),
        DidVerificationKeyRelationship::CapabilityDelegation => filled(2, 32),
        _ => filled(3, 32),
    }
}

/// A call requires a key relationship exactly when it is the test call for it:
/// a ctype `add` of 32 bytes of 0 requires an attestation key, of 32 bytes of 1
/// an authentication key, of 32 bytes of 2 a delegation key; no call requires
/// capability invocation, and every other call may not be dispatched by a DID.
pub proof fn lemma_relationship_for_call(call: Call)
    ensures
        ({
            let res = relationship_for_call(call);
            &&& ((res == Ok::<DidVerificationKeyRelationship, RelationshipDeriveError>(DidVerificationKeyRelationship::AssertionMethod)) <==> (call matches Call::Ctype(CtypeCall::Add { ctype }) && ctype@ == Seq::new(32, |_i: int| 0u8)))
            &&& ((res == Ok::<DidVerificationKeyRelationship, RelationshipDeriveError>(DidVerificationKeyRelationship::Authentication)) <==> (call matches Call::Ctype(CtypeCall::Add { ctype }) && ctype@ == Seq::new(32, |_i: int| 1u8)))
            &&& ((res == Ok::<DidVerificationKeyRelationship, RelationshipDeriveError>(DidVerificationKeyRelationship::CapabilityDelegation)) <==> (call matches Call::Ctype(CtypeCall::Add { ctype }) && ctype@ == Seq::new(32, |_i: int| 2u8)))
            &&& res != Ok::<DidVerificationKeyRelationship, RelationshipDeriveError>(DidVerificationKeyRelationship::CapabilityInvocation)
            &&& res is Err ==> res == Err::<DidVerificationKeyRelationship, RelationshipDeriveError>(RelationshipDeriveError::NotCallableByDid)
        }),
{
    assert(filled(0, 32)[0] == 0u8);
    assert(filled(1, 32)[0] == 1u8);
    assert(filled(2, 32)[0] == 2u8);
    assert(filled(0, 32) =~= Seq::new(32, |_i: int| 0u8));
    assert(filled(1, 32) =~= Seq::new(32, |_i: int| 1u8));
    assert(filled(2, 32) =~= Seq::new(32, |_i: int| 2u8));
}

impl Call {
    /// The key relationship that a DID must use to authorize this call.
    pub fn derive_verification_key_relationship(&self) -> (res: Result<
        DidVerificationKeyRelationship,
        RelationshipDeriveError,
    >)
        ensures
            res == relationship_for_call(*self),
            ((res == Ok::<DidVerificationKeyRelationship, RelationshipDeriveError>(DidVerificationKeyRelationship::AssertionMethod)) <==> (*self matches Call::Ctype(CtypeCall::Add { ctype }) && ctype@ == Seq::new(32, |_i: int| 0u8))),
            ((res == Ok::<DidVerificationKeyRelationship, RelationshipDeriveError>(DidVerificationKeyRelationship::Authentication)) <==> (*self matches Call::Ctype(CtypeCall::Add { ctype }) && ctype@ == Seq::new(32, |_i: int| 1u8))),
            ((res == Ok::<DidVerificationKeyRelationship, RelationshipDeriveError>(DidVerificationKeyRelationship::CapabilityDelegation)) <==> (*self matches Call::Ctype(CtypeCall::Add { ctype }) && ctype@ == Seq::new(32, |_i: int| 2u8))),
            res != Ok::<DidVerificationKeyRelationship, RelationshipDeriveError>(DidVerificationKeyRelationship::CapabilityInvocation),
            res is Err ==> res == Err::<DidVerificationKeyRelationship, RelationshipDeriveError>(RelationshipDeriveError::NotCallableByDid),
    {
        proof {
            lemma_relationship_for_call(*self);
        }
        match self {
            Call::Ctype(CtypeCall::Add { ctype }) => {
                let attestation = get_attestation_key_test_input();
                let authentication = get_authentication_key_test_input();
                let delegation = get_delegation_key_test_input();
                let is_attestation = *ctype == attestation;
                let is_authentication = *ctype == authentication;
                let is_delegation = *ctype == delegation;
                proof {
                    assert(is_attestation == (ctype@ == filled(0, 32))) by {
                        if ctype@ == filled(0, 32) {
                            assert(ctype@ =~= attestation@);
                        }
                        if is_attestation {
                            assert(ctype@ =~= attestation@);
                        }
                    }
                    assert(is_authentication == (ctype@ == filled(1, 32))) by {
                        if ctype@ == filled(1, 32) {
                            assert(ctype@ =~= authentication@);
                        }
                        if is_authentication {
                            assert(ctype@ =~= authentication@);
                        }
                    }
                    assert(is_delegation == (ctype@ == filled(2, 32))) by {
                        if ctype@ == filled(2, 32) {
                            assert(ctype@ =~= delegation@);
                        }
                        if is_delegation {
                            assert(ctype@ =~= delegation@);
                        }
                    }
                }
                if is_attestation {
                    Ok(DidVerificationKeyRelationship::AssertionMethod)
                } else if is_authentication {
                    Ok(DidVerificationKeyRelationship::Authentication)
                } else if is_delegation {
                    Ok(DidVerificationKeyRelationship::CapabilityDelegation)
                } else {
                    Err(RelationshipDeriveError::NotCallableByDid)
                }
            },
            _ => Err(RelationshipDeriveError::NotCallableByDid),
        }
    }
}

/// A test operation of `caller`, submitted by `submitter`, whose call requires
/// a key of the given relationship; for a relationship that authorizes no call,
/// the call is one that no key may authorize.
pub fn generate_test_did_call(
    verification_key_required: DidVerificationKeyRelationship,
    caller: [u8; 32],
    submitter: [u8; 32],
) -> (op: DidAuthorizedCallOperationWithVerificationRelationship)
    ensures
        op.operation.did == caller,
        op.operation.submitter == submitter,
        op.operation.tx_counter == 1,
        op.operation.block_number == 0,
        op.verification_key_relationship == verification_key_required,
        ctype_add_input(op.operation.call) == Some(test_input_for(verification_key_required)),
{
    let call = match verification_key_required {
        DidVerificationKeyRelationship::AssertionMethod => get_attestation_key_call(),
        DidVerificationKeyRelationship::Authentication => get_authentication_key_call(),
        DidVerificationKeyRelationship::CapabilityDelegation => get_delegation_key_call(),
        _ => get_none_key_call(),
    };
    DidAuthorizedCallOperationWithVerificationRelationship {
        operation: DidAuthorizedCallOperation {
            did: caller,
            call,
            tx_counter: 1u64,
            block_number: 0u64,
            submitter,
        },
        verification_key_relationship: verification_key_required,
    }
}

/// The call of a test operation requires exactly the relationship the
/// operation was generated for, except for capability invocation, whose test
/// call no DID may dispatch.
pub proof fn lemma_test_call_requires_its_relationship(relationship: DidVerificationKeyRelationship)
    ensures
        relationship_for_input(test_input_for(relationship)) == (match relationship {
            DidVerificationKeyRelationship::CapabilityInvocation => Err(
                RelationshipDeriveError::NotCallableByDid,
            ),
            _ => Ok(relationship),
        }),
{
    assert(filled(0, 32)[0] == 0u8);
    assert(filled(1, 32)[0] == 1u8);
    assert(filled(2, 32)[0] == 2u8);
    assert(filled(3, 32)[0] == 3u8);
}

} // verus!
