use kilt::did_details::{
    Call, CtypeCall, DidEncryptionKey, DidPublicKey, DidVerificationKey,
    DidVerificationKeyRelationship, RelationshipDeriveError, SystemCall,
};
use kilt::did_keys::{
    attestation_seed, authentication_seed, delegation_seed, get_ecdsa_attestation_key,
    get_ecdsa_authentication_key, get_ecdsa_delegation_key, get_ed25519_attestation_key,
    get_ed25519_authentication_key, get_ed25519_delegation_key, get_sr25519_attestation_key,
    get_sr25519_authentication_key, get_sr25519_delegation_key,
};
use kilt::did_mock::{
    generate_key_id, generate_test_did_call, get_attestation_key_call,
    get_attestation_key_test_input, get_authentication_key_call,
    get_authentication_key_test_input, get_delegation_key_call, get_delegation_key_test_input,
    get_did_identifier_from_ecdsa_key, get_did_identifier_from_ed25519_key,
    get_did_identifier_from_sr25519_key, get_none_key_call, get_none_key_test_input,
    get_x25519_encryption_key,
};
use sp_core::Pair;
use sp_runtime::traits::IdentifyAccount;

fn blake2(data: &[u8]) -> [u8; 32] {
    <sp_runtime::traits::BlakeTwo256 as sp_runtime::traits::Hash>::hash(data).0
}

#[test]
fn encryption_keys() {
    assert_eq!(get_x25519_encryption_key(true), DidEncryptionKey::X25519([254u8; 32]));
    assert_eq!(get_x25519_encryption_key(false), DidEncryptionKey::X25519([255u8; 32]));
}

#[test]
fn public_key_encoding() {
    let ed = DidPublicKey::PublicVerificationKey(DidVerificationKey::Ed25519([9u8; 32]));
    let mut expected = vec![0u8, 0u8];
    expected.extend_from_slice(&[9u8; 32]);
    assert_eq!(ed.encode(), expected);

    let sr = DidPublicKey::PublicVerificationKey(DidVerificationKey::Sr25519([8u8; 32]));
    assert_eq!(sr.encode()[..2], [0u8, 1u8]);
    assert_eq!(sr.encode().len(), 34);

    let ecdsa = DidPublicKey::PublicVerificationKey(DidVerificationKey::Ecdsa([2u8; 33]));
    assert_eq!(ecdsa.encode()[..2], [0u8, 2u8]);
    assert_eq!(ecdsa.encode().len(), 35);

    let x = DidPublicKey::PublicEncryptionKey(DidEncryptionKey::X25519([7u8; 32]));
    assert_eq!(x.encode()[..2], [1u8, 0u8]);
    assert_eq!(x.encode()[2..], [7u8; 32]);
}

#[test]
fn key_id_is_the_hash_of_the_encoding() {
    let key = DidPublicKey::PublicEncryptionKey(get_x25519_encryption_key(true));
    let id = generate_key_id(&key);
    assert_eq!(id, blake2(&key.encode()));
    assert_ne!(id[..], key.encode()[..32]);

    let other = DidPublicKey::PublicEncryptionKey(get_x25519_encryption_key(false));
    assert_ne!(generate_key_id(&other), id);

    let pair = get_ed25519_authentication_key(true);
    let public = DidPublicKey::PublicVerificationKey(DidVerificationKey::Ed25519(pair.public().0));
    let mut encoded = vec![0u8, 0u8];
    encoded.extend_from_slice(&pair.public().0);
    assert_eq!(generate_key_id(&public), blake2(&encoded));
}

#[test]
fn key_pairs_come_from_their_seeds() {
    assert_eq!(authentication_seed(true), [4u8; 32]);
    assert_eq!(authentication_seed(false), [40u8; 32]);
    assert_eq!(attestation_seed(true), [6u8; 32]);
    assert_eq!(attestation_seed(false), [60u8; 32]);
    assert_eq!(delegation_seed(true), [7u8; 32]);
    assert_eq!(delegation_seed(false), [70u8; 32]);

    for default in [true, false] {
        assert_eq!(
            get_ed25519_authentication_key(default).public(),
            sp_core::ed25519::Pair::from_seed(&authentication_seed(default)).public()
        );
        assert_eq!(
            get_sr25519_authentication_key(default).public(),
            sp_core::sr25519::Pair::from_seed(&authentication_seed(default)).public()
        );
        assert_eq!(
            get_ecdsa_authentication_key(default).public(),
            sp_core::ecdsa::Pair::from_seed(&authentication_seed(default)).public()
        );
        assert_eq!(
            get_ed25519_attestation_key(default).public(),
            sp_core::ed25519::Pair::from_seed(&attestation_seed(default)).public()
        );
        assert_eq!(
            get_sr25519_attestation_key(default).public(),
            sp_core::sr25519::Pair::from_seed(&attestation_seed(default)).public()
        );
        assert_eq!(
            get_ecdsa_attestation_key(default).public(),
            sp_core::ecdsa::Pair::from_seed(&attestation_seed(default)).public()
        );
        assert_eq!(
            get_ed25519_delegation_key(default).public(),
            sp_core::ed25519::Pair::from_seed(&delegation_seed(default)).public()
        );
        assert_eq!(
            get_sr25519_delegation_key(default).public(),
            sp_core::sr25519::Pair::from_seed(&delegation_seed(default)).public()
        );
        assert_eq!(
            get_ecdsa_delegation_key(default).public(),
            sp_core::ecdsa::Pair::from_seed(&delegation_seed(default)).public()
        );
    }
    assert_ne!(
        get_ed25519_authentication_key(true).public(),
        get_ed25519_authentication_key(false).public()
    );
}

#[test]
fn did_identifiers() {
    let ed = get_ed25519_authentication_key(true).public();
    assert_eq!(get_did_identifier_from_ed25519_key(ed.0), ed.0);
    let ed_account: [u8; 32] = sp_runtime::MultiSigner::from(ed).into_account().into();
    assert_eq!(get_did_identifier_from_ed25519_key(ed.0), ed_account);

    let sr = get_sr25519_authentication_key(false).public();
    assert_eq!(get_did_identifier_from_sr25519_key(sr.0), sr.0);

    let ecdsa = get_ecdsa_authentication_key(true).public();
    let id = get_did_identifier_from_ecdsa_key(ecdsa.0);
    assert_eq!(id, blake2(&ecdsa.0));
    assert_ne!(id[..], ecdsa.0[..32]);
    let ecdsa_account: [u8; 32] = sp_runtime::MultiSigner::from(ecdsa).into_account().into();
    assert_eq!(id, ecdsa_account);
}

#[test]
fn test_inputs_and_calls() {
    assert_eq!(get_attestation_key_test_input(), vec![0u8; 32]);
    assert_eq!(get_authentication_key_test_input(), vec![1u8; 32]);
    assert_eq!(get_delegation_key_test_input(), vec![2u8; 32]);
    assert_eq!(get_none_key_test_input(), vec![3u8; 32]);
    assert_eq!(get_attestation_key_call(), Call::Ctype(CtypeCall::Add { ctype: vec![0u8; 32] }));
    assert_eq!(get_authentication_key_call(), Call::Ctype(CtypeCall::Add { ctype: vec![1u8; 32] }));
    assert_eq!(get_delegation_key_call(), Call::Ctype(CtypeCall::Add { ctype: vec![2u8; 32] }));
    assert_eq!(get_none_key_call(), Call::Ctype(CtypeCall::Add { ctype: vec![3u8; 32] }));
}

#[test]
fn derive_relationships() {
    assert_eq!(
        get_attestation_key_call().derive_verification_key_relationship(),
        Ok(DidVerificationKeyRelationship::AssertionMethod)
    );
    assert_eq!(
        get_authentication_key_call().derive_verification_key_relationship(),
        Ok(DidVerificationKeyRelationship::Authentication)
    );
    assert_eq!(
        get_delegation_key_call().derive_verification_key_relationship(),
        Ok(DidVerificationKeyRelationship::CapabilityDelegation)
    );
    assert_eq!(
        get_none_key_call().derive_verification_key_relationship(),
        Err(RelationshipDeriveError::NotCallableByDid)
    );
    let short = Call::Ctype(CtypeCall::Add { ctype: vec![0u8; 31] });
    assert_eq!(short.derive_verification_key_relationship(), Err(RelationshipDeriveError::NotCallableByDid));
    let remark = Call::System(SystemCall::Remark { remark: vec![0u8; 32] });
    assert_eq!(remark.derive_verification_key_relationship(), Err(RelationshipDeriveError::NotCallableByDid));
}

#[test]
fn generated_calls_require_their_relationship() {
    let caller = [1u8; 32];
    let submitter = [2u8; 32];
    for rel in [
        DidVerificationKeyRelationship::AssertionMethod,
        DidVerificationKeyRelationship::Authentication,
        DidVerificationKeyRelationship::CapabilityDelegation,
    ] {
        let op = generate_test_did_call(rel, caller, submitter);
        assert_eq!(op.verification_key_relationship, rel);
        assert_eq!(op.operation.did, caller);
        assert_eq!(op.operation.submitter, submitter);
        assert_eq!(op.operation.tx_counter, 1);
        assert_eq!(op.operation.block_number, 0);
        assert_eq!(op.operation.call.derive_verification_key_relationship(), Ok(rel));
    }
    let op = generate_test_did_call(DidVerificationKeyRelationship::CapabilityInvocation, caller, submitter);
    assert_eq!(op.operation.call, get_none_key_call());
    assert_eq!(
        op.operation.call.derive_verification_key_relationship(),
        Err(RelationshipDeriveError::NotCallableByDid)
    );
}
