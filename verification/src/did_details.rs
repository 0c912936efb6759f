//! The keys of a DID, the relationships in which a DID uses its verification
//! keys, and the byte encoding from which key identifiers are computed.

use vstd::prelude::*;

verus! {

/// A public key used to verify signatures made by a DID.
#[derive(Clone, Copy, Debug, PartialEq, Eq)]
pub enum DidVerificationKey {
    /// An Ed25519 public key.
    Ed25519([u8; 32]),
    /// An Sr25519 public key.
    Sr25519([u8; 32]),
    /// A compressed ECDSA (secp256k1) public key.
    Ecdsa([u8; 33]),
}

/// A public key used to encrypt payloads for a DID.
#[derive(Clone, Copy, Debug, PartialEq, Eq)]
pub enum DidEncryptionKey {
    /// An X25519 public key.
    X25519([u8; 32]),
}

/// Any public key of a DID.
#[derive(Clone, Copy, Debug, PartialEq, Eq)]
pub enum DidPublicKey {
    /// A verification key, used to generate and verify signatures.
    PublicVerificationKey(DidVerificationKey),
    /// An encryption key, used to encrypt and decrypt payloads.
    PublicEncryptionKey(DidEncryptionKey),
}

/// The purpose for which a DID uses a verification key.
#[derive(Clone, Copy, Debug, PartialEq, Eq, Structural)]
pub enum DidVerificationKeyRelationship {
    /// Key used to authenticate all the DID operations.
    Authentication,
    /// Key used to write and revoke delegations on chain.
    CapabilityDelegation,
    /// Not used yet.
    CapabilityInvocation,
    /// Key used to write and revoke attestations on chain.
    AssertionMethod,
}

/// Why no verification relationship can be derived for a call.
#[derive(Clone, Copy, Debug, PartialEq, Eq, Structural)]
pub enum RelationshipDeriveError {
    /// The call cannot be dispatched on behalf of a DID.
    NotCallableByDid,
    /// The parameters of the call are not valid.
    InvalidCallParameter,
}

/// A call of the ctype pallet.
#[derive(Clone, Debug, PartialEq, Eq)]
pub enum CtypeCall {
    /// Registers a new ctype, given by its bytes.
    Add { ctype: Vec<u8> },
}

/// A call of the system pallet.
#[derive(Clone, Debug, PartialEq, Eq)]
pub enum SystemCall {
    /// Makes an on-chain remark.
    Remark { remark: Vec<u8> },
}

/// A call of the test runtime, dispatched to one of its pallets.
#[derive(Clone, Debug, PartialEq, Eq)]
pub enum Call {
    /// A call of the ctype pallet.
    Ctype(CtypeCall),
    /// A call of the system pallet.
    System(SystemCall),
}

/// The bytes given to a ctype `add` call, or `None` for any other call.
pub open spec fn ctype_add_input(call: Call) -> Option<Seq<u8>> {
    match call {
        Call::Ctype(CtypeCall::Add { ctype }) => Some(ctype@),
        _ => None,
    }
}

/// An operation that a DID authorizes: `call`, dispatched on behalf of `did`
/// and submitted by `submitter`.
#[derive(Clone, Debug, PartialEq, Eq)]
pub struct DidAuthorizedCallOperation {
    /// The DID on whose behalf the call is dispatched.
    pub did: [u8; 32],
    /// The call to dispatch.
    pub call: Call,
    /// The DID's transaction counter the operation expects.
    pub tx_counter: u64,
    /// The block at which the operation was created.
    pub block_number: u64,
    /// The account that submits the operation and pays its fees.
    pub submitter: [u8; 32],
}

/// An authorized operation, with the relationship of the key that must sign it.
#[derive(Clone, Debug, PartialEq, Eq)]
pub struct DidAuthorizedCallOperationWithVerificationRelationship {
    /// The operation.
    pub operation: DidAuthorizedCallOperation,
    /// The relationship of the key that must sign the operation.
    pub verification_key_relationship: DidVerificationKeyRelationship,
}

/// The byte that tells verification keys (0) from encryption keys (1).
pub open spec fn key_kind_byte(key: DidPublicKey) -> u8 {
    match key {
        DidPublicKey::PublicVerificationKey(_) => 0u8,
        DidPublicKey::PublicEncryptionKey(_) => 1u8,
    }
}

/// The byte that tells the algorithm of a key within its kind: Ed25519 (0),
/// Sr25519 (1) and ECDSA (2) for verification keys, X25519 (0) for encryption keys.
pub open spec fn key_algorithm_byte(key: DidPublicKey) -> u8 {
    match key {
        DidPublicKey::PublicVerificationKey(DidVerificationKey::Ed25519(_)) => 0u8,
        DidPublicKey::PublicVerificationKey(DidVerificationKey::Sr25519(_)) => 1u8,
        DidPublicKey::PublicVerificationKey(DidVerificationKey::Ecdsa(_)) => 2u8,
        DidPublicKey::PublicEncryptionKey(DidEncryptionKey::X25519(_)) => 0u8,
    }
}

/// The raw bytes of a key.
pub open spec fn key_bytes(key: DidPublicKey) -> Seq<u8> {
    match key {
        DidPublicKey::PublicVerificationKey(DidVerificationKey::Ed25519(k)) => k@,
        DidPublicKey::PublicVerificationKey(DidVerificationKey::Sr25519(k)) => k@,
        DidPublicKey::PublicVerificationKey(DidVerificationKey::Ecdsa(k)) => k@,
        DidPublicKey::PublicEncryptionKey(DidEncryptionKey::X25519(k)) => k@,
    }
}

/// The encoding of a public key: its kind byte, its algorithm byte, then its
/// raw bytes.
pub open spec fn did_public_key_encoding(key: DidPublicKey) -> Seq<u8> {
    seq![key_kind_byte(key), key_algorithm_byte(key)] + key_bytes(key)
}

/// The encoding of a key is its two tag bytes, (0, 0) for Ed25519, (0, 1) for
/// Sr25519, (0, 2) for ECDSA and (1, 0) for X25519, followed by the raw key
/// bytes in their order.
pub proof fn lemma_did_public_key_encoding_layout(key: DidPublicKey)
    ensures
        (match key {
            DidPublicKey::PublicVerificationKey(DidVerificationKey::Ed25519(k)) => did_public_key_encoding(key) == seq![0u8, 0u8] + k@,
            DidPublicKey::PublicVerificationKey(DidVerificationKey::Sr25519(k)) => did_public_key_encoding(key) == seq![0u8, 1u8] + k@,
            DidPublicKey::PublicVerificationKey(DidVerificationKey::Ecdsa(k)) => did_public_key_encoding(key) == seq![0u8, 2u8] + k@,
            DidPublicKey::PublicEncryptionKey(DidEncryptionKey::X25519(k)) => did_public_key_encoding(key) == seq![1u8, 0u8] + k@,
        }),
{
}

/// Distinct public keys have distinct encodings: the encoding identifies the
/// kind, the algorithm and the bytes of the key.
pub proof fn lemma_did_public_key_encoding_injective(a: DidPublicKey, b: DidPublicKey)
    requires
        did_public_key_encoding(a) == did_public_key_encoding(b),
    ensures
        a == b,
{
    let e = did_public_key_encoding(a);
    assert(e == did_public_key_encoding(b));
    assert(e[0] == key_kind_byte(a) && e[1] == key_algorithm_byte(a));
    assert(e[0] == key_kind_byte(b) && e[1] == key_algorithm_byte(b));
    assert(key_bytes(a) =~= e.subrange(2, e.len() as int));
    assert(key_bytes(b) =~= e.subrange(2, e.len() as int));
    match (a, b) {
        (
            DidPublicKey::PublicVerificationKey(DidVerificationKey::Ed25519(x)),
            DidPublicKey::PublicVerificationKey(DidVerificationKey::Ed25519(y)),
        ) => {
            assert(x =~= y);
        },
        (
            DidPublicKey::PublicVerificationKey(DidVerificationKey::Sr25519(x)),
            DidPublicKey::PublicVerificationKey(DidVerificationKey::Sr25519(y)),
        ) => {
            assert(x =~= y);
        },
        (
            DidPublicKey::PublicVerificationKey(DidVerificationKey::Ecdsa(x)),
            DidPublicKey::PublicVerificationKey(DidVerificationKey::Ecdsa(y)),
        ) => {
            assert(x =~= y);
        },
        (
            DidPublicKey::PublicEncryptionKey(DidEncryptionKey::X25519(x)),
            DidPublicKey::PublicEncryptionKey(DidEncryptionKey::X25519(y)),
        ) => {
            assert(x =~= y);
        },
        _ => {},
    }
}

/// `prefix` followed by the bytes of `key`.
fn tagged_bytes(prefix: [u8; 2], key: &[u8]) -> (out: Vec<u8>)
    ensures
        out@ == prefix@ + key@,
{
    let mut out: Vec<u8> = Vec::new();
    out.push(prefix[0]);
    out.push(prefix[1]);
    let mut i: usize = 0;
    while i < key.len()
        invariant
            i <= key.len(),
            out@ == prefix@ + key@.take(i as int),
        decreases key.len() - i,
    {
        out.push(key[i]);
        proof {
            assert(key@.take(i + 1) == key@.take(i as int).push(key@[i as int]));
        }
        i = i + 1;
    }
    proof {
        assert(key@.take(key.len() as int) == key@);
    }
    out
}

impl DidPublicKey {
    /// The encoding of the key, as the DID pallet stores it and hashes it.
    pub fn encode(&self) -> (out: Vec<u8>)
        ensures
            out@ == did_public_key_encoding(*self),
            (match *self {
                DidPublicKey::PublicVerificationKey(DidVerificationKey::Ed25519(k)) => out@ == seq![0u8, 0u8] + k@,
                DidPublicKey::PublicVerificationKey(DidVerificationKey::Sr25519(k)) => out@ == seq![0u8, 1u8] + k@,
                DidPublicKey::PublicVerificationKey(DidVerificationKey::Ecdsa(k)) => out@ == seq![0u8, 2u8] + k@,
                DidPublicKey::PublicEncryptionKey(DidEncryptionKey::X25519(k)) => out@ == seq![1u8, 0u8] + k@,
            }),
    {
        match self {
            DidPublicKey::PublicVerificationKey(DidVerificationKey::Ed25519(k)) => {
                tagged_bytes([0u8, 0u8], k)
            },
            DidPublicKey::PublicVerificationKey(DidVerificationKey::Sr25519(k)) => {
                tagged_bytes([0u8, 1u8], k)
            },
            DidPublicKey::PublicVerificationKey(DidVerificationKey::Ecdsa(k)) => {
                tagged_bytes([0u8, 2u8], k)
            },
            DidPublicKey::PublicEncryptionKey(DidEncryptionKey::X25519(k)) => {
                tagged_bytes([1u8, 0u8], k)
            },
        }
    }
}

/// The 256-bit Blake2b digest of `data`, as `sp_io::hashing::blake2_256`
/// computes it.
pub uninterp spec fn blake2_256(data: Seq<u8>) -> Seq<u8>;

/// Hashes `data` with `sp_runtime::traits::BlakeTwo256`, whose source computes
/// `sp_io::hashing::blake2_256(data)`. The contract names the digest and says
/// nothing more of it than its 32-byte length.
#[verifier::external_body]
pub(crate) fn blake_two_256(data: &[u8]) -> (h: [u8; 32])
    ensures
        h@ == blake2_256(data@),
{
    <sp_runtime::traits::BlakeTwo256 as sp_runtime::traits::Hash>::hash(data).0
}

} // verus!
