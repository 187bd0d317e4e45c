//! The signing identity of one enclave process.

use vstd::prelude::*;
use fastcrypto::ed25519::{Ed25519KeyPair, Ed25519PublicKey, Ed25519Signature};
use fastcrypto::traits::{KeyPair, Signer, ToFromBytes, VerifyingKey};

verus! {

/// Length in bytes of an Ed25519 private key.
pub const SEED_LEN: usize = 32;

/// Length in bytes of an Ed25519 public key.
pub const PUBLIC_KEY_LEN: usize = 32;

/// Length in bytes of an Ed25519 signature.
pub const SIGNATURE_LEN: usize = 64;

/// The bytes of the public key that belongs to the private key `seed`.
pub uninterp spec fn ed25519_public_key(seed: Seq<u8>) -> Seq<u8>;

/// The bytes of the signature that the private key `seed` gives `message`.
pub uninterp spec fn ed25519_signature(seed: Seq<u8>, message: Seq<u8>) -> Seq<u8>;

/// Whether `signature` is accepted as a signature of `message` under
/// `public_key`.
pub uninterp spec fn ed25519_accepts(
    public_key: Seq<u8>,
    message: Seq<u8>,
    signature: Seq<u8>,
) -> bool;

/// Trusted: `Ed25519KeyPair::generate` of fastcrypto, fed by rand's
/// `thread_rng`, and the private key bytes of the pair it returns.
///
/// Nothing is claimed of the bytes: every call may give another key.
#[verifier::external_body]
fn fresh_seed() -> (seed: [u8; 32]) {
    let pair = Ed25519KeyPair::generate(&mut rand::thread_rng());
    let mut seed = [0u8; 32];
    seed.copy_from_slice(pair.as_bytes());
    seed
}

/// Trusted: `KeyPair::public` of fastcrypto on the pair that
/// `Ed25519KeyPair::from_bytes` makes of `seed`.
///
/// Claims that the result is a function of `seed` alone and is 32 bytes long.
#[verifier::external_body]
fn derive_public_key(seed: &[u8; 32]) -> (public_key: Vec<u8>)
    ensures
        public_key@ == ed25519_public_key(seed@),
        public_key@.len() == PUBLIC_KEY_LEN,
{
    let pair = Ed25519KeyPair::from_bytes(seed).unwrap();
    pair.public().as_bytes().to_vec()
}

/// Trusted: `Signer::sign` of fastcrypto on the pair that
/// `Ed25519KeyPair::from_bytes` makes of `seed`.
///
/// Claims that the signature is a function of `seed` and `message` alone
/// (Ed25519 signing draws no randomness), that it is 64 bytes long, and that
/// verification under the pair's own public key accepts it for `message`.
#[verifier::external_body]
fn sign_with_seed(seed: &[u8; 32], message: &[u8]) -> (signature: Vec<u8>)
    ensures
        signature@ == ed25519_signature(seed@, message@),
        signature@.len() == SIGNATURE_LEN,
        ed25519_accepts(ed25519_public_key(seed@), message@, signature@),
{
    let pair = Ed25519KeyPair::from_bytes(seed).unwrap();
    pair.sign(message).as_bytes().to_vec()
}

/// Trusted: `VerifyingKey::verify` of fastcrypto, on the key and signature
/// that `Ed25519PublicKey::from_bytes` and `Ed25519Signature::from_bytes`
/// make of the given bytes; bytes that are not a key or not a signature are
/// not accepted.
///
/// Claims only that the answer is a function of the three byte strings.
#[verifier::external_body]
fn verify_with_key(public_key: &[u8], message: &[u8], signature: &[u8]) -> (accepted: bool)
    ensures
        accepted == ed25519_accepts(public_key@, message@, signature@),
{
    match (Ed25519PublicKey::from_bytes(public_key), Ed25519Signature::from_bytes(signature)) {
        (Ok(key), Ok(sig)) => key.verify(message, &sig).is_ok(),
        _ => false,
    }
}

/// The one signing key of an enclave process.
///
/// The private key is held here and nowhere else: it is never handed out,
/// and the type can be neither printed nor copied.
pub struct EnclaveIdentity {
    seed: [u8; 32],
}

impl EnclaveIdentity {
    /// The private key bytes, for contracts only.
    pub closed spec fn seed(&self) -> Seq<u8> {
        self.seed@
    }

    /// The public key of this identity.
    pub open spec fn spec_public_key(&self) -> Seq<u8> {
        ed25519_public_key(self.seed())
    }

    /// The signature that this identity gives `message`.
    pub open spec fn signature_over(&self, message: Seq<u8>) -> Seq<u8> {
        ed25519_signature(self.seed(), message)
    }

    /// A fresh identity, its key drawn from the operating system's secure
    /// random source.
    pub fn initialize() -> (identity: Self) {
        EnclaveIdentity { seed: fresh_seed() }
    }

    /// The identity whose private key is `seed`.
    pub fn from_seed(seed: [u8; 32]) -> (identity: Self)
        ensures
            identity.seed() == seed@,
    {
        EnclaveIdentity { seed }
    }

    /// The public key, 32 bytes.
    pub fn public_key(&self) -> (public_key: Vec<u8>)
        ensures
            public_key@ == self.spec_public_key(),
            public_key@.len() == PUBLIC_KEY_LEN,
    {
        derive_public_key(&self.seed)
    }

    /// Signs exactly `message`.
    ///
    /// The signature is 64 bytes long, and verification under
    /// [`EnclaveIdentity::public_key`] accepts it for `message`.
    pub fn sign(&self, message: &[u8]) -> (signature: Vec<u8>)
        ensures
            signature@ == self.signature_over(message@),
            signature@.len() == SIGNATURE_LEN,
            ed25519_accepts(self.spec_public_key(), message@, signature@),
    {
        sign_with_seed(&self.seed, message)
    }
}

/// Whether `signature` is a valid signature of `message` under `public_key`.
pub fn verify_signature(public_key: &[u8], message: &[u8], signature: &[u8]) -> (accepted: bool)
    ensures
        accepted == ed25519_accepts(public_key@, message@, signature@),
{
    verify_with_key(public_key, message, signature)
}

} // verus!
