//! The generic wrappers that carry a request into the enclave and a signed
//! result out of it.

use vstd::prelude::*;

verus! {

/// What an untrusted caller sends: a payload and nothing else.
///
/// Nothing about `payload` has been checked; whoever handles it validates it.
#[derive(Clone, Debug, PartialEq, Eq)]
pub struct ProcessDataRequest<T> {
    /// The caller's input.
    pub payload: T,
}

/// What the enclave releases: the signed statement, the signature over its
/// canonical encoding, and the public key of the enclave that signed it.
///
/// A verifier needs nothing else to recompute the signed bytes and check the
/// signature.
#[derive(Clone, Debug, PartialEq, Eq)]
pub struct ProcessedDataResponse<U> {
    /// The statement that was signed.
    pub response: U,
    /// The signature over the canonical encoding of `response`.
    pub signature: Vec<u8>,
    /// The public key of the signing enclave.
    pub public_key: Vec<u8>,
}

} // verus!
