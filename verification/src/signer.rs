//! The signer: the one place where a payload becomes a signed response, and
//! the check that a verifier makes of such a response.

use vstd::prelude::*;
use crate::clock::read_clock;
use crate::codec::{encode, Canonical};
use crate::envelope::ProcessedDataResponse;
use crate::error::EnclaveError;
use crate::identity::{ed25519_accepts, verify_signature, EnclaveIdentity};
use crate::intent::IntentMessage;
use crate::scope::IntentScope;

verus! {

/// The timestamp that stands for a clock reading of `millis` milliseconds
/// since the Unix epoch: its low 64 bits.
pub open spec fn timestamp_of(millis: u128) -> u64 {
    (millis % 0x1_0000_0000_0000_0000) as u64
}

/// The message of the error that reports a clock that could not be read for
/// the reason `cause`.
pub open spec fn clock_failure_message(cause: Seq<char>) -> Seq<char> {
    "Failed to get current timestamp: "@ + cause
}

impl<T: Canonical> ProcessedDataResponse<IntentMessage<T>> {
    /// Whether this is the response in which `identity` states `payload`
    /// under `intent` at `timestamp_ms`: the message holds exactly these
    /// three, the signature is the one that `identity` gives the canonical
    /// encoding of the message, and the public key is that of `identity`.
    pub open spec fn answers(
        &self,
        identity: &EnclaveIdentity,
        payload: T,
        timestamp_ms: u64,
        intent: IntentScope,
    ) -> bool {
        &&& self.response.intent == intent
        &&& self.response.timestamp_ms == timestamp_ms
        &&& self.response.data == payload
        &&& self.signature@ == identity.signature_over(self.response.encoding())
        &&& self.public_key@ == identity.spec_public_key()
    }

    /// Whether a verifier that expects a statement of kind `expected` from the
    /// enclave whose public key is `enclave_key` accepts this response.
    pub open spec fn accepted(&self, expected: IntentScope, enclave_key: Seq<u8>) -> bool {
        &&& self.response.intent == expected
        &&& self.public_key@ == enclave_key
        &&& ed25519_accepts(enclave_key, self.response.encoding(), self.signature@)
    }

    /// Checks this response as a verifier does: the statement is of the kind
    /// `expected`, the response names `enclave_key` as its signer, and the
    /// signature is valid under that key for the canonical encoding of the
    /// statement, computed afresh.
    pub fn verify(&self, expected: IntentScope, enclave_key: &[u8]) -> (ok: bool)
        ensures
            ok == self.accepted(expected, enclave_key@),
    {
        if self.response.intent != expected {
            return false;
        }
        if !same_bytes(self.public_key.as_slice(), enclave_key) {
            return false;
        }
        let signed = encode(&self.response);
        verify_signature(enclave_key, signed.as_slice(), self.signature.as_slice())
    }
}

/// What acceptance demands: a verifier accepts a response only if it states
/// the kind that the verifier expects and names the key that the verifier
/// trusts, whatever signature comes with it.
pub proof fn lemma_accepted_binds_scope_and_key<T: Canonical>(
    signed: ProcessedDataResponse<IntentMessage<T>>,
    expected: IntentScope,
    enclave_key: Seq<u8>,
)
    ensures
        signed.accepted(expected, enclave_key) ==> signed.response.intent == expected
            && signed.public_key@ == enclave_key,
{
}

/// Whether two byte strings are the same.
fn same_bytes(a: &[u8], b: &[u8]) -> (same: bool)
    ensures
        same == (a@ == b@),
{
    if a.len() != b.len() {
        return false;
    }
    let mut i: usize = 0;
    while i < a.len()
        invariant
            i <= a.len(),
            a.len() == b.len(),
            forall|j: int| 0 <= j < i ==> a@[j] == b@[j],
        decreases a.len() - i,
    {
        if a[i] != b[i] {
            return false;
        }
        i += 1;
    }
    assert(a@ =~= b@);
    true
}

/// Signs the statement that `payload` was produced under `intent` at
/// `timestamp_ms`.
///
/// The response holds the statement itself, so re-encoding it gives exactly
/// the bytes that were signed, and a verifier that expects `intent` from this
/// identity accepts it.
pub fn to_signed_response<T: Canonical>(
    identity: &EnclaveIdentity,
    payload: T,
    timestamp_ms: u64,
    intent: IntentScope,
) -> (signed: ProcessedDataResponse<IntentMessage<T>>)
    ensures
        signed.answers(identity, payload, timestamp_ms, intent),
        signed.accepted(intent, identity.spec_public_key()),
{
    let message = IntentMessage::new(payload, timestamp_ms, intent);
    let signing_payload = encode(&message);
    let signature = identity.sign(signing_payload.as_slice());
    let public_key = identity.public_key();
    ProcessedDataResponse { response: message, signature, public_key }
}

/// Signs `payload` under `scope` for a given reading of the clock.
///
/// A reading of `millis` milliseconds gives the response stamped with
/// [`timestamp_of`]`(millis)`. A clock that could not be read gives the error
/// that names the cause, and nothing is signed.
pub fn signed_response_at<T: Canonical>(
    identity: &EnclaveIdentity,
    payload: T,
    scope: IntentScope,
    clock: Result<u128, String>,
) -> (result: Result<ProcessedDataResponse<IntentMessage<T>>, EnclaveError>)
    ensures
        match clock {
            Ok(millis) => {
                &&& result matches Ok(signed)
                &&& signed.answers(identity, payload, timestamp_of(millis), scope)
                &&& signed.accepted(scope, identity.spec_public_key())
            },
            Err(cause) => {
                &&& result matches Err(e)
                &&& e.spec_message() == clock_failure_message(cause@)
            },
        },
{
    match clock {
        Ok(millis) => {
            let timestamp_ms = (millis % 0x1_0000_0000_0000_0000) as u64;
            Ok(to_signed_response(identity, payload, timestamp_ms, scope))
        },
        Err(cause) => {
            let message = String::from_str("Failed to get current timestamp: ").concat(
                cause.as_str(),
            );
            Err(EnclaveError::GenericError(message))
        },
    }
}

/// Signs `payload` under `scope`, stamped with the time at which it is signed.
///
/// The clock is read afresh on every call. If it cannot be read the call
/// fails with an error that names the cause; otherwise the response states
/// exactly `payload` under `scope`, is signed by `identity`, and is accepted
/// by a verifier that expects `scope` from this identity.
pub fn build_signed_response<T: Canonical>(
    identity: &EnclaveIdentity,
    payload: T,
    scope: IntentScope,
) -> (result: Result<ProcessedDataResponse<IntentMessage<T>>, EnclaveError>)
    ensures
        match result {
            Ok(signed) => {
                &&& signed.answers(identity, payload, signed.response.timestamp_ms, scope)
                &&& signed.accepted(scope, identity.spec_public_key())
            },
            Err(e) => exists|cause: Seq<char>| e.spec_message() == clock_failure_message(cause),
        },
{
    let clock = read_clock();
    let ghost cause = if clock is Err { clock->Err_0@ } else { Seq::empty() };
    let result = signed_response_at(identity, payload, scope, clock);
    assert(result matches Err(e) ==> e.spec_message() == clock_failure_message(cause));
    result
}

} // verus!
