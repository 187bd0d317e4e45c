//! A handler that draws a number from a range the caller names and returns
//! it signed.

use vstd::prelude::*;
use vstd::bytes::{
    lemma_auto_spec_u64_to_from_le_bytes, spec_u64_to_le_bytes, u64_from_le_bytes,
};
use vstd::slice::slice_subrange;
use rand::Rng;
use crate::codec::Canonical;
use crate::envelope::{ProcessDataRequest, ProcessedDataResponse};
use crate::error::EnclaveError;
use crate::identity::EnclaveIdentity;
use crate::intent::IntentMessage;
use crate::scope::IntentScope;
use crate::signer::{build_signed_response, clock_failure_message};

verus! {

/// The range to draw from, both ends included.
#[derive(Clone, Copy, Debug, PartialEq, Eq)]
pub struct RandomRequest {
    /// The least number that may be drawn.
    pub min: u64,
    /// The greatest number that may be drawn.
    pub max: u64,
}

/// The number that was drawn, with the range it was drawn from.
#[derive(Clone, Copy, Debug, PartialEq, Eq)]
pub struct RandomResponse {
    /// The number drawn.
    pub random_number: u64,
    /// The least number that could have been drawn.
    pub min: u64,
    /// The greatest number that could have been drawn.
    pub max: u64,
}

/// Number of bytes in an encoded [`RandomResponse`].
pub const RANDOM_RESPONSE_LEN: usize = 24;

/// A response is encoded as its three numbers in the order of declaration,
/// eight bytes each, least significant first.
impl Canonical for RandomResponse {
    open spec fn encoding(&self) -> Seq<u8> {
        spec_u64_to_le_bytes(self.random_number) + spec_u64_to_le_bytes(self.min)
            + spec_u64_to_le_bytes(self.max)
    }

    proof fn lemma_encoding_injective(a: Self, b: Self) {
        lemma_auto_spec_u64_to_from_le_bytes();
        let ea = a.encoding();
        let eb = b.encoding();
        assert(ea.subrange(0, 8) =~= spec_u64_to_le_bytes(a.random_number));
        assert(eb.subrange(0, 8) =~= spec_u64_to_le_bytes(b.random_number));
        assert(ea.subrange(8, 16) =~= spec_u64_to_le_bytes(a.min));
        assert(eb.subrange(8, 16) =~= spec_u64_to_le_bytes(b.min));
        assert(ea.subrange(16, 24) =~= spec_u64_to_le_bytes(a.max));
        assert(eb.subrange(16, 24) =~= spec_u64_to_le_bytes(b.max));
    }

    fn encode_into(&self, out: &mut Vec<u8>) {
        self.random_number.encode_into(out);
        self.min.encode_into(out);
        self.max.encode_into(out);
        assert(final(out)@ =~= old(out)@ + self.encoding());
    }

    fn decode(bytes: &[u8]) -> (r: Option<Self>) {
        proof {
            lemma_auto_spec_u64_to_from_le_bytes();
        }
        if bytes.len() != RANDOM_RESPONSE_LEN {
            return None;
        }
        let random_number = u64_from_le_bytes(slice_subrange(bytes, 0, 8));
        let min = u64_from_le_bytes(slice_subrange(bytes, 8, 16));
        let max = u64_from_le_bytes(slice_subrange(bytes, 16, 24));
        let value = RandomResponse { random_number, min, max };
        assert(value.encoding() =~= bytes@);
        Some(value)
    }
}

/// The message of the error that refuses a range whose lower bound is not
/// below its upper bound.
pub open spec fn invalid_range_message() -> Seq<char> {
    "min must be less than max"@
}

impl RandomRequest {
    /// Whether a number can be drawn for this request: the lower bound lies
    /// strictly below the upper bound.
    pub open spec fn valid(&self) -> bool {
        self.min < self.max
    }

    /// Accepts the request if its lower bound lies strictly below its upper
    /// bound, and refuses it otherwise.
    pub fn validate(&self) -> (result: Result<(), EnclaveError>)
        ensures
            self.valid() ==> result is Ok,
            !self.valid() ==> (result matches Err(e) && e.spec_message()
                == invalid_range_message()),
    {
        if self.min >= self.max {
            Err(EnclaveError::GenericError(String::from_str("min must be less than max")))
        } else {
            Ok(())
        }
    }
}

/// Trusted: `Rng::gen_range` of rand on the inclusive range `min..=max`, with
/// the generator that `thread_rng` returns.
///
/// Claims that the number lies in the range, both ends included. rand panics
/// on an empty range, which `requires` leaves out. Which number comes is left
/// open: two calls may differ.
#[verifier::external_body]
fn draw_in_range(min: u64, max: u64) -> (drawn: u64)
    requires
        min <= max,
    ensures
        min <= drawn <= max,
{
    rand::thread_rng().gen_range(min..=max)
}

/// Answers a request for a random number.
///
/// A request whose lower bound is not strictly below its upper bound is
/// refused before anything is drawn or signed. Otherwise a number is drawn
/// from the range, both ends included, by a cryptographically secure
/// generator, and handed to the signer together with the range. The call then
/// fails only if the clock cannot be read.
pub fn process_data(
    identity: &EnclaveIdentity,
    request: ProcessDataRequest<RandomRequest>,
) -> (result: Result<ProcessedDataResponse<IntentMessage<RandomResponse>>, EnclaveError>)
    ensures
        !request.payload.valid() ==> (result matches Err(e) && e.spec_message()
            == invalid_range_message()),
        match result {
            Ok(signed) => {
                let answer = signed.response.data;
                &&& request.payload.valid()
                &&& answer.min == request.payload.min
                &&& answer.max == request.payload.max
                &&& answer.min <= answer.random_number <= answer.max
                &&& signed.answers(
                    identity,
                    answer,
                    signed.response.timestamp_ms,
                    IntentScope::ProcessData,
                )
                &&& signed.accepted(IntentScope::ProcessData, identity.spec_public_key())
            },
            Err(e) => request.payload.valid() ==> exists|cause: Seq<char>|
                e.spec_message() == clock_failure_message(cause),
        },
{
    let RandomRequest { min, max } = request.payload;
    match request.payload.validate() {
        Err(e) => {
            return Err(e);
        },
        Ok(()) => {},
    }
    let random_number = draw_in_range(min, max);
    build_signed_response(
        identity,
        RandomResponse { random_number, min, max },
        IntentScope::ProcessData,
    )
}

} // verus!
