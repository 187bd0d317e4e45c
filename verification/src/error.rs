//! Why the enclave refused to answer.

use vstd::prelude::*;

verus! {

/// A failure reported to the caller in place of a signed response.
///
/// Both rejected input and a degraded enclave are reported with this type;
/// the message names the cause.
#[derive(Clone, Debug, PartialEq, Eq)]
pub enum EnclaveError {
    /// A failure described by its message.
    GenericError(String),
}

impl EnclaveError {
    /// The characters of the message that describes the failure.
    pub open spec fn spec_message(&self) -> Seq<char> {
        match self {
            EnclaveError::GenericError(message) => message@,
        }
    }

    /// The message that describes the failure.
    pub fn message(&self) -> (text: String)
        ensures
            text@ == self.spec_message(),
    {
        match self {
            EnclaveError::GenericError(message) => message.clone(),
        }
    }
}

} // verus!
