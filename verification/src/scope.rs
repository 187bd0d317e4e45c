//! The tag that names the kind of computation a signed statement speaks for.

use vstd::prelude::*;

verus! {

/// What kind of computation produced a signed payload.
///
/// The tag is part of the signed bytes, so a signature issued for one kind
/// cannot be presented as evidence for another.
#[derive(Clone, Copy, Debug, PartialEq, Eq, Structural)]
pub enum IntentScope {
    /// The result of processing caller-supplied data.
    ProcessData,
}

impl IntentScope {
    /// The byte that stands for this scope in the canonical encoding.
    pub open spec fn spec_tag(self) -> u8 {
        match self {
            IntentScope::ProcessData => 0u8,
        }
    }

    /// The byte that stands for this scope in the canonical encoding.
    #[verifier::when_used_as_spec(spec_tag)]
    pub fn tag(self) -> (t: u8)
        ensures
            t == self.spec_tag(),
    {
        match self {
            IntentScope::ProcessData => 0u8,
        }
    }

    /// The scope that the byte `tag` stands for, if it stands for one.
    pub fn from_tag(tag: u8) -> (scope: Option<IntentScope>)
        ensures
            match scope {
                Some(s) => s.spec_tag() == tag,
                None => forall|s: IntentScope| #[trigger] s.spec_tag() != tag,
            },
    {
        if tag == 0u8 {
            Some(IntentScope::ProcessData)
        } else {
            None
        }
    }

    /// Different scopes have different tags.
    pub proof fn lemma_tag_injective(a: IntentScope, b: IntentScope)
        requires
            a.spec_tag() == b.spec_tag(),
        ensures
            a == b,
    {
    }
}

} // verus!
