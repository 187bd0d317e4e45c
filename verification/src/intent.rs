//! The intent message: the exact statement that an enclave signs.

use vstd::prelude::*;
use vstd::bytes::{
    lemma_auto_spec_u64_to_from_le_bytes, spec_u64_to_le_bytes, u64_from_le_bytes,
    u64_to_le_bytes,
};
use vstd::slice::slice_subrange;
use crate::codec::{decoding, lemma_decoding_inverts_encoding, Canonical};
use crate::scope::IntentScope;

verus! {

/// A payload together with the kind of computation that produced it and the
/// time at which it was signed.
///
/// Its canonical encoding is what gets signed: one byte for the scope, the
/// timestamp as eight bytes, least significant first, then the canonical
/// encoding of the payload.
#[derive(Clone, Debug, PartialEq, Eq)]
pub struct IntentMessage<T> {
    /// The kind of computation that produced `data`.
    pub intent: IntentScope,
    /// Milliseconds since the Unix epoch at the moment of signing.
    pub timestamp_ms: u64,
    /// The payload.
    pub data: T,
}

impl<T> IntentMessage<T> {
    /// Wraps `data` with its signing time and scope.
    pub fn new(data: T, timestamp_ms: u64, intent: IntentScope) -> (msg: Self)
        ensures
            msg.intent == intent,
            msg.timestamp_ms == timestamp_ms,
            msg.data == data,
    {
        IntentMessage { intent, timestamp_ms, data }
    }
}

/// Number of bytes that precede the payload in an encoded intent message.
pub const HEADER_LEN: usize = 9;

impl<T: Canonical> IntentMessage<T> {
    /// Where each field lies in the canonical encoding.
    pub proof fn lemma_encoding_layout(self)
        ensures
            self.encoding().len() == HEADER_LEN + self.data.encoding().len(),
            self.encoding()[0] == self.intent.spec_tag(),
            self.encoding().subrange(1, HEADER_LEN as int) == spec_u64_to_le_bytes(
                self.timestamp_ms,
            ),
            self.encoding().subrange(HEADER_LEN as int, self.encoding().len() as int)
                == self.data.encoding(),
    {
        lemma_auto_spec_u64_to_from_le_bytes();
        let e = self.encoding();
        assert(e.subrange(1, HEADER_LEN as int) =~= spec_u64_to_le_bytes(self.timestamp_ms));
        assert(e.subrange(HEADER_LEN as int, e.len() as int) =~= self.data.encoding());
    }

    /// Decoding the canonical bytes of a message gives the message back.
    pub proof fn lemma_round_trip(self)
        ensures
            decoding::<Self>(self.encoding()) == Some(self),
    {
        lemma_decoding_inverts_encoding(self);
    }

    /// The scope is bound into the signed bytes: two messages of different
    /// scope never encode to the same bytes, whatever their timestamps and
    /// payloads, and bytes that begin with another tag than that of
    /// `self.intent` are not the encoding of `self`.
    pub proof fn lemma_scope_bound(self, other: Self, bytes: Seq<u8>)
        ensures
            self.intent != other.intent ==> self.encoding() != other.encoding(),
            bytes.len() > 0 && bytes[0] != self.intent.spec_tag() ==> bytes != self.encoding(),
    {
        self.lemma_encoding_layout();
        other.lemma_encoding_layout();
        IntentScope::lemma_tag_injective(self.intent, other.intent);
    }
}

impl<T: Canonical> Canonical for IntentMessage<T> {
    open spec fn encoding(&self) -> Seq<u8> {
        seq![self.intent.spec_tag()] + spec_u64_to_le_bytes(self.timestamp_ms)
            + self.data.encoding()
    }

    proof fn lemma_encoding_injective(a: Self, b: Self) {
        a.lemma_encoding_layout();
        b.lemma_encoding_layout();
        lemma_auto_spec_u64_to_from_le_bytes();
        IntentScope::lemma_tag_injective(a.intent, b.intent);
        T::lemma_encoding_injective(a.data, b.data);
    }

    fn encode_into(&self, out: &mut Vec<u8>) {
        out.push(self.intent.tag());
        let mut stamp = u64_to_le_bytes(self.timestamp_ms);
        out.append(&mut stamp);
        self.data.encode_into(out);
        assert(final(out)@ =~= old(out)@ + self.encoding());
    }

    fn decode(bytes: &[u8]) -> (r: Option<Self>) {
        proof {
            lemma_auto_spec_u64_to_from_le_bytes();
            assert forall|v: Self| true implies #[trigger] v.encoding().len() >= HEADER_LEN by {
                v.lemma_encoding_layout();
            }
        }
        if bytes.len() < HEADER_LEN {
            return None;
        }
        let intent = match IntentScope::from_tag(bytes[0]) {
            Some(intent) => intent,
            None => {
                assert forall|v: Self| #[trigger] v.encoding() != bytes@ by {
                    v.lemma_encoding_layout();
                }
                return None;
            },
        };
        let timestamp_ms = u64_from_le_bytes(slice_subrange(bytes, 1, HEADER_LEN));
        match T::decode(slice_subrange(bytes, HEADER_LEN, bytes.len())) {
            Some(data) => {
                let msg = IntentMessage { intent, timestamp_ms, data };
                assert(msg.encoding() =~= bytes@);
                Some(msg)
            },
            None => {
                assert forall|v: Self| #[trigger] v.encoding() != bytes@ by {
                    v.lemma_encoding_layout();
                }
                None
            },
        }
    }
}

} // verus!
