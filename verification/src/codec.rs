//! Canonical byte encodings: one byte string per value, and nothing else decodes.

use vstd::prelude::*;
use vstd::bytes::{
    lemma_auto_spec_u64_to_from_le_bytes, spec_u64_from_le_bytes, spec_u64_to_le_bytes,
    u64_from_le_bytes, u64_to_le_bytes,
};

verus! {

/// A type whose values have a canonical byte encoding.
///
/// The encoding is a function of the value, so equal values always give equal
/// bytes, and by [`Canonical::lemma_encoding_injective`] different values give
/// different bytes. Signing the encoding therefore signs the value.
pub trait Canonical: Sized {
    /// The canonical bytes of `self`.
    spec fn encoding(&self) -> Seq<u8>;

    /// No two values share an encoding.
    proof fn lemma_encoding_injective(a: Self, b: Self)
        requires
            a.encoding() == b.encoding(),
        ensures
            a == b,
    ;

    /// Appends the canonical bytes of `self` to `out`.
    fn encode_into(&self, out: &mut Vec<u8>)
        ensures
            final(out)@ == old(out)@ + self.encoding(),
    ;

    /// Reads a value back from exactly its canonical bytes.
    ///
    /// Anything that is not the complete encoding of some value is refused,
    /// truncated input and input with bytes left over included.
    fn decode(bytes: &[u8]) -> (r: Option<Self>)
        ensures
            match r {
                Some(v) => v.encoding() == bytes@,
                None => forall|v: Self| #[trigger] v.encoding() != bytes@,
            },
    ;
}

/// The value that `bytes` is the canonical encoding of, if there is one.
pub open spec fn decoding<T: Canonical>(bytes: Seq<u8>) -> Option<T> {
    if exists|v: T| #[trigger] v.encoding() == bytes {
        Some(choose|v: T| #[trigger] v.encoding() == bytes)
    } else {
        None
    }
}

/// The canonical bytes of `value`, in a buffer of their own.
pub fn encode<T: Canonical>(value: &T) -> (bytes: Vec<u8>)
    ensures
        bytes@ == value.encoding(),
{
    let mut bytes: Vec<u8> = Vec::new();
    value.encode_into(&mut bytes);
    assert(bytes@ =~= value.encoding());
    bytes
}

/// Reads a value back from exactly its canonical bytes, or refuses.
pub fn decode<T: Canonical>(bytes: &[u8]) -> (r: Option<T>)
    ensures
        r == decoding::<T>(bytes@),
{
    let r = T::decode(bytes);
    proof {
        if r is Some {
            let w = choose|w: T| #[trigger] w.encoding() == bytes@;
            T::lemma_encoding_injective(r->0, w);
        }
    }
    r
}

/// Equal values have equal canonical bytes, and only equal values do: the
/// encoding is deterministic and never ambiguous.
pub proof fn lemma_encoding_canonical<T: Canonical>(a: T, b: T)
    ensures
        a == b <==> a.encoding() == b.encoding(),
{
    if a.encoding() == b.encoding() {
        T::lemma_encoding_injective(a, b);
    }
}

/// Decoding undoes encoding: the canonical bytes of a value decode to that
/// value.
pub proof fn lemma_decoding_inverts_encoding<T: Canonical>(value: T)
    ensures
        decoding::<T>(value.encoding()) == Some(value),
{
    let w = choose|w: T| #[trigger] w.encoding() == value.encoding();
    T::lemma_encoding_injective(w, value);
}

/// Only the canonical bytes of a value decode to it.
pub proof fn lemma_decoding_is_exact<T: Canonical>(bytes: Seq<u8>, value: T)
    ensures
        decoding::<T>(bytes) == Some(value) <==> bytes == value.encoding(),
{
    if bytes == value.encoding() {
        lemma_decoding_inverts_encoding(value);
    }
}

/// Changing one byte of the canonical bytes of a value changes what they
/// state: the result is another byte string, and it does not decode to the
/// value any more.
pub proof fn lemma_changed_byte_changes_value<T: Canonical>(value: T, at: int, byte: u8)
    requires
        0 <= at < value.encoding().len(),
        byte != value.encoding()[at],
    ensures
        value.encoding().update(at, byte) != value.encoding(),
        decoding::<T>(value.encoding().update(at, byte)) != Some(value),
{
    let changed = value.encoding().update(at, byte);
    assert(changed[at] != value.encoding()[at]);
    lemma_decoding_is_exact(changed, value);
}

/// A `u64` is encoded as its eight bytes, least significant first.
impl Canonical for u64 {
    open spec fn encoding(&self) -> Seq<u8> {
        spec_u64_to_le_bytes(*self)
    }

    proof fn lemma_encoding_injective(a: Self, b: Self) {
        lemma_auto_spec_u64_to_from_le_bytes();
    }

    fn encode_into(&self, out: &mut Vec<u8>) {
        let mut bytes = u64_to_le_bytes(*self);
        out.append(&mut bytes);
    }

    fn decode(bytes: &[u8]) -> (r: Option<Self>) {
        proof {
            lemma_auto_spec_u64_to_from_le_bytes();
        }
        if bytes.len() == 8 {
            Some(u64_from_le_bytes(bytes))
        } else {
            None
        }
    }
}

} // verus!
