//! The fingerprint of a layout.
//!
//! A widget feeds a [`Hasher`] with a mark of its kind and with every field
//! that its geometry depends on, in a fixed order. Two trees that fed the
//! same writes have the same fingerprint, so a layout computed for one can
//! be reused for the other.
use core::hash::Hasher as Write;
use std::collections::hash_map::DefaultHasher;
use vstd::bytes::{spec_u64_from_le_bytes, spec_u64_to_le_bytes, u64_to_le_bytes, lemma_auto_spec_u64_to_from_le_bytes};
use vstd::prelude::*;
use vstd::std_specs::hash::DefaultHasherAdditionalSpecFns;
use vstd::string::StringSliceAdditionalSpecFns;
use vstd::utf8::{decode_utf8, encode_utf8, encode_utf8_decode_utf8};

verus! {

/// The bytes that a number is fed as.
pub open spec fn word(value: u64) -> Seq<u8> {
    spec_u64_to_le_bytes(value)
}

/// The bytes that a text is fed as.
pub open spec fn text(content: Seq<char>) -> Seq<u8> {
    encode_utf8(content)
}

/// The fingerprint that a sequence of writes gives.
pub open spec fn digest(writes: Seq<Seq<u8>>) -> u64 {
    DefaultHasher::spec_finish(writes)
}

/// Different numbers are fed as different bytes.
pub proof fn lemma_word_injective(a: u64, b: u64)
    ensures
        word(a) == word(b) <==> a == b,
{
    lemma_auto_spec_u64_to_from_le_bytes();
    assert(spec_u64_from_le_bytes(spec_u64_to_le_bytes(a)) == a);
    assert(spec_u64_from_le_bytes(spec_u64_to_le_bytes(b)) == b);
}

/// Different texts are fed as different bytes.
pub proof fn lemma_text_injective(a: Seq<char>, b: Seq<char>)
    ensures
        text(a) == text(b) <==> a == b,
{
    encode_utf8_decode_utf8(a);
    encode_utf8_decode_utf8(b);
    assert(decode_utf8(encode_utf8(a)) == a);
    assert(decode_utf8(encode_utf8(b)) == b);
}

/// The accumulator that layouts are fingerprinted with.
pub struct Hasher {
    state: DefaultHasher,
}

impl View for Hasher {
    type V = Seq<Seq<u8>>;

    closed spec fn view(&self) -> Seq<Seq<u8>> {
        self.state@
    }
}

impl Hasher {
    /// Creates a [`Hasher`] that nothing was fed to.
    pub fn new() -> (hasher: Hasher)
        ensures
            hasher@ == Seq::<Seq<u8>>::empty(),
    {
        Hasher { state: DefaultHasher::new() }
    }

    /// Feeds raw bytes.
    pub fn write(&mut self, bytes: &[u8])
        ensures
            final(self)@ == old(self)@.push(bytes@),
    {
        self.state.write(bytes);
    }

    /// Feeds a number.
    pub fn feed_u64(&mut self, value: u64)
        ensures
            final(self)@ == old(self)@.push(word(value)),
    {
        let bytes = u64_to_le_bytes(value);
        self.state.write(bytes.as_slice());
    }

    /// Feeds a text.
    pub fn feed_str(&mut self, content: &str)
        ensures
            final(self)@ == old(self)@.push(text(content@)),
    {
        self.state.write(content.as_bytes());
    }

    /// The fingerprint of everything fed so far.
    pub fn finish(&self) -> (fingerprint: u64)
        ensures
            fingerprint == digest(self@),
    {
        self.state.finish()
    }
}

} // verus!
