//! The type reinterpreter: moving a bit pattern from one claimed type to
//! another without converting it.
//!
//! A value here is its raw bit pattern — the bytes of its representation —
//! and reinterpretation routes that pattern through a tagged overlay
//! container. The container has two variants whose optional, independently
//! owned payloads share a single slot. The trick: take a handle to the slot
//! while the container is tagged as one variant with the payload absent,
//! widen the handle's claimed duration away from the container's own scope,
//! rewrite the container as the other variant with the input as its payload,
//! and take the payload back through the stale handle. The slot is one
//! storage location, so the bits that come back under the old variant's
//! claim are exactly the bits just written as the new variant. The contract
//! pins the whole operation down: the output bit pattern equals the input
//! bit pattern, whatever the two claimed types are.

use crate::lifetime_expansion::{expand_mut, RefMut, Validity};
use vstd::bytes::{
    lemma_auto_spec_u64_to_from_le_bytes, spec_u64_from_le_bytes, spec_u64_to_le_bytes,
    u64_from_le_bytes, u64_to_le_bytes,
};
use vstd::prelude::*;

verus! {

/// A value reduced to its raw bit pattern: the bytes of its representation,
/// with no record of the type they were written as.
pub struct Value {
    /// The bytes of the value's representation.
    pub bytes: Vec<u8>,
}

impl View for Value {
    type V = Seq<u8>;

    open spec fn view(&self) -> Seq<u8> {
        self.bytes@
    }
}

/// The number of bytes in one machine word of the model.
pub const WORD_BYTES: usize = 8;

impl Value {
    /// A value holding the little-endian bit pattern of one machine word.
    pub fn of_word(x: usize) -> (v: Value)
        ensures
            v@ == spec_u64_to_le_bytes(x as u64),
            v@.len() == WORD_BYTES,
    {
        proof {
            lemma_auto_spec_u64_to_from_le_bytes();
        }
        Value { bytes: u64_to_le_bytes(x as u64) }
    }

    /// Reads a word-sized bit pattern back as the machine word it encodes.
    pub fn to_word(&self) -> (x: usize)
        requires
            self@.len() == WORD_BYTES,
            spec_u64_from_le_bytes(self@) <= usize::MAX,
        ensures
            x as u64 == spec_u64_from_le_bytes(self@),
    {
        let w = u64_from_le_bytes(self.bytes.as_slice());
        w as usize
    }
}

/// What reinterpretation does to a bit pattern: nothing at all. The bits are
/// kept; only the type they are claimed to be changes.
pub open spec fn transmuted(bits: Seq<u8>) -> Seq<u8> {
    bits
}

/// The discriminant of the overlay container.
#[derive(Clone, Copy, Debug, PartialEq, Eq, Structural)]
pub enum OverlayTag {
    /// The container currently holds variant A's payload.
    VariantA,
    /// The container currently holds variant B's payload.
    VariantB,
}

/// The payload slot's offset within the container's layout: one word past
/// the discriminant, the same place for both variants.
pub const PAYLOAD_OFFSET: usize = 8;

/// The tagged overlay container the reinterpreter routes a value through: a
/// two-variant tagged union whose layout is a discriminant word followed by
/// a single payload slot that both variants share. Each variant's payload is
/// an optionally present, independently owned bit pattern; a sound reading
/// discipline would consult the discriminant before touching the slot, and
/// the reinterpreter's whole trick is a read that does not.
pub struct OverlayContainer {
    /// Which variant the container is currently tagged as.
    pub tag: OverlayTag,
    /// The shared payload slot, meaningful as the tagged variant's type only.
    pub slot: Option<Value>,
}

impl OverlayContainer {
    /// A fresh container tagged as variant B with the payload absent.
    pub fn new_b_absent() -> (c: OverlayContainer)
        ensures
            c.tag is VariantB,
            c.slot is None,
    {
        OverlayContainer { tag: OverlayTag::VariantB, slot: None }
    }

    /// Takes whatever the shared slot holds, without consulting the
    /// discriminant: the slot is a single storage location, so the payload
    /// comes back under whichever variant's type the holder of `handle`
    /// claims for it. The handle must refer to the container's payload word;
    /// its claimed duration is not examined — a stale claim reads the slot
    /// just as well.
    pub fn take_slot(&mut self, handle: &RefMut) -> (out: Option<Value>)
        requires
            handle.addr == PAYLOAD_OFFSET,
        ensures
            out == old(self).slot,
            final(self).slot is None,
            final(self).tag == old(self).tag,
    {
        self.slot.take()
    }
}

/// Interprets a value claimed as one type as a value of another, by moving
/// its bit pattern through a fresh overlay container. The operation is total
/// and the contract exact: the output bits equal the input bits. Whether
/// those bits are meaningful under the destination type is the caller's
/// claim to make — nothing here checks size or representation compatibility.
pub fn transmute(obj: Value) -> (out: Value)
    ensures
        out@ == transmuted(obj@),
{
    let mut dummy = OverlayContainer::new_b_absent();
    transmute_inner(&mut dummy, obj)
}

/// The reinterpretation itself, against a container tagged as variant B with
/// the payload absent.
fn transmute_inner(dummy: &mut OverlayContainer, obj: Value) -> (out: Value)
    requires
        old(dummy).tag is VariantB,
        old(dummy).slot is None,
    ensures
        out@ == transmuted(obj@),
{
    // A handle to the absent variant-B payload slot, claimed only for the
    // container's own innermost scope...
    let ref_to_b = RefMut { addr: PAYLOAD_OFFSET, dur: Validity::Scope(0) };
    // ...then re-claimed at the whole-program duration, so the claim no
    // longer ties the handle to the container's scope and it survives the
    // rewrite below untouched.
    let ref_to_b = expand_mut(ref_to_b, Validity::Whole);
    // Rewrite the container through its original binding: it is now variant
    // A, with the input's bit pattern present as its owned payload.
    *dummy = OverlayContainer { tag: OverlayTag::VariantA, slot: Some(obj) };
    // Take the payload back through the stale handle, which still claims a
    // variant-B payload. The slot is shared between the variants, so the
    // bits that come back are exactly the bits just written as variant A.
    let out = dummy.take_slot(&ref_to_b);
    out.unwrap()
}

/// Bit-cast equivalence: reinterpretation is a true bit cast. Whatever bit
/// pattern goes in comes out identical, bit for bit, exactly as a direct
/// bit-level copy of the representation would produce.
pub proof fn lemma_reinterpret_is_bitcast(bits: Seq<u8>)
    ensures
        transmuted(bits) == bits,
{
}

/// Round trip: reinterpreting a bit pattern from one claimed type to a
/// second and then back again yields the original bit pattern.
pub proof fn lemma_reinterpret_round_trip(bits: Seq<u8>)
    ensures
        transmuted(transmuted(bits)) == bits,
{
}

} // verus!
