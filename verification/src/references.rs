//! Constructors for references that point at no valid storage, built by
//! feeding a fixed numeric address through the reinterpreter: the address's
//! bit pattern comes back unchanged and is read off as a reference. Every
//! result is dangling by construction — nothing was ever allocated at
//! address zero or at the maximal address — and reading or writing through
//! one is invalid; the contracts state only what the constructors determine,
//! the address and the claimed duration.

use crate::lifetime_expansion::{Ref, RefMut, Validity};
use crate::transmute::{transmute, Value};
use vstd::bytes::lemma_auto_spec_u64_to_from_le_bytes;
use vstd::prelude::*;

verus! {

/// Reinterprets the word `addr` as a reference: encode the address, move the
/// bit pattern through the reinterpreter, and read the unchanged bits back
/// off as an address claimed for the whole program.
fn address_as_ref(addr: usize) -> (a: usize)
    ensures
        a == addr,
{
    let cast = transmute(Value::of_word(addr));
    proof {
        lemma_auto_spec_u64_to_from_le_bytes();
    }
    cast.to_word()
}

/// The null reference: address zero, claimed for the whole program, for any
/// pointee type. No storage lives at address zero; the reference must never
/// be read through.
pub fn null<T>() -> (r: Ref)
    ensures
        r.addr == 0,
        r.dur == Validity::Whole,
{
    Ref { addr: address_as_ref(0), dur: Validity::Whole }
}

/// The null exclusive reference: as [`null`], but an exclusive handle. It
/// must never be read or written through.
pub fn null_mut<T>() -> (r: RefMut)
    ensures
        r.addr == 0,
        r.dur == Validity::Whole,
{
    RefMut { addr: address_as_ref(0), dur: Validity::Whole }
}

/// A reference to storage that was never allocated. Address zero is a valid
/// address on some targets, so this uses the maximal representable address,
/// which no allocation can span. The result must never be read or written
/// through.
pub fn not_alloc<T>() -> (r: RefMut)
    ensures
        r.addr == usize::MAX,
        r.dur == Validity::Whole,
{
    RefMut { addr: address_as_ref(usize::MAX), dur: Validity::Whole }
}

} // verus!
