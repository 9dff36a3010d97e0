//! The scope widener: re-claiming a reference's validity duration.
//!
//! A reference's type claims a duration for which the storage behind it is
//! valid. The widener takes a reference claimed for one duration and hands
//! back the same reference claimed for any other — shorter, longer, or
//! unrelated, up to the whole-program duration. Nothing ties the new claim
//! to the storage actually live at the address: a claim that outlasts the
//! storage makes the reference dangling, and the widener neither prevents
//! nor detects that. The model states exactly what the widener does (the
//! address is kept, the claim is replaced) and deliberately nothing about
//! whether the claim is honest.

use vstd::prelude::*;

verus! {

/// A claimed validity duration: bounded by some scope, identified by its
/// depth, or the maximal whole-program duration. A smaller depth is an outer
/// scope, which lives at least as long as every scope nested inside it.
#[derive(Clone, Copy, Debug, PartialEq, Eq, Structural)]
pub enum Validity {
    /// Valid while the scope at this depth is live.
    Scope(u64),
    /// Valid for the whole program.
    Whole,
}

/// `long` lasts at least as long as `short`: the whole-program duration
/// outlasts everything, and an outer (shallower) scope outlasts every scope
/// nested inside it.
pub open spec fn outlives(long: Validity, short: Validity) -> bool {
    match (long, short) {
        (Validity::Whole, _) => true,
        (Validity::Scope(_), Validity::Whole) => false,
        (Validity::Scope(a), Validity::Scope(b)) => a <= b,
    }
}

/// The zero-size, process-wide marker value. It carries no data; it exists
/// so that the duration translator has a witness argument of the maximal
/// duration, which is what lets the widener reach any target duration.
#[derive(Clone, Copy, Debug)]
pub struct ScopeToken;

impl ScopeToken {
    /// The token's own validity duration: always the maximal one.
    pub open spec fn dur(self) -> Validity {
        Validity::Whole
    }
}

/// The one token instance, never mutated.
pub const STATIC_UNIT: ScopeToken = ScopeToken;

/// The model of a shared reference: the address of the storage it points at,
/// and the validity duration its type claims. The claim is just a claim —
/// nothing here guarantees that storage at `addr` is live for `dur`.
#[derive(Clone, Copy, Debug, PartialEq, Eq, Structural)]
pub struct Ref {
    /// The address of the storage the reference points at.
    pub addr: usize,
    /// The duration for which the reference's type claims that storage valid.
    pub dur: Validity,
}

/// The model of an exclusive reference: as [`Ref`], but not `Copy`, since at
/// most one usable handle to the storage may exist at a time.
#[derive(Debug, PartialEq, Eq, Structural)]
pub struct RefMut {
    /// The address of the storage the reference points at.
    pub addr: usize,
    /// The duration for which the reference's type claims that storage valid.
    pub dur: Validity,
}

/// The reference `x` would become if its claim were replaced by `target`:
/// same address, new claimed duration.
pub open spec fn widened(x: Ref, target: Validity) -> Ref {
    Ref { addr: x.addr, dur: target }
}

/// Sound on its own: re-claims `val_b` at a duration that `val_b`'s own
/// claim is known to outlast, so the new claim promises no more than the old
/// one did. The token argument is the witness whose duration anchors the
/// conversion; it carries no data and the result does not depend on it.
pub fn lifetime_translator(_val_a: &ScopeToken, val_b: Ref, target: Validity) -> (r: Ref)
    requires
        outlives(val_b.dur, target),
    ensures
        r == widened(val_b, target),
{
    Ref { addr: val_b.addr, dur: target }
}

/// The same conversion for exclusive references. The input handle is
/// consumed: the output is the only usable handle to the storage.
pub fn lifetime_translator_mut(_val_a: &ScopeToken, val_b: RefMut, target: Validity) -> (r: RefMut)
    requires
        outlives(val_b.dur, target),
    ensures
        r.addr == val_b.addr,
        r.dur == target,
{
    RefMut { addr: val_b.addr, dur: target }
}

/// The widener: re-claims `x` at an arbitrary requested duration. The first
/// step lifts the claim to the token's whole-program duration — the step a
/// sound checker would refuse, since nothing shows the storage lives that
/// long — and the second narrows covariantly to the request, which the
/// translator's own precondition then always admits. The result's claim is
/// never checked against the storage at `x.addr`.
pub fn expand(x: Ref, target: Validity) -> (r: Ref)
    ensures
        r == widened(x, target),
{
    let lifted = Ref { addr: x.addr, dur: Validity::Whole };
    lifetime_translator(&STATIC_UNIT, lifted, target)
}

/// The widener for exclusive references, consuming the input handle.
pub fn expand_mut(x: RefMut, target: Validity) -> (r: RefMut)
    ensures
        r.addr == x.addr,
        r.dur == target,
{
    let lifted = RefMut { addr: x.addr, dur: Validity::Whole };
    lifetime_translator_mut(&STATIC_UNIT, lifted, target)
}

} // verus!
