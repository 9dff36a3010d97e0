//! A verified model of two unsound primitives and of the demo built on them.
//!
//! The primitives being modeled forge facts that a type checker normally
//! guarantees: a scope widener re-claims a reference's validity duration at
//! whatever duration the caller likes, and a reinterpreter moves a value's
//! bit pattern from one claimed type to another by routing it through a
//! tagged overlay container. Neither forgery can exist inside verified code,
//! so this crate models the forged artifacts as plain data: a reference is
//! an address together with the duration its type claims, a value is its raw
//! bit pattern, and memory is a region of bytes. On that model every
//! operation is total and proved: widening keeps the address, reinterpreting
//! keeps every bit, and the stack-overlay demo's outcome is pinned down as a
//! function of the bytes typed at it.

pub mod buffer_overflow;
pub mod lifetime_expansion;
pub mod memory;
pub mod references;
pub mod transmute;
