//! A flat region of bytes, addressed from zero, that model references point
//! into. Reading through a reference is a function of the reference's
//! address alone — its claimed duration plays no part — which is what makes
//! the widening-identity law provable.

use crate::lifetime_expansion::{widened, Ref, Validity};
use vstd::prelude::*;

verus! {

/// A sequence of `n` zero bytes.
pub open spec fn zeroes(n: int) -> Seq<u8> {
    Seq::new(n as nat, |i: int| 0u8)
}

/// The bytes that a read of `n` bytes through `r` sees in the memory state
/// `mem`: the `n` bytes starting at the reference's address.
pub open spec fn bytes_through(mem: Seq<u8>, r: Ref, n: int) -> Seq<u8> {
    mem.subrange(r.addr as int, r.addr + n)
}

/// A flat byte region: the storage that model references point into.
pub struct Memory {
    bytes: Vec<u8>,
}

impl View for Memory {
    type V = Seq<u8>;

    closed spec fn view(&self) -> Seq<u8> {
        self.bytes@
    }
}

impl Memory {
    /// A fresh region of `n` bytes, all zero.
    pub fn new_zeroed(n: usize) -> (m: Memory)
        ensures
            m@ == zeroes(n as int),
    {
        let mut bytes: Vec<u8> = Vec::new();
        let mut i: usize = 0;
        while i < n
            invariant
                i <= n,
                bytes@.len() == i,
                forall|k: int| 0 <= k < i ==> bytes@[k] == 0u8,
            decreases n - i,
        {
            bytes.push(0u8);
            i = i + 1;
        }
        proof {
            assert(bytes@ =~= zeroes(n as int));
        }
        Memory { bytes }
    }

    /// The region's size in bytes.
    pub fn len(&self) -> (n: usize)
        ensures
            n == self@.len(),
    {
        self.bytes.len()
    }

    /// The byte at address `i`.
    pub fn read_byte(&self, i: usize) -> (b: u8)
        requires
            i < self@.len(),
        ensures
            b == self@[i as int],
    {
        self.bytes[i]
    }

    /// Replaces the byte at address `i`.
    pub fn write_byte(&mut self, i: usize, b: u8)
        requires
            i < old(self)@.len(),
        ensures
            final(self)@ == old(self)@.update(i as int, b),
    {
        self.bytes[i] = b;
    }

    /// Reads `n` bytes through a model reference. Only the reference's
    /// address matters: the claimed duration is not consulted, so a read
    /// through a dishonestly widened reference sees the same bytes as one
    /// through the original.
    pub fn read(&self, r: &Ref, n: usize) -> (out: Vec<u8>)
        requires
            r.addr + n <= self@.len(),
        ensures
            out@ == bytes_through(self@, *r, n as int),
    {
        let len = self.bytes.len();
        let mut out: Vec<u8> = Vec::new();
        let mut i: usize = 0;
        while i < n
            invariant
                i <= n,
                r.addr + n <= len,
                len == self@.len(),
                out@.len() == i,
                forall|k: int| 0 <= k < i ==> out@[k] == self@[r.addr + k],
            decreases n - i,
        {
            out.push(self.bytes[r.addr + i]);
            i = i + 1;
        }
        proof {
            assert(out@ =~= bytes_through(self@, *r, n as int));
        }
        out
    }
}

/// Widening identity: replacing a reference's claimed duration keeps its
/// address, so in every memory state an in-bounds read through the widened
/// reference sees exactly the bytes a read through the original sees.
pub proof fn lemma_widening_identity(mem: Seq<u8>, r: Ref, target: Validity, n: int)
    requires
        0 <= n,
        r.addr + n <= mem.len(),
    ensures
        widened(r, target).addr == r.addr,
        bytes_through(mem, widened(r, target), n) == bytes_through(mem, r, n),
{
}

} // verus!
