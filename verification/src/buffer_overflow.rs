//! The stack-overlay demo: a password-guessing game whose "name" buffer is a
//! forged handle with a far larger claimed capacity than the storage behind
//! it, so that a long enough name runs over the record's boundary into the
//! adjacent password region.
//!
//! The terminal exchange lives outside this crate; what stands here is the
//! whole of the demo's logic, as a total function from the bytes of the line
//! that was read to the demo's outcome. The contract pins the outcome down
//! exactly: which eight bytes the password region holds after the oversized
//! write, and which of the three fixed replies that earns.

use crate::lifetime_expansion::{Ref, Validity};
use crate::memory::{zeroes, Memory};
use crate::transmute::{transmute, Value, WORD_BYTES};
use vstd::bytes::{lemma_auto_spec_u64_to_from_le_bytes, u64_from_le_bytes};
use vstd::prelude::*;
use vstd::slice::slice_subrange;

verus! {

/// The size of the record's name buffer in bytes.
pub const NAME_LEN: usize = 16;

/// The size of the record's password region in bytes.
pub const PASSWORD_LEN: usize = 16;

/// The size of the whole authentication record: the name buffer and the
/// password region, adjacent in one aggregate.
pub const RECORD_LEN: usize = NAME_LEN + PASSWORD_LEN;

/// The capacity the forged name handle claims — far more than the sixteen
/// bytes really behind it.
pub const FAKE_CAPACITY: usize = 1024;

/// The number of password bytes the demo inspects.
pub const SECRET_LEN: usize = 8;

/// The eight bytes of the fixed secret, `letmein!`.
pub open spec fn secret() -> Seq<u8> {
    seq![0x6cu8, 0x65u8, 0x74u8, 0x6du8, 0x65u8, 0x69u8, 0x6eu8, 0x21u8]
}

/// The secret as a byte vector, for byte-by-byte comparison.
pub fn secret_bytes() -> (s: Vec<u8>)
    ensures
        s@ == secret(),
{
    let mut s: Vec<u8> = Vec::new();
    s.push(0x6cu8);
    s.push(0x65u8);
    s.push(0x74u8);
    s.push(0x6du8);
    s.push(0x65u8);
    s.push(0x69u8);
    s.push(0x6eu8);
    s.push(0x21u8);
    proof {
        assert(s@ =~= secret());
    }
    s
}

/// The inspected password bytes after `input` has been written through the
/// oversized name handle: byte `j` of the region sits at address
/// `NAME_LEN + j` of the record, so it is overwritten exactly when the input
/// is long enough to reach it, and otherwise still zero.
pub open spec fn password_region(input: Seq<u8>) -> Seq<u8> {
    Seq::new(
        SECRET_LEN as nat,
        |j: int| if NAME_LEN + j < input.len() {
            input[NAME_LEN + j]
        } else {
            0u8
        },
    )
}

/// What one run of the demo concludes from the password region's bytes.
#[derive(Debug, PartialEq, Eq)]
pub enum Outcome {
    /// The region was never reached: every inspected byte is still zero.
    Untouched,
    /// The region holds these eight bytes, and they are not the secret.
    WrongPassword(Vec<u8>),
    /// The region holds exactly the secret.
    CorrectPassword,
}

/// The forged text-buffer handle: a writable view of `cap` bytes starting at
/// `addr`, of which `len` are in use. Nothing ties the claimed capacity to
/// any real storage — the demo forges one whose claim far exceeds the
/// sixteen bytes actually behind it.
#[derive(Clone, Copy, Debug, PartialEq, Eq, Structural)]
pub struct FakeBuffer {
    /// The address the buffer starts at.
    pub addr: usize,
    /// The capacity the handle claims to have.
    pub cap: usize,
    /// How many bytes of the buffer are in use.
    pub len: usize,
}

/// Builds the forged handle by reinterpreting the raw (address, capacity,
/// length) triple: the three words' bit pattern moves through the
/// reinterpreter unchanged and is read back off as a buffer handle whose
/// capacity nothing ever checked.
pub fn construct_fake_string(addr: usize, cap: usize, len: usize) -> (b: FakeBuffer)
    ensures
        b.addr == addr,
        b.cap == cap,
        b.len == len,
{
    proof {
        lemma_auto_spec_u64_to_from_le_bytes();
    }
    let mut triple = Value::of_word(addr);
    let mut cap_word = Value::of_word(cap);
    let mut len_word = Value::of_word(len);
    let ghost addr_bits = triple@;
    let ghost cap_bits = cap_word@;
    let ghost len_bits = len_word@;
    triple.bytes.append(&mut cap_word.bytes);
    triple.bytes.append(&mut len_word.bytes);
    assert(triple@ == addr_bits + cap_bits + len_bits);

    let cast = transmute(triple);

    proof {
        assert(cast@.subrange(0, WORD_BYTES as int) =~= addr_bits);
        assert(cast@.subrange(WORD_BYTES as int, 2 * WORD_BYTES as int) =~= cap_bits);
        assert(cast@.subrange(2 * WORD_BYTES as int, 3 * WORD_BYTES as int) =~= len_bits);
    }
    let addr_out = u64_from_le_bytes(slice_subrange(cast.bytes.as_slice(), 0, 8));
    let cap_out = u64_from_le_bytes(slice_subrange(cast.bytes.as_slice(), 8, 16));
    let len_out = u64_from_le_bytes(slice_subrange(cast.bytes.as_slice(), 16, 24));
    FakeBuffer { addr: addr_out as usize, cap: cap_out as usize, len: len_out as usize }
}

/// Writes `data` through a forged buffer handle. The handle's claimed
/// capacity is all the write trusts; the record's true size is never
/// consulted. The model's region covers only the record, so a byte whose
/// address falls past the region's end leaves the model — on the real stack
/// it would land in whatever happens to lie beyond.
pub fn write_through(mem: &mut Memory, buf: &FakeBuffer, data: &Vec<u8>)
    requires
        buf.addr + data@.len() <= usize::MAX,
    ensures
        final(mem)@.len() == old(mem)@.len(),
        forall|k: int|
            0 <= k < old(mem)@.len() ==> final(mem)@[k] == (if buf.addr <= k < buf.addr
                + data@.len() {
                data@[k - buf.addr]
            } else {
                old(mem)@[k]
            }),
{
    let mut i: usize = 0;
    while i < data.len()
        invariant
            i <= data@.len(),
            buf.addr + data@.len() <= usize::MAX,
            mem@.len() == old(mem)@.len(),
            forall|k: int|
                0 <= k < old(mem)@.len() ==> mem@[k] == (if buf.addr <= k < buf.addr + i {
                    data@[k - buf.addr]
                } else {
                    old(mem)@[k]
                }),
        decreases data@.len() - i,
    {
        let a = buf.addr + i;
        if a < mem.len() {
            mem.write_byte(a, data[i]);
        }
        i = i + 1;
    }
}

/// One round of the demo, the input line already read: zero a fresh
/// authentication record, forge a name handle over its start whose claimed
/// capacity far exceeds the record, write the input through the forgery —
/// so that bytes past the name buffer's true end run into the password
/// region — and report what the inspected password bytes then hold.
pub fn buffer_overflow(input: &Vec<u8>) -> (o: Outcome)
    ensures
        (o is Untouched <==> password_region(input@) == zeroes(SECRET_LEN as int)),
        (o is CorrectPassword <==> password_region(input@) == secret()),
        (o matches Outcome::WrongPassword(found) ==> found@ == password_region(input@)),
{
    // The authentication record: the name buffer at the start, the password
    // region right after it, all zeroed.
    let mut auth = Memory::new_zeroed(RECORD_LEN);

    // The forged name handle over the record's start. Its claimed capacity
    // is a lie the write below will trust.
    let name = construct_fake_string(0, FAKE_CAPACITY, 0);

    // The oversized write: the input lands at the record's start and runs as
    // far as it reaches, across the name buffer's true end. The input's
    // length fits one word, so the write's address arithmetic stays in range.
    let input_len = input.len();
    assert(name.addr + input@.len() == input_len);
    write_through(&mut auth, &name, input);

    // Read the inspected password bytes through a reference into the record.
    let password = Ref { addr: NAME_LEN, dur: Validity::Scope(0) };
    let found = auth.read(&password, SECRET_LEN);
    proof {
        assert(found@ =~= password_region(input@));
        assert(zeroes(SECRET_LEN as int)[0] == 0u8);
        assert(secret()[0] == 0x6cu8);
    }

    if all_zero(&found) {
        Outcome::Untouched
    } else {
        let expected = secret_bytes();
        if bytes_equal(&found, &expected) {
            Outcome::CorrectPassword
        } else {
            Outcome::WrongPassword(found)
        }
    }
}

/// Every byte of `v` is zero.
fn all_zero(v: &Vec<u8>) -> (b: bool)
    ensures
        b <==> v@ == zeroes(v@.len() as int),
{
    let mut i: usize = 0;
    while i < v.len()
        invariant
            i <= v@.len(),
            forall|k: int| 0 <= k < i ==> v@[k] == 0u8,
        decreases v@.len() - i,
    {
        if v[i] != 0u8 {
            proof {
                assert(v@[i as int] != zeroes(v@.len() as int)[i as int]);
            }
            return false;
        }
        i = i + 1;
    }
    proof {
        assert(v@ =~= zeroes(v@.len() as int));
    }
    true
}

/// The two byte vectors hold the same bytes.
fn bytes_equal(a: &Vec<u8>, b: &Vec<u8>) -> (r: bool)
    ensures
        r <==> a@ == b@,
{
    if a.len() != b.len() {
        return false;
    }
    let mut i: usize = 0;
    while i < a.len()
        invariant
            i <= a@.len(),
            a@.len() == b@.len(),
            forall|k: int| 0 <= k < i ==> a@[k] == b@[k],
        decreases a@.len() - i,
    {
        if a[i] != b[i] {
            return false;
        }
        i = i + 1;
    }
    proof {
        assert(a@ =~= b@);
    }
    true
}

} // verus!

