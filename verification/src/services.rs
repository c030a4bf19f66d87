//! The kernel's protected services: measuring the firmware and sealing a
//! secret.

use crate::hart::{lemma_leave_undoes_enter, Hart};
use crate::memory::{word_at, Memory};
use vstd::prelude::*;

verus! {

/// Label of the landing pad at the entry of the measuring service.
pub const MEASURE_LABEL: u32 = 0;

/// Label of the landing pad at the entry of the sealing service.
pub const SEAL_LABEL: u32 = 7;

/// The lowest word-aligned address at or above `base`.
pub open spec fn first_word(base: u32) -> int {
    ((base + 3) / 4) * 4
}

/// One past the last byte of the range of `size` bytes at `base`, cut off at
/// the top of the address space.
pub open spec fn range_end(base: u32, size: u32) -> int {
    if base + size > 0x1_0000_0000 {
        0x1_0000_0000
    } else {
        base + size
    }
}

/// Number of aligned words that lie wholly in the `size` bytes at `base`.
pub open spec fn words_in(base: u32, size: u32) -> nat {
    if range_end(base, size) - first_word(base) >= 4 {
        ((range_end(base, size) - first_word(base)) / 4) as nat
    } else {
        0
    }
}

/// The exclusive-or of the `n` consecutive words that start at `first`.
pub open spec fn xor_words(mem: Map<u32, u8>, first: int, n: nat) -> u32
    decreases n,
{
    if n == 0 {
        0
    } else {
        xor_words(mem, first, (n - 1) as nat) ^ word_at(mem, (first + 4 * (n - 1)) as u32)
    }
}

/// The measurement of a range of memory: the exclusive-or of every aligned
/// word that lies wholly in it.
pub open spec fn measurement(mem: Map<u32, u8>, base: u32, size: u32) -> u32 {
    xor_words(mem, first_word(base), words_in(base, size))
}

/// A secret sealed under a key.
pub open spec fn sealed(data: u32, key_id: u32) -> u32 {
    data ^ key_id
}

/// Folds every aligned word that lies wholly in the `size` bytes at `base`
/// into one word by exclusive-or: the body of the measuring service.
pub fn xor_region(mem: &Memory, base: u32, size: u32) -> (digest: u32)
    ensures
        digest == measurement(mem@, base, size),
{
    let first: u64 = ((base as u64 + 3) / 4) * 4;
    let end: u64 = if base as u64 + size as u64 > 0x1_0000_0000 {
        0x1_0000_0000
    } else {
        base as u64 + size as u64
    };
    let mut digest: u32 = 0;
    let mut addr: u64 = first;
    let ghost mut k: nat = 0;
    while addr + 4 <= end
        invariant
            first == first_word(base),
            end == range_end(base, size),
            end <= 0x1_0000_0000,
            addr == first + 4 * k,
            k <= words_in(base, size),
            digest == xor_words(mem@, first as int, k),
        decreases end - addr,
    {
        let word = mem.read_word(addr as u32);
        digest = digest ^ word;
        addr = addr + 4;
        proof {
            k = k + 1;
        }
    }
    digest
}

/// Measures the `size` bytes of firmware at `base`. The routine is entered
/// and left through the protected sequences, which leave the hart as it
/// was.
pub fn rot_measure_firmware(hart: &mut Hart, mem: &Memory, base: u32, size: u32) -> (digest: u32)
    ensures
        digest == measurement(mem@, base, size),
        size == 0 ==> digest == 0,
        final(hart)@ == old(hart)@,
{
    let frame = hart.cfi_enter();
    let digest = xor_region(mem, base, size);
    let left = hart.cfi_leave(&frame);
    proof {
        lemma_leave_undoes_enter(old(hart)@);
    }
    assert(left is Ok);
    digest
}

/// Seals `data` under the key `key_id`. The routine is entered and left
/// through the protected sequences, which leave the hart as it was.
pub fn rot_seal_secret(hart: &mut Hart, data: u32, key_id: u32) -> (out: u32)
    ensures
        out == sealed(data, key_id),
        final(hart)@ == old(hart)@,
{
    let frame = hart.cfi_enter();
    let out = data ^ key_id;
    let left = hart.cfi_leave(&frame);
    proof {
        lemma_leave_undoes_enter(old(hart)@);
    }
    assert(left is Ok);
    out
}

/// Sealing twice under the same key gives the secret back.
pub proof fn lemma_seal_involution(data: u32, key_id: u32)
    ensures
        sealed(sealed(data, key_id), key_id) == data,
{
    assert((data ^ key_id) ^ key_id == data) by (bit_vector);
}

/// The measurement of an empty range is zero, wherever the range starts and
/// whatever memory holds.
pub proof fn lemma_measure_empty(mem: Map<u32, u8>, base: u32)
    ensures
        measurement(mem, base, 0) == 0,
{
}

} // verus!
