//! Byte-addressed physical memory.

use std::collections::HashMap;
use vstd::prelude::*;

verus! {

broadcast use vstd::std_specs::hash::group_hash_axioms;

/// Physical memory: one byte at each 32-bit address, zero until written.
pub struct Memory {
    cells: HashMap<u32, u8>,
}

impl View for Memory {
    type V = Map<u32, u8>;

    /// The byte at every address.
    closed spec fn view(&self) -> Map<u32, u8> {
        Map::new(
            |a: u32| true,
            |a: u32|
                if self.cells@.contains_key(a) {
                    self.cells@[a]
                } else {
                    0u8
                },
        )
    }
}

/// The 16-bit value whose bytes lie at `a` and the address after it, the low
/// byte first. Addresses wrap at the top of the address space.
pub open spec fn half_at(mem: Map<u32, u8>, a: u32) -> u16 {
    (mem[a] as u16) | ((mem[a.wrapping_add(1)] as u16) << 8)
}

/// The 32-bit value whose bytes lie at `a` and the three addresses after it,
/// the low byte first. Addresses wrap at the top of the address space.
pub open spec fn word_at(mem: Map<u32, u8>, a: u32) -> u32 {
    (mem[a] as u32) | ((mem[a.wrapping_add(1)] as u32) << 8) | ((mem[a.wrapping_add(2)] as u32)
        << 16) | ((mem[a.wrapping_add(3)] as u32) << 24)
}

/// Memory `mem` with the four bytes of `value` stored from `a` on, the low
/// byte first.
pub open spec fn with_word(mem: Map<u32, u8>, a: u32, value: u32) -> Map<u32, u8> {
    mem.insert(a, (value & 0xFF) as u8).insert(
        a.wrapping_add(1),
        ((value >> 8) & 0xFF) as u8,
    ).insert(a.wrapping_add(2), ((value >> 16) & 0xFF) as u8).insert(
        a.wrapping_add(3),
        ((value >> 24) & 0xFF) as u8,
    )
}

/// The `len` bytes of memory from `ptr` on.
pub open spec fn bytes_at(mem: Map<u32, u8>, ptr: u32, len: nat) -> Seq<u8> {
    Seq::new(len, |i: int| mem[(ptr + i) as u32])
}

/// Memory with the `len` bytes from `ptr` on set to `value`.
pub open spec fn filled(mem: Map<u32, u8>, ptr: u32, len: nat, value: u8) -> Map<u32, u8> {
    Map::new(
        |a: u32| true,
        |a: u32|
            if ptr <= a < ptr + len {
                value
            } else {
                mem[a]
            },
    )
}

/// Memory with the `len` bytes from `dst` on replaced by the `len` bytes
/// that `mem` holds from `src` on. Source addresses wrap at the top of the
/// address space.
pub open spec fn copied(mem: Map<u32, u8>, dst: u32, src: u32, len: nat) -> Map<u32, u8> {
    Map::new(
        |a: u32| true,
        |a: u32|
            if dst <= a < dst + len {
                mem[((src + (a - dst)) % 0x1_0000_0000) as u32]
            } else {
                mem[a]
            },
    )
}

/// Number of bytes from `start` up to `end`; none if `end` is not above
/// `start`.
pub open spec fn span(start: u32, end: u32) -> nat {
    if end > start {
        (end - start) as nat
    } else {
        0
    }
}

/// Whether a map gives a byte for every address.
pub open spec fn is_total(mem: Map<u32, u8>) -> bool {
    forall|a: u32| mem.contains_key(a)
}

impl Memory {
    /// Memory that holds zero everywhere.
    pub fn new() -> (mem: Memory)
        ensures
            is_total(mem@),
            forall|a: u32| mem@[a] == 0,
    {
        Memory { cells: HashMap::new() }
    }

    /// Every address holds a byte.
    pub proof fn lemma_total(&self)
        ensures
            is_total(self@),
    {
    }

    /// Reads the byte at `a`.
    pub fn read_byte(&self, a: u32) -> (b: u8)
        ensures
            b == self@[a],
    {
        match self.cells.get(&a) {
            Some(b) => *b,
            None => 0,
        }
    }

    /// Stores `b` at `a`.
    pub fn write_byte(&mut self, a: u32, b: u8)
        ensures
            final(self)@ == old(self)@.insert(a, b),
    {
        self.cells.insert(a, b);
        assert(self@ =~= old(self)@.insert(a, b));
    }

    /// Reads the 16-bit value at `a`.
    pub fn read_half(&self, a: u32) -> (h: u16)
        ensures
            h == half_at(self@, a),
    {
        let lo = self.read_byte(a);
        let hi = self.read_byte(a.wrapping_add(1));
        (lo as u16) | ((hi as u16) << 8)
    }

    /// Reads the 32-bit value at `a`.
    pub fn read_word(&self, a: u32) -> (w: u32)
        ensures
            w == word_at(self@, a),
    {
        let b0 = self.read_byte(a);
        let b1 = self.read_byte(a.wrapping_add(1));
        let b2 = self.read_byte(a.wrapping_add(2));
        let b3 = self.read_byte(a.wrapping_add(3));
        (b0 as u32) | ((b1 as u32) << 8) | ((b2 as u32) << 16) | ((b3 as u32) << 24)
    }

    /// Stores the 32-bit value at `a`.
    pub fn write_word(&mut self, a: u32, value: u32)
        ensures
            final(self)@ == with_word(old(self)@, a, value),
    {
        self.write_byte(a, low_byte(value));
        self.write_byte(a.wrapping_add(1), low_byte(value >> 8));
        self.write_byte(a.wrapping_add(2), low_byte(value >> 16));
        self.write_byte(a.wrapping_add(3), low_byte(value >> 24));
    }
}

/// Sets every byte from `start` up to `end` to zero.
pub fn zero_range(mem: &mut Memory, start: u32, end: u32)
    ensures
        final(mem)@ == filled(old(mem)@, start, span(start, end), 0),
{
    proof {
        mem.lemma_total();
    }
    assert(mem@ =~= filled(old(mem)@, start, 0, 0));
    let mut a: u32 = start;
    while a < end
        invariant
            start <= a,
            a <= end || a == start,
            mem@ == filled(old(mem)@, start, span(start, a), 0),
        decreases end - a,
    {
        mem.write_byte(a, 0);
        assert(mem@ =~= filled(old(mem)@, start, span(start, (a + 1) as u32), 0));
        a += 1;
    }
}

/// Copies the bytes that lie from `src` on to the addresses from `start` up
/// to `end`. What is copied is what memory held before the call.
pub fn copy_range(mem: &mut Memory, start: u32, end: u32, src: u32)
    ensures
        final(mem)@ == copied(old(mem)@, start, src, span(start, end)),
{
    proof {
        mem.lemma_total();
    }
    let mut staged: Vec<u8> = Vec::new();
    let mut a: u32 = start;
    while a < end
        invariant
            start <= a,
            a <= end || a == start,
            mem@ == old(mem)@,
            staged@.len() == span(start, a),
            forall|i: int|
                0 <= i < staged@.len() ==> staged@[i] == old(mem)@[((src + i)
                    % 0x1_0000_0000) as u32],
        decreases end - a,
    {
        staged.push(mem.read_byte(src.wrapping_add(a - start)));
        a += 1;
    }
    assert(mem@ =~= copied_prefix(old(mem)@, staged@, start, 0));
    let mut i: usize = 0;
    while i < staged.len()
        invariant
            i <= staged@.len(),
            staged@.len() == span(start, end),
            mem@ == copied_prefix(old(mem)@, staged@, start, i as nat),
        decreases staged@.len() - i,
    {
        mem.write_byte(start + i as u32, staged[i]);
        assert(mem@ =~= copied_prefix(old(mem)@, staged@, start, (i + 1) as nat));
        i += 1;
    }
    assert(mem@ =~= copied(old(mem)@, start, src, span(start, end)));
}

/// Memory with the first `n` staged bytes stored from `dst` on.
pub open spec fn copied_prefix(mem: Map<u32, u8>, staged: Seq<u8>, dst: u32, n: nat) -> Map<
    u32,
    u8,
> {
    Map::new(
        |a: u32| true,
        |a: u32|
            if dst <= a < dst + n {
                staged[a - dst]
            } else {
                mem[a]
            },
    )
}

/// The lowest eight bits of a value.
pub fn low_byte(value: u32) -> (b: u8)
    ensures
        b == (value & 0xFF) as u8,
{
    let low: u32 = value & 0xFF;
    assert(low < 256) by (bit_vector)
        requires
            low == value & 0xFF,
    ;
    low as u8
}

/// A word stored at an address whose four bytes do not wrap is read back
/// unchanged.
pub proof fn lemma_word_round_trip(mem: Map<u32, u8>, a: u32, value: u32)
    requires
        a <= 0xFFFF_FFFC,
    ensures
        word_at(with_word(mem, a, value), a) == value,
{
    let b0 = (value & 0xFF) as u8;
    let b1 = ((value >> 8) & 0xFF) as u8;
    let b2 = ((value >> 16) & 0xFF) as u8;
    let b3 = ((value >> 24) & 0xFF) as u8;
    assert((b0 as u32) | ((b1 as u32) << 8) | ((b2 as u32) << 16) | ((b3 as u32) << 24) == value)
        by (bit_vector)
        requires
            b0 == (value & 0xFF) as u8,
            b1 == ((value >> 8) & 0xFF) as u8,
            b2 == ((value >> 16) & 0xFF) as u8,
            b3 == ((value >> 24) & 0xFF) as u8,
    ;
}

} // verus!
