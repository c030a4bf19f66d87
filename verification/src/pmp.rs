//! Physical memory protection: register encodings and the access check.

use crate::layout::{
    in_region, M_RAM_BASE, M_RAM_SIZE, M_SHADOW_BASE, M_SHADOW_SIZE, ROM_BASE, ROM_SIZE,
    UART_BASE, UART_SIZE, U_CODE_BASE, U_CODE_SIZE, U_RAM_BASE, U_RAM_SIZE, U_RODATA_BASE,
    U_RODATA_SIZE, U_SHADOW_BASE, U_SHADOW_SIZE,
};
use crate::uart::{uart_puts, Uart};
use vstd::prelude::*;
use vstd::string::StringSliceAdditionalSpecFns;

verus! {

/// Read permission bit of a configuration byte.
pub const PMP_R: u8 = 0x01;

/// Write permission bit of a configuration byte.
pub const PMP_W: u8 = 0x02;

/// Execute permission bit of a configuration byte.
pub const PMP_X: u8 = 0x04;

/// Address-matching field of a configuration byte: top of range.
pub const PMP_TOR: u8 = 0x08;

/// Address-matching field of a configuration byte: one aligned word.
pub const PMP_NA4: u8 = 0x10;

/// Address-matching field of a configuration byte: a naturally aligned
/// power-of-two region.
pub const PMP_NAPOT: u8 = 0x18;

/// Lock bit: the entry binds machine mode too.
pub const PMP_L: u8 = 0x80;

/// A privilege level of the hart.
#[derive(Clone, Copy, Debug, PartialEq, Eq, Structural)]
pub enum Privilege {
    User,
    Machine,
}

/// A kind of memory access.
#[derive(Clone, Copy, Debug, PartialEq, Eq, Structural)]
pub enum Access {
    Read,
    Write,
    Execute,
}

/// The protection registers: sixteen address registers, and four
/// configuration registers that hold one configuration byte per entry, four
/// to a register, the lowest entry in the lowest byte.
#[derive(Clone, Copy, Debug)]
pub struct PmpRegs {
    pub addr: [u32; 16],
    pub cfg: [u32; 4],
}

/// Whether `size` is a power of two.
pub open spec fn is_pow2(size: u32) -> bool {
    size != 0 && size & ((size - 1) as u32) == 0
}

/// The address-register value that stands for the region of `size` bytes at
/// `base`: the base in units of four bytes, with one low bit set for every
/// doubling of the size above eight bytes.
pub open spec fn napot_addr(base: u32, size: u32) -> u32 {
    (base >> 2) | (size >> 3).wrapping_sub(1)
}

/// Computes the address-register encoding of a region.
pub fn pmp_napot_addr(base: u32, size: u32) -> (r: u32)
    ensures
        r == napot_addr(base, size),
{
    (base >> 2) | (size >> 3).wrapping_sub(1)
}

/// The low bits of an address register that only tell the size of its
/// region: the run of ones at the bottom and the zero above it.
pub open spec fn napot_mask(p: u32) -> u32 {
    p ^ p.wrapping_add(1)
}

/// Whether byte address `a` lies in the power-of-two region that address
/// register value `p` stands for.
pub open spec fn napot_contains(p: u32, a: u32) -> bool {
    ((a >> 2) & !napot_mask(p)) == (p & !napot_mask(p))
}

/// Encoding a region and reading the encoding back gives the region: for a
/// power-of-two size of at least eight bytes and a base aligned to it, the
/// encoded register covers exactly the bytes from `base` up to `base + size`.
pub proof fn lemma_napot_region(base: u32, size: u32, a: u32)
    requires
        is_pow2(size),
        size >= 8,
        base % size == 0,
    ensures
        napot_contains(napot_addr(base, size), a) <==> base <= a < base + size,
        napot_addr(base, size) == base / 4 + size / 8 - 1,
{
    let low: u32 = ((size >> 3) - 1) as u32;
    let p: u32 = (base >> 2) | low;
    let next: u32 = (p + 1) as u32;
    assert(size >> 3 >= 1) by (bit_vector)
        requires
            size >= 8,
    ;
    assert(low == (size >> 3).wrapping_sub(1));
    assert(p < 0xFFFF_FFFF && p == base / 4 + size / 8 - 1) by (bit_vector)
        requires
            size != 0 && size & ((size - 1) as u32) == 0,
            size >= 8,
            base % size == 0,
            low == ((size >> 3) - 1) as u32,
            p == (base >> 2) | low,
    ;
    assert(next == p.wrapping_add(1));
    assert((((a >> 2) & !(p ^ next)) == (p & !(p ^ next))) <==> (base <= a && a < base + size))
        by (bit_vector)
        requires
            size != 0 && size & ((size - 1) as u32) == 0,
            size >= 8,
            base % size == 0,
            low == ((size >> 3) - 1) as u32,
            p == (base >> 2) | low,
            next == (p + 1) as u32,
    ;
}

/// The value of a configuration register that holds the four bytes, `c0`
/// in the lowest place.
pub open spec fn packed_cfg(c0: u8, c1: u8, c2: u8, c3: u8) -> u32 {
    (c0 as u32) | ((c1 as u32) << 8) | ((c2 as u32) << 16) | ((c3 as u32) << 24)
}

/// Byte `k` of a configuration register.
pub open spec fn cfg_field(reg: u32, k: u32) -> u8
    recommends
        k < 4,
{
    ((reg >> (8 * k)) & 0xFF) as u8
}

/// Packs four configuration bytes into one configuration register.
pub fn pack_cfg(c0: u8, c1: u8, c2: u8, c3: u8) -> (reg: u32)
    ensures
        reg == packed_cfg(c0, c1, c2, c3),
        cfg_field(reg, 0) == c0,
        cfg_field(reg, 1) == c1,
        cfg_field(reg, 2) == c2,
        cfg_field(reg, 3) == c3,
{
    let reg: u32 = (c0 as u32) | ((c1 as u32) << 8) | ((c2 as u32) << 16) | ((c3 as u32) << 24);
    proof {
        lemma_pack_unpack(c0, c1, c2, c3);
    }
    reg
}

/// Reads byte `k` of a configuration register.
pub fn unpack_cfg(reg: u32, k: u32) -> (c: u8)
    requires
        k < 4,
    ensures
        c == cfg_field(reg, k),
{
    let field: u32 = (reg >> (8 * k)) & 0xFF;
    assert(field < 256) by (bit_vector)
        requires
            field == (reg >> (8 * k)) & 0xFF,
    ;
    field as u8
}

/// Each byte packed into a configuration register is read back unchanged.
pub proof fn lemma_pack_unpack(c0: u8, c1: u8, c2: u8, c3: u8)
    ensures
        cfg_field(packed_cfg(c0, c1, c2, c3), 0) == c0,
        cfg_field(packed_cfg(c0, c1, c2, c3), 1) == c1,
        cfg_field(packed_cfg(c0, c1, c2, c3), 2) == c2,
        cfg_field(packed_cfg(c0, c1, c2, c3), 3) == c3,
{
    let reg = packed_cfg(c0, c1, c2, c3);
    assert(((reg >> 0) & 0xFF) as u8 == c0 && ((reg >> 8) & 0xFF) as u8 == c1 && ((reg >> 16)
        & 0xFF) as u8 == c2 && ((reg >> 24) & 0xFF) as u8 == c3) by (bit_vector)
        requires
            reg == (c0 as u32) | ((c1 as u32) << 8) | ((c2 as u32) << 16) | ((c3 as u32) << 24),
    ;
}

impl PmpRegs {
    /// The registers as they are after reset: every entry off.
    pub fn reset() -> (regs: PmpRegs)
        ensures
            forall|i: int| 0 <= i < 16 ==> regs.addr[i] == 0,
            forall|j: int| 0 <= j < 4 ==> regs.cfg[j] == 0,
    {
        PmpRegs { addr: [0u32; 16], cfg: [0u32; 4] }
    }

    /// The configuration byte of entry `i`.
    pub open spec fn cfg_byte(self, i: int) -> u8
        recommends
            0 <= i < 16,
    {
        cfg_field(self.cfg[i / 4], (i % 4) as u32)
    }

    /// Whether entry `i` covers byte address `a`.
    pub open spec fn entry_matches(self, i: int, a: u32) -> bool
        recommends
            0 <= i < 16,
    {
        let mode = self.cfg_byte(i) & 0x18;
        let word = a >> 2;
        if mode == PMP_NAPOT {
            napot_contains(self.addr[i], a)
        } else if mode == PMP_NA4 {
            word == self.addr[i]
        } else if mode == PMP_TOR {
            (if i == 0 {
                0
            } else {
                self.addr[i - 1]
            }) <= word < self.addr[i]
        } else {
            false
        }
    }

    /// The lowest entry at or above `from` that covers `a`, or 16 if there is
    /// none.
    pub open spec fn first_match(self, a: u32, from: int) -> int
        decreases 16 - from,
    {
        if from >= 16 {
            16
        } else if self.entry_matches(from, a) {
            from
        } else {
            self.first_match(a, from + 1)
        }
    }

    /// Whether an access of kind `access` to byte address `a` at privilege
    /// `mode` is allowed. The lowest entry that covers the address decides:
    /// its permission bits bind user mode always and machine mode only when
    /// the entry is locked. An address that no entry covers is open to
    /// machine mode and closed to user mode.
    pub open spec fn allows(self, mode: Privilege, a: u32, access: Access) -> bool {
        let i = self.first_match(a, 0);
        if i >= 16 {
            mode == Privilege::Machine
        } else if mode == Privilege::Machine && self.cfg_byte(i) & PMP_L == 0 {
            true
        } else {
            self.cfg_byte(i) & access_bit(access) != 0
        }
    }
}

/// The permission bit that an access of the given kind needs.
pub open spec fn access_bit(access: Access) -> u8 {
    match access {
        Access::Read => PMP_R,
        Access::Write => PMP_W,
        Access::Execute => PMP_X,
    }
}

/// Decides whether the protection registers allow an access.
pub fn pmp_check(regs: &PmpRegs, mode: Privilege, a: u32, access: Access) -> (ok: bool)
    ensures
        ok == regs.allows(mode, a, access),
{
    let word: u32 = a >> 2;
    let bit: u8 = match access {
        Access::Read => PMP_R,
        Access::Write => PMP_W,
        Access::Execute => PMP_X,
    };
    let mut i: usize = 0;
    while i < 16
        invariant
            i <= 16,
            word == a >> 2,
            bit == access_bit(access),
            regs.first_match(a, 0) == regs.first_match(a, i as int),
        decreases 16 - i,
    {
        let c: u8 = unpack_cfg(regs.cfg[i / 4], (i % 4) as u32);
        let field: u8 = c & 0x18;
        let hit: bool = if field == PMP_NAPOT {
            let p: u32 = regs.addr[i];
            let mask: u32 = p ^ p.wrapping_add(1);
            (word & !mask) == (p & !mask)
        } else if field == PMP_NA4 {
            word == regs.addr[i]
        } else if field == PMP_TOR {
            let low: u32 = if i == 0 {
                0
            } else {
                regs.addr[i - 1]
            };
            low <= word && word < regs.addr[i]
        } else {
            false
        };
        assert(hit == regs.entry_matches(i as int, a));
        if hit {
            if mode == Privilege::Machine && c & PMP_L == 0 {
                return true;
            }
            return c & bit != 0;
        }
        i += 1;
    }
    mode == Privilege::Machine
}

/// An address that no entry covers is closed to user mode, whatever the
/// registers hold.
pub proof fn lemma_unmatched_is_denied_to_user(regs: PmpRegs, a: u32, access: Access)
    requires
        regs.first_match(a, 0) >= 16,
    ensures
        !regs.allows(Privilege::User, a, access),
{
}

/// The address register of entry `i` under the isolation policy. Entries 0
/// to 7 stand for kernel code, kernel data, the kernel shadow stacks,
/// application code, application read-only data, application data, the
/// application shadow stacks and the serial port, in this order.
pub open spec fn policy_addr(i: int) -> u32 {
    if i == 0 {
        napot_addr(ROM_BASE, ROM_SIZE)
    } else if i == 1 {
        napot_addr(M_RAM_BASE, M_RAM_SIZE)
    } else if i == 2 {
        napot_addr(M_SHADOW_BASE, M_SHADOW_SIZE)
    } else if i == 3 {
        napot_addr(U_CODE_BASE, U_CODE_SIZE)
    } else if i == 4 {
        napot_addr(U_RODATA_BASE, U_RODATA_SIZE)
    } else if i == 5 {
        napot_addr(U_RAM_BASE, U_RAM_SIZE)
    } else if i == 6 {
        napot_addr(U_SHADOW_BASE, U_SHADOW_SIZE)
    } else if i == 7 {
        napot_addr(UART_BASE, UART_SIZE)
    } else {
        0
    }
}

/// The configuration byte of entry `i` under the isolation policy: kernel
/// code is locked, readable and executable; the two kernel data entries
/// carry no permission and no matching mode; the application's entries
/// carry what the application may do; the rest is off.
pub open spec fn policy_cfg(i: int) -> u8 {
    if i == 0 {
        PMP_L | PMP_NAPOT | PMP_R | PMP_X
    } else if i == 3 {
        PMP_NAPOT | PMP_R | PMP_X
    } else if i == 4 {
        PMP_NAPOT | PMP_R
    } else if i == 5 || i == 6 || i == 7 {
        PMP_NAPOT | PMP_R | PMP_W
    } else {
        0
    }
}

impl PmpRegs {
    /// Whether entries 0 to 7 hold the isolation policy.
    pub open spec fn holds_policy_entries(self) -> bool {
        &&& forall|i: int| 0 <= i < 8 ==> self.addr[i] == policy_addr(i)
        &&& self.cfg[0] == packed_cfg(policy_cfg(0), policy_cfg(1), policy_cfg(2), policy_cfg(3))
        &&& self.cfg[1] == packed_cfg(policy_cfg(4), policy_cfg(5), policy_cfg(6), policy_cfg(7))
    }

    /// Whether the registers hold the isolation policy and nothing else:
    /// entries 0 to 7 as the policy says, entries 8 to 15 off.
    pub open spec fn holds_policy(self) -> bool {
        &&& self.holds_policy_entries()
        &&& self.cfg[2] == 0
        &&& self.cfg[3] == 0
    }
}

/// What the kernel says before it programs the protection registers.
pub const PMP_NOTICE: &'static str = "[PMP] Configuring Physical Memory Protection...\r\n";

/// What the kernel says once the protection registers are programmed.
pub const PMP_REPORT: &'static str = "  Entry 0: ROM (M-mode code)     Locked R-X  64K @ 0x80000000\r\n  Entry 1: M_RAM (M-mode data)    Deny U     32K @ 0x80010000\r\n  Entry 2: M_SHADOW (M-mode SS)   Deny U      8K @ 0x80018000\r\n  Entry 3: U_CODE (U-mode code)   U: R-X    128K @ 0x80020000\r\n  Entry 4: U_RODATA               U: R--     32K @ 0x80040000\r\n  Entry 5: U_RAM (U-mode data)    U: RW-     64K @ 0x80048000\r\n  Entry 6: U_SHADOW (U-mode SS)   U: RW-      8K @ 0x80058000\r\n  Entry 7: UART MMIO              U: RW-      4K @ 0x10000000\r\n[PMP] Configuration complete.\r\n\r\n";

/// The registers after entries 0 to 7 are programmed with the isolation
/// policy: entries 8 to 15 are as before.
pub open spec fn with_policy(regs: PmpRegs) -> PmpRegs {
    PmpRegs {
        addr: [
            policy_addr(0),
            policy_addr(1),
            policy_addr(2),
            policy_addr(3),
            policy_addr(4),
            policy_addr(5),
            policy_addr(6),
            policy_addr(7),
            regs.addr[8],
            regs.addr[9],
            regs.addr[10],
            regs.addr[11],
            regs.addr[12],
            regs.addr[13],
            regs.addr[14],
            regs.addr[15],
        ],
        cfg: [
            packed_cfg(policy_cfg(0), policy_cfg(1), policy_cfg(2), policy_cfg(3)),
            packed_cfg(policy_cfg(4), policy_cfg(5), policy_cfg(6), policy_cfg(7)),
            regs.cfg[2],
            regs.cfg[3],
        ],
    }
}

/// Programming the policy into registers whose upper entries are off, as
/// they are after reset, gives registers that hold the policy and nothing
/// else.
pub proof fn lemma_with_policy(regs: PmpRegs)
    ensures
        with_policy(regs).holds_policy_entries(),
        regs.cfg[2] == 0 && regs.cfg[3] == 0 ==> with_policy(regs).holds_policy(),
{
}

/// Programs entries 0 to 7 with the isolation policy, leaves entries 8 to
/// 15 as they are, and reports on the serial port.
pub fn configure_pmp(regs: &mut PmpRegs, uart: &mut Uart)
    ensures
        *final(regs) == with_policy(*old(regs)),
        final(regs).holds_policy_entries(),
        final(uart)@ == old(uart)@ + PMP_NOTICE.spec_bytes() + PMP_REPORT.spec_bytes(),
{
    uart_puts(uart, PMP_NOTICE);
    regs.addr[0] = pmp_napot_addr(ROM_BASE, ROM_SIZE);
    regs.addr[1] = pmp_napot_addr(M_RAM_BASE, M_RAM_SIZE);
    regs.addr[2] = pmp_napot_addr(M_SHADOW_BASE, M_SHADOW_SIZE);
    regs.addr[3] = pmp_napot_addr(U_CODE_BASE, U_CODE_SIZE);
    regs.addr[4] = pmp_napot_addr(U_RODATA_BASE, U_RODATA_SIZE);
    regs.addr[5] = pmp_napot_addr(U_RAM_BASE, U_RAM_SIZE);
    regs.addr[6] = pmp_napot_addr(U_SHADOW_BASE, U_SHADOW_SIZE);
    regs.addr[7] = pmp_napot_addr(UART_BASE, UART_SIZE);
    regs.cfg[0] = pack_cfg(PMP_L | PMP_NAPOT | PMP_R | PMP_X, 0, 0, PMP_NAPOT | PMP_R | PMP_X);
    regs.cfg[1] = pack_cfg(
        PMP_NAPOT | PMP_R,
        PMP_NAPOT | PMP_R | PMP_W,
        PMP_NAPOT | PMP_R | PMP_W,
        PMP_NAPOT | PMP_R | PMP_W,
    );
    uart_puts(uart, PMP_REPORT);
    assert(regs.addr =~= with_policy(*old(regs)).addr);
    assert(regs.cfg =~= with_policy(*old(regs)).cfg);
}

/// What the isolation policy lets user mode do at byte address `a`: read
/// and execute code (the kernel's too, because its locked entry binds every
/// mode), read the read-only data, read and write from the start of the
/// application data up to the next 128 KiB boundary, and read and write the
/// serial port. Everything else is closed.
pub open spec fn user_may(a: u32, access: Access) -> bool {
    if in_region(a, ROM_BASE, ROM_SIZE) || in_region(a, U_CODE_BASE, U_CODE_SIZE) {
        access != Access::Write
    } else if in_region(a, U_RODATA_BASE, U_RODATA_SIZE) {
        access == Access::Read
    } else if U_RAM_BASE <= a < 0x8006_0000 || in_region(a, UART_BASE, UART_SIZE) {
        access != Access::Execute
    } else {
        false
    }
}

/// The address registers of the policy, and the bytes that each covers.
proof fn lemma_policy_ranges(a: u32)
    ensures
        policy_addr(0) == 0x2000_1FFF,
        policy_addr(3) == 0x2000_BFFF,
        policy_addr(4) == 0x2001_0FFF,
        policy_addr(5) == 0x2001_3FFF,
        policy_addr(6) == 0x2001_63FF,
        policy_addr(7) == 0x0400_01FF,
        napot_contains(policy_addr(0), a) <==> 0x8000_0000 <= a < 0x8001_0000,
        napot_contains(policy_addr(3), a) <==> 0x8002_0000 <= a < 0x8004_0000,
        napot_contains(policy_addr(4), a) <==> 0x8004_0000 <= a < 0x8004_8000,
        napot_contains(policy_addr(5), a) <==> 0x8004_0000 <= a < 0x8006_0000,
        napot_contains(policy_addr(6), a) <==> 0x8005_8000 <= a < 0x8005_A000,
        napot_contains(policy_addr(7), a) <==> 0x1000_0000 <= a < 0x1000_1000,
{
    assert(napot_addr(0x8000_0000, 0x1_0000) == 0x2000_1FFF && napot_addr(0x8002_0000, 0x2_0000)
        == 0x2000_BFFF && napot_addr(0x8004_0000, 0x8000) == 0x2001_0FFF && napot_addr(
        0x8004_8000,
        0x1_0000,
    ) == 0x2001_3FFF && napot_addr(0x8005_8000, 0x2000) == 0x2001_63FF && napot_addr(
        0x1000_0000,
        0x1000,
    ) == 0x0400_01FF) by (bit_vector);
    assert((napot_contains(0x2000_1FFF, a) <==> 0x8000_0000 <= a < 0x8001_0000) && (napot_contains(
        0x2000_BFFF,
        a,
    ) <==> 0x8002_0000 <= a < 0x8004_0000) && (napot_contains(0x2001_0FFF, a) <==> 0x8004_0000
        <= a < 0x8004_8000) && (napot_contains(0x2001_3FFF, a) <==> 0x8004_0000 <= a
        < 0x8006_0000) && (napot_contains(0x2001_63FF, a) <==> 0x8005_8000 <= a < 0x8005_A000) && (
    napot_contains(0x0400_01FF, a) <==> 0x1000_0000 <= a < 0x1000_1000)) by (bit_vector);
}

/// The permission, lock and matching bits of the policy's configuration
/// bytes.
proof fn lemma_policy_cfg_bits()
    ensures
        policy_cfg(0) == 0x9D,
        policy_cfg(3) == 0x1D,
        policy_cfg(4) == 0x19,
        policy_cfg(5) == 0x1B,
        0x9Du8 & 0x18 == 0x18 && 0x9Du8 & 0x80 != 0 && 0x9Du8 & 1 != 0 && 0x9Du8 & 2 == 0 && 0x9Du8
            & 4 != 0,
        0x1Du8 & 0x18 == 0x18 && 0x1Du8 & 0x80 == 0 && 0x1Du8 & 1 != 0 && 0x1Du8 & 2 == 0 && 0x1Du8
            & 4 != 0,
        0x19u8 & 0x18 == 0x18 && 0x19u8 & 0x80 == 0 && 0x19u8 & 1 != 0 && 0x19u8 & 2 == 0 && 0x19u8
            & 4 == 0,
        0x1Bu8 & 0x18 == 0x18 && 0x1Bu8 & 0x80 == 0 && 0x1Bu8 & 1 != 0 && 0x1Bu8 & 2 != 0 && 0x1Bu8
            & 4 == 0,
        0u8 & 0x18 == 0,
        forall|k: u32| k < 4 ==> cfg_field(0, k) == 0,
{
    assert(0x80u8 | 0x18 | 0x01 | 0x04 == 0x9D && 0x18u8 | 0x01 | 0x04 == 0x1D && 0x18u8 | 0x01
        == 0x19 && 0x18u8 | 0x01 | 0x02 == 0x1B && 0x9Du8 & 0x18 == 0x18 && 0x9Du8 & 0x80 != 0
        && 0x9Du8 & 1 != 0 && 0x9Du8 & 2 == 0 && 0x9Du8 & 4 != 0 && 0x1Du8 & 0x18 == 0x18 && 0x1Du8
        & 0x80 == 0 && 0x1Du8 & 1 != 0 && 0x1Du8 & 2 == 0 && 0x1Du8 & 4 != 0 && 0x19u8 & 0x18
        == 0x18 && 0x19u8 & 0x80 == 0 && 0x19u8 & 1 != 0 && 0x19u8 & 2 == 0 && 0x19u8 & 4 == 0
        && 0x1Bu8 & 0x18 == 0x18 && 0x1Bu8 & 0x80 == 0 && 0x1Bu8 & 1 != 0 && 0x1Bu8 & 2 != 0
        && 0x1Bu8 & 4 == 0 && 0u8 & 0x18 == 0) by (bit_vector);
    assert forall|k: u32| k < 4 implies cfg_field(0, k) == 0 by {
        assert(((0u32 >> (8 * k)) & 0xFF) as u8 == 0) by (bit_vector);
    }
}

/// Under the isolation policy every entry's configuration byte is the one
/// the policy names.
pub proof fn lemma_policy_cfg_bytes(regs: PmpRegs)
    requires
        regs.holds_policy(),
    ensures
        forall|i: int| 0 <= i < 16 ==> regs.cfg_byte(i) == policy_cfg(i),
{
    lemma_policy_cfg_bits();
    lemma_pack_unpack(policy_cfg(0), policy_cfg(1), policy_cfg(2), policy_cfg(3));
    lemma_pack_unpack(policy_cfg(4), policy_cfg(5), policy_cfg(6), policy_cfg(7));
    assert forall|i: int| 0 <= i < 16 implies regs.cfg_byte(i) == policy_cfg(i) by {
        if i >= 8 {
            assert(cfg_field(0, (i % 4) as u32) == 0);
        }
    }
}

/// Under the isolation policy, the lowest entry that covers an address.
proof fn lemma_policy_first_match(regs: PmpRegs, a: u32)
    requires
        regs.holds_policy(),
    ensures
        regs.first_match(a, 0) == (if in_region(a, ROM_BASE, ROM_SIZE) {
            0
        } else if in_region(a, U_CODE_BASE, U_CODE_SIZE) {
            3
        } else if in_region(a, U_RODATA_BASE, U_RODATA_SIZE) {
            4
        } else if U_RAM_BASE <= a < 0x8006_0000 {
            5
        } else if in_region(a, UART_BASE, UART_SIZE) {
            7
        } else {
            16int
        }),
{
    lemma_policy_cfg_bits();
    lemma_policy_cfg_bytes(regs);
    lemma_policy_ranges(a);
    assert(regs.entry_matches(0, a) == in_region(a, ROM_BASE, ROM_SIZE));
    assert(!regs.entry_matches(1, a));
    assert(!regs.entry_matches(2, a));
    assert(regs.entry_matches(3, a) == in_region(a, U_CODE_BASE, U_CODE_SIZE));
    assert(regs.entry_matches(4, a) == in_region(a, U_RODATA_BASE, U_RODATA_SIZE));
    assert(regs.entry_matches(5, a) == (0x8004_0000 <= a < 0x8006_0000));
    assert(regs.entry_matches(6, a) == in_region(a, U_SHADOW_BASE, U_SHADOW_SIZE));
    assert(regs.entry_matches(7, a) == in_region(a, UART_BASE, UART_SIZE));
    assert forall|i: int| 8 <= i < 16 implies !regs.entry_matches(i, a) by {}
    assert(regs.first_match(a, 16) == 16);
    assert(regs.first_match(a, 15) == 16);
    assert(regs.first_match(a, 14) == 16);
    assert(regs.first_match(a, 13) == 16);
    assert(regs.first_match(a, 12) == 16);
    assert(regs.first_match(a, 11) == 16);
    assert(regs.first_match(a, 10) == 16);
    assert(regs.first_match(a, 9) == 16);
    assert(regs.first_match(a, 8) == 16);
    assert(regs.first_match(a, 7) == if in_region(a, UART_BASE, UART_SIZE) { 7 } else { 16int });
    assert(regs.first_match(a, 6) == if in_region(a, U_SHADOW_BASE, U_SHADOW_SIZE) {
        6
    } else {
        regs.first_match(a, 7)
    });
    assert(regs.first_match(a, 5) == if 0x8004_0000 <= a < 0x8006_0000 {
        5
    } else {
        regs.first_match(a, 6)
    });
    assert(regs.first_match(a, 4) == if in_region(a, U_RODATA_BASE, U_RODATA_SIZE) {
        4
    } else {
        regs.first_match(a, 5)
    });
    assert(regs.first_match(a, 3) == if in_region(a, U_CODE_BASE, U_CODE_SIZE) {
        3
    } else {
        regs.first_match(a, 4)
    });
    assert(regs.first_match(a, 2) == regs.first_match(a, 3));
    assert(regs.first_match(a, 1) == regs.first_match(a, 2));
}

/// Under the isolation policy user mode can do at an address exactly what
/// [`user_may`] says.
pub proof fn lemma_policy_user_access(regs: PmpRegs, a: u32, access: Access)
    requires
        regs.holds_policy(),
    ensures
        regs.allows(Privilege::User, a, access) <==> user_may(a, access),
{
    lemma_policy_cfg_bits();
    lemma_policy_cfg_bytes(regs);
    lemma_policy_first_match(regs, a);
}

/// Under the isolation policy machine mode can do everything but write
/// kernel code.
pub proof fn lemma_policy_machine_access(regs: PmpRegs, a: u32, access: Access)
    requires
        regs.holds_policy(),
    ensures
        regs.allows(Privilege::Machine, a, access) <==> !(in_region(a, ROM_BASE, ROM_SIZE)
            && access == Access::Write),
{
    lemma_policy_cfg_bits();
    lemma_policy_cfg_bytes(regs);
    lemma_policy_first_match(regs, a);
}

/// Under the isolation policy no address is both writable and executable
/// for user mode.
pub proof fn lemma_user_write_xor_execute(regs: PmpRegs, a: u32)
    requires
        regs.holds_policy(),
    ensures
        !(regs.allows(Privilege::User, a, Access::Write) && regs.allows(
            Privilege::User,
            a,
            Access::Execute,
        )),
{
    lemma_policy_user_access(regs, a, Access::Write);
    lemma_policy_user_access(regs, a, Access::Execute);
}

/// Under the isolation policy user mode can neither read, write nor execute
/// any byte of kernel data or of the kernel shadow stacks.
pub proof fn lemma_kernel_data_closed_to_user(regs: PmpRegs, a: u32, access: Access)
    requires
        regs.holds_policy(),
        in_region(a, M_RAM_BASE, M_RAM_SIZE) || in_region(a, M_SHADOW_BASE, M_SHADOW_SIZE),
    ensures
        !regs.allows(Privilege::User, a, access),
{
    lemma_policy_user_access(regs, a, access);
}

/// Under the isolation policy no privilege level can write kernel code.
pub proof fn lemma_kernel_code_immutable(regs: PmpRegs, mode: Privilege, a: u32)
    requires
        regs.holds_policy(),
        in_region(a, ROM_BASE, ROM_SIZE),
    ensures
        !regs.allows(mode, a, Access::Write),
{
    lemma_policy_user_access(regs, a, Access::Write);
    lemma_policy_machine_access(regs, a, Access::Write);
}

/// The lock on kernel code has a price: a locked entry binds every mode to
/// its permissions, so under the isolation policy user mode can read and
/// execute kernel code, though not write it.
pub proof fn lemma_kernel_code_visible_to_user(regs: PmpRegs, a: u32)
    requires
        regs.holds_policy(),
        in_region(a, ROM_BASE, ROM_SIZE),
    ensures
        regs.allows(Privilege::User, a, Access::Read),
        regs.allows(Privilege::User, a, Access::Execute),
        !regs.allows(Privilege::User, a, Access::Write),
{
    lemma_policy_user_access(regs, a, Access::Read);
    lemma_policy_user_access(regs, a, Access::Execute);
    lemma_policy_user_access(regs, a, Access::Write);
}

/// Under the isolation policy user mode can reach nothing outside kernel
/// code, the application's own memory up to the next 128 KiB boundary, and
/// the serial port.
pub proof fn lemma_rest_closed_to_user(regs: PmpRegs, a: u32, access: Access)
    requires
        regs.holds_policy(),
        !in_region(a, ROM_BASE, ROM_SIZE),
        !(U_CODE_BASE <= a < 0x8006_0000),
        !in_region(a, UART_BASE, UART_SIZE),
    ensures
        !regs.allows(Privilege::User, a, access),
{
    lemma_policy_user_access(regs, a, access);
}

impl PmpRegs {
    /// Whether no entry grants both write and execute.
    pub open spec fn no_entry_writes_and_executes(self) -> bool {
        forall|i: int|
            0 <= i < 16 ==> !(#[trigger] self.cfg_byte(i) & PMP_W != 0 && self.cfg_byte(i) & PMP_X
                != 0)
    }
}

/// Scans the configuration bytes for an entry that grants both write and
/// execute, and says whether there is none.
pub fn scan_write_xor_execute(regs: &PmpRegs) -> (ok: bool)
    ensures
        ok == regs.no_entry_writes_and_executes(),
{
    let mut i: usize = 0;
    while i < 16
        invariant
            i <= 16,
            forall|j: int|
                0 <= j < i ==> !(#[trigger] regs.cfg_byte(j) & PMP_W != 0 && regs.cfg_byte(j)
                    & PMP_X != 0),
        decreases 16 - i,
    {
        let c: u8 = unpack_cfg(regs.cfg[i / 4], (i % 4) as u32);
        if c & PMP_W != 0 && c & PMP_X != 0 {
            assert(regs.cfg_byte(i as int) & PMP_W != 0);
            return false;
        }
        i += 1;
    }
    true
}

/// Whatever the registers hold: if no entry grants both write and execute,
/// no address is both writable and executable for user mode.
pub proof fn lemma_scan_is_sound(regs: PmpRegs, a: u32)
    requires
        regs.no_entry_writes_and_executes(),
    ensures
        !(regs.allows(Privilege::User, a, Access::Write) && regs.allows(
            Privilege::User,
            a,
            Access::Execute,
        )),
{
    let i = regs.first_match(a, 0);
    lemma_first_match_is_lowest(regs, a, 0);
    if i < 16 {
        assert(!(regs.cfg_byte(i) & PMP_W != 0 && regs.cfg_byte(i) & PMP_X != 0));
    }
}

/// What `first_match` finds is what its name says: an index from `from` to
/// 16, below 16 only for an entry that covers the address, with no entry
/// from `from` up to it that covers the address too.
pub proof fn lemma_first_match_is_lowest(regs: PmpRegs, a: u32, from: int)
    requires
        0 <= from <= 16,
    ensures
        from <= regs.first_match(a, from) <= 16,
        regs.first_match(a, from) < 16 ==> regs.entry_matches(regs.first_match(a, from), a),
        forall|j: int| from <= j < regs.first_match(a, from) ==> !regs.entry_matches(j, a),
    decreases 16 - from,
{
    if from < 16 && !regs.entry_matches(from, a) {
        lemma_first_match_is_lowest(regs, a, from + 1);
    }
}

/// The isolation policy grants no entry both write and execute.
pub proof fn lemma_policy_passes_scan(regs: PmpRegs)
    requires
        regs.holds_policy(),
    ensures
        regs.no_entry_writes_and_executes(),
{
    lemma_policy_cfg_bits();
    lemma_policy_cfg_bytes(regs);
    assert(0u8 & 2 == 0) by (bit_vector);
    assert forall|i: int| 0 <= i < 16 implies !(#[trigger] regs.cfg_byte(i) & PMP_W != 0
        && regs.cfg_byte(i) & PMP_X != 0) by {
        assert(regs.cfg_byte(i) == policy_cfg(i));
    }
}

} // verus!
