//! The trap dispatcher and the services it offers to the application.

use crate::cfi::CfiFault;
use crate::hart::{Hart, HartView, MSTATUS_MPP};
use crate::layout::{
    range_in_region, FINISHER_PASS, TEST_FINISHER, UART_BASE, U_CODE_BASE, U_CODE_SIZE, U_RAM_BASE, U_RAM_SIZE,
    U_RODATA_BASE, U_RODATA_SIZE, U_SHADOW_BASE, U_SHADOW_SIZE,
};
use crate::machine::{Halt, Machine, MachineView, RunState};
use crate::memory::{bytes_at, filled, half_at, low_byte};
use crate::pmp::{user_may, Access, Privilege};
use vstd::prelude::*;

verus! {

/// Trap cause: an instruction fetch was refused.
pub const CAUSE_INSTRUCTION_ACCESS_FAULT: u32 = 1;

/// Trap cause: the instruction is not one the hart knows.
pub const CAUSE_ILLEGAL_INSTRUCTION: u32 = 2;

/// Trap cause: a breakpoint instruction was executed.
pub const CAUSE_BREAKPOINT: u32 = 3;

/// Trap cause: a load was refused.
pub const CAUSE_LOAD_ACCESS_FAULT: u32 = 5;

/// Trap cause: a store was refused.
pub const CAUSE_STORE_ACCESS_FAULT: u32 = 7;

/// Trap cause: the application asked for a service.
pub const CAUSE_ECALL_FROM_USER: u32 = 8;

/// Trap cause: machine mode asked for a service. Nobody serves it.
pub const CAUSE_ECALL_FROM_MACHINE: u32 = 11;

/// Trap cause: a check that the hardware makes on software's behalf failed.
pub const CAUSE_SOFTWARE_CHECK: u32 = 18;

/// Service number: transmit one character.
pub const SYS_PUTC: u32 = 0;

/// Service number: transmit a string.
pub const SYS_PUTS: u32 = 1;

/// Service number: end the run.
pub const SYS_EXIT: u32 = 2;

/// Service number: fill a buffer with random bytes.
pub const SYS_GET_RANDOM: u32 = 3;

/// What a service hands back in the first argument register when it refuses
/// a buffer.
pub const ECALL_ERROR: u32 = 0xFFFF_FFFF;

/// The byte that stands in for randomness. It is no secret and no
/// randomness: the service is a placeholder.
pub const RANDOM_FILL: u8 = 0xAA;

/// The registers that the dispatcher saves on entry and restores on return.
#[derive(Clone, Copy, Debug, PartialEq, Eq, Structural)]
pub struct EcallFrame {
    pub ra: u32,
    pub t0: u32,
    pub t1: u32,
    pub t2: u32,
    /// First argument, and the place of the result.
    pub a0: u32,
    /// Second argument.
    pub a1: u32,
    /// Third argument.
    pub a2: u32,
    /// Service number.
    pub a7: u32,
}

/// What the dispatcher does with a trap.
#[derive(Clone, Copy, Debug, PartialEq, Eq, Structural)]
pub enum TrapKind {
    /// Serve the application's request.
    Ecall,
    /// Step over the instruction and go on.
    IllegalInstruction,
    /// Report the violation and stop for good.
    CfiViolation,
    /// Stop for good, silently.
    Unknown,
}

/// How the dispatcher treats each cause. A refused instruction fetch is a
/// branch that missed its landing pad, a failed software check is the
/// hardware shadow stack objecting, and a breakpoint is the software shadow
/// stack objecting: all three are violations of control-flow integrity.
pub open spec fn trap_kind(cause: u32) -> TrapKind {
    if cause == CAUSE_ECALL_FROM_USER {
        TrapKind::Ecall
    } else if cause == CAUSE_ILLEGAL_INSTRUCTION {
        TrapKind::IllegalInstruction
    } else if cause == CAUSE_SOFTWARE_CHECK || cause == CAUSE_INSTRUCTION_ACCESS_FAULT || cause
        == CAUSE_BREAKPOINT {
        TrapKind::CfiViolation
    } else {
        TrapKind::Unknown
    }
}

/// Decodes a trap cause.
pub fn classify_trap(cause: u32) -> (kind: TrapKind)
    ensures
        kind == trap_kind(cause),
{
    if cause == CAUSE_ECALL_FROM_USER {
        TrapKind::Ecall
    } else if cause == CAUSE_ILLEGAL_INSTRUCTION {
        TrapKind::IllegalInstruction
    } else if cause == CAUSE_SOFTWARE_CHECK || cause == CAUSE_INSTRUCTION_ACCESS_FAULT || cause
        == CAUSE_BREAKPOINT {
        TrapKind::CfiViolation
    } else {
        TrapKind::Unknown
    }
}

/// The length in bytes of the instruction whose first 16 bits are `half`:
/// four if the two lowest bits are both set, else two.
pub open spec fn instruction_length(half: u16) -> u32 {
    if half & 3 == 3 {
        4
    } else {
        2
    }
}

/// Tells a full instruction from a compressed one by its first 16 bits.
pub fn illegal_instruction_length(half: u16) -> (len: u32)
    ensures
        len == instruction_length(half),
{
    if half & 3 == 3 {
        4
    } else {
        2
    }
}

/// The text that reports a violation of control-flow integrity.
pub open spec fn cfi_diagnostic() -> Seq<u8> {
    seq![0x43u8, 0x46u8, 0x49u8, 0x21u8, 0x0Au8]
}

/// Whether the application may hand the kernel the buffer of `len` bytes at
/// `ptr` for an access of the given kind: the buffer is empty, or it lies
/// wholly in one region of application memory that the application itself
/// may access in that way.
pub open spec fn user_buffer_ok(ptr: u32, len: u32, access: Access) -> bool {
    ||| len == 0
    ||| access != Access::Write && range_in_region(ptr, len, U_CODE_BASE, U_CODE_SIZE)
    ||| access == Access::Read && range_in_region(ptr, len, U_RODATA_BASE, U_RODATA_SIZE)
    ||| access != Access::Execute && range_in_region(ptr, len, U_RAM_BASE, U_RAM_SIZE)
    ||| access != Access::Execute && range_in_region(ptr, len, U_SHADOW_BASE, U_SHADOW_SIZE)
}

/// Whether `[ptr, ptr + len)` lies in `[base, base + size)`.
fn range_within(ptr: u32, len: u32, base: u32, size: u32) -> (ok: bool)
    ensures
        ok == range_in_region(ptr, len, base, size),
{
    base <= ptr && ptr as u64 + len as u64 <= base as u64 + size as u64
}

/// Validates a buffer that the application handed to a service.
pub fn check_user_buffer(ptr: u32, len: u32, access: Access) -> (ok: bool)
    ensures
        ok == user_buffer_ok(ptr, len, access),
{
    let read = match access {
        Access::Read => true,
        _ => false,
    };
    let write = match access {
        Access::Write => true,
        _ => false,
    };
    let execute = match access {
        Access::Execute => true,
        _ => false,
    };
    len == 0 || (!write && range_within(ptr, len, U_CODE_BASE, U_CODE_SIZE)) || (read
        && range_within(ptr, len, U_RODATA_BASE, U_RODATA_SIZE)) || (!execute && range_within(
        ptr,
        len,
        U_RAM_BASE,
        U_RAM_SIZE,
    )) || (!execute && range_within(ptr, len, U_SHADOW_BASE, U_SHADOW_SIZE))
}

/// Every byte of a buffer that passes validation is one that the isolation
/// policy lets the application access in that way itself, and none is
/// kernel memory.
pub proof fn lemma_valid_buffer_is_user_memory(ptr: u32, len: u32, access: Access, a: u32)
    requires
        user_buffer_ok(ptr, len, access),
        ptr <= a < ptr + len,
    ensures
        user_may(a, access),
        U_CODE_BASE <= a < U_SHADOW_BASE + U_SHADOW_SIZE,
{
}

/// The privilege that the status register says to return to.
pub open spec fn previous_privilege(mstatus: u32) -> Privilege {
    if mstatus & MSTATUS_MPP == 0 {
        Privilege::User
    } else {
        Privilege::Machine
    }
}

/// The status register with the privilege to return to set to `mode`.
pub open spec fn with_previous_privilege(mstatus: u32, mode: Privilege) -> u32 {
    if mode == Privilege::Machine {
        mstatus | MSTATUS_MPP
    } else {
        mstatus & !MSTATUS_MPP
    }
}

/// The privilege recorded in the status register is the one read back.
pub proof fn lemma_previous_privilege(mstatus: u32, mode: Privilege)
    ensures
        previous_privilege(with_previous_privilege(mstatus, mode)) == mode,
{
    assert((mstatus | 0x1800) & 0x1800 != 0 && (mstatus & !0x1800u32) & 0x1800 == 0)
        by (bit_vector);
}

impl HartView {
    /// The hart after the hardware has taken a trap with the given cause:
    /// the cause and the interrupted program counter are recorded, the
    /// privilege is remembered, and the hart is in machine mode at the trap
    /// vector.
    pub open spec fn take_trap(self, cause: u32) -> HartView {
        HartView {
            mcause: cause,
            mepc: self.pc,
            mstatus: with_previous_privilege(self.mstatus, self.mode),
            mode: Privilege::Machine,
            pc: self.mtvec,
            ..self
        }
    }

    /// The hart after a return from machine mode: it resumes at the
    /// exception program counter with the remembered privilege, and the
    /// remembered privilege falls back to user.
    pub open spec fn mret(self) -> HartView {
        HartView {
            mode: previous_privilege(self.mstatus),
            pc: self.mepc,
            mstatus: self.mstatus & !MSTATUS_MPP,
            ..self
        }
    }
}

impl Hart {
    /// Takes a trap with the given cause, as the hardware does.
    pub fn take_trap(&mut self, cause: u32)
        ensures
            final(self)@ == old(self)@.take_trap(cause),
    {
        self.mcause = cause;
        self.mepc = self.pc;
        self.mstatus = match self.mode {
            Privilege::Machine => self.mstatus | MSTATUS_MPP,
            Privilege::User => self.mstatus & !MSTATUS_MPP,
        };
        self.mode = Privilege::Machine;
        self.pc = self.mtvec;
    }

    /// Returns from machine mode, as the hardware does.
    pub fn mret(&mut self)
        ensures
            final(self)@ == old(self)@.mret(),
    {
        self.mode = if self.mstatus & MSTATUS_MPP == 0 {
            Privilege::User
        } else {
            Privilege::Machine
        };
        self.pc = self.mepc;
        self.mstatus = self.mstatus & !MSTATUS_MPP;
    }
}

impl MachineView {
    /// The machine after the dispatcher has returned from the trap.
    pub open spec fn resume(self) -> MachineView {
        MachineView { hart: self.hart.mret(), ..self }
    }

    /// The machine and the restored registers after the dispatcher has
    /// served the request that the saved registers `regs` describe.
    ///
    /// Service 0 transmits the low byte of the first argument. Service 1
    /// transmits the bytes of a buffer in order. Service 2 hands the pass
    /// value to the test finisher and stops the hart for good. Service 3
    /// fills a buffer with the placeholder byte. Services 1 and 3 refuse a
    /// buffer that fails validation: they touch nothing and put the error
    /// value in the first argument register. Any other number is ignored.
    /// But for service 2 the application resumes.
    pub open spec fn after_syscall(self, regs: EcallFrame) -> (MachineView, EcallFrame) {
        if regs.a7 == SYS_PUTC {
            (MachineView { uart: self.uart.push((regs.a0 & 0xFF) as u8), ..self }.resume(), regs)
        } else if regs.a7 == SYS_PUTS {
            if user_buffer_ok(regs.a0, regs.a1, Access::Read) {
                (
                    MachineView {
                        uart: self.uart + bytes_at(self.mem, regs.a0, regs.a1 as nat),
                        ..self
                    }.resume(),
                    regs,
                )
            } else {
                (self.resume(), EcallFrame { a0: ECALL_ERROR, ..regs })
            }
        } else if regs.a7 == SYS_EXIT {
            (
                MachineView {
                    finisher: self.finisher.push(FINISHER_PASS),
                    state: RunState::Halted(Halt::Exit),
                    ..self
                },
                regs,
            )
        } else if regs.a7 == SYS_GET_RANDOM {
            if user_buffer_ok(regs.a0, regs.a1, Access::Write) {
                (
                    MachineView {
                        mem: filled(self.mem, regs.a0, regs.a1 as nat, RANDOM_FILL),
                        ..self
                    }.resume(),
                    regs,
                )
            } else {
                (self.resume(), EcallFrame { a0: ECALL_ERROR, ..regs })
            }
        } else {
            (self.resume(), regs)
        }
    }

    /// The machine and the restored registers after the dispatcher has
    /// handled the trap that the cause register names, with `regs` the
    /// registers it saved on entry.
    ///
    /// A request from the application: the exception program counter is
    /// moved past the requesting instruction first, then the request is
    /// served. An illegal instruction: the exception program counter is
    /// moved past it, by its own length, and execution resumes. A violation
    /// of control-flow integrity: the diagnostic is transmitted and the hart
    /// stops for good. Anything else: the hart stops for good, silently. A
    /// hart that has stopped stays as it is.
    pub open spec fn after_trap(self, regs: EcallFrame) -> (MachineView, EcallFrame) {
        if self.state != RunState::Running {
            (self, regs)
        } else {
            match trap_kind(self.hart.mcause) {
                TrapKind::Ecall => MachineView {
                    hart: HartView { mepc: self.hart.mepc.wrapping_add(4), ..self.hart },
                    ..self
                }.after_syscall(regs),
                TrapKind::IllegalInstruction => (
                    MachineView {
                        hart: HartView {
                            mepc: self.hart.mepc.wrapping_add(
                                instruction_length(half_at(self.mem, self.hart.mepc)),
                            ),
                            ..self.hart
                        },
                        ..self
                    }.resume(),
                    regs,
                ),
                TrapKind::CfiViolation => (
                    MachineView {
                        uart: self.uart + cfi_diagnostic(),
                        state: RunState::Halted(Halt::CfiViolation),
                        ..self
                    },
                    regs,
                ),
                TrapKind::Unknown => (
                    MachineView { state: RunState::Halted(Halt::UnknownTrap), ..self },
                    regs,
                ),
            }
        }
    }
}

/// Service 0: writes the low byte of `c` to the data register of the serial
/// port.
pub fn put_char(m: &mut Machine, c: u32)
    ensures
        final(m)@ == old(m)@.write_byte(UART_BASE, (c & 0xFF) as u8),
        final(m)@ == (MachineView { uart: old(m)@.uart.push((c & 0xFF) as u8), ..old(m)@ }),
{
    m.write_byte(UART_BASE, low_byte(c));
}

/// Service 1: writes the `len` bytes at `ptr` to the data register of the
/// serial port, in order, if the buffer passes validation as readable by the
/// application; says whether it did.
pub fn put_string(m: &mut Machine, ptr: u32, len: u32) -> (ok: bool)
    ensures
        ok == user_buffer_ok(ptr, len, Access::Read),
        final(m)@ == (if ok {
            MachineView { uart: old(m)@.uart + bytes_at(old(m)@.mem, ptr, len as nat), ..old(m)@ }
        } else {
            old(m)@
        }),
{
    if !check_user_buffer(ptr, len, Access::Read) {
        return false;
    }
    let mut i: u32 = 0;
    while i < len
        invariant
            i <= len,
            len > 0 ==> ptr + len <= 0x1_0000_0000,
            m@ == (MachineView {
                uart: old(m)@.uart + bytes_at(old(m)@.mem, ptr, i as nat),
                ..old(m)@
            }),
        decreases len - i,
    {
        let b = m.mem.read_byte(ptr + i);
        m.write_byte(UART_BASE, b);
        assert(bytes_at(old(m)@.mem, ptr, (i + 1) as nat) =~= bytes_at(
            old(m)@.mem,
            ptr,
            i as nat,
        ).push(b));
        i += 1;
    }
    true
}

/// Service 2: writes the pass value to the test finisher, as one 32-bit
/// word.
pub fn exit(m: &mut Machine)
    ensures
        final(m)@ == old(m)@.write_word(TEST_FINISHER, FINISHER_PASS),
        final(m)@ == (MachineView {
            finisher: old(m)@.finisher.push(FINISHER_PASS),
            ..old(m)@
        }),
{
    m.write_word(TEST_FINISHER, FINISHER_PASS);
}

/// Service 3: fills the `len` bytes at `ptr` with the placeholder byte, if
/// the buffer passes validation as writable by the application; says
/// whether it did.
pub fn get_random(m: &mut Machine, ptr: u32, len: u32) -> (ok: bool)
    ensures
        ok == user_buffer_ok(ptr, len, Access::Write),
        final(m)@ == (if ok {
            MachineView { mem: filled(old(m)@.mem, ptr, len as nat, RANDOM_FILL), ..old(m)@ }
        } else {
            old(m)@
        }),
{
    if !check_user_buffer(ptr, len, Access::Write) {
        return false;
    }
    proof {
        m.mem.lemma_total();
    }
    assert(m@.mem =~= filled(old(m)@.mem, ptr, 0, RANDOM_FILL));
    let mut i: u32 = 0;
    while i < len
        invariant
            i <= len,
            len > 0 ==> ptr + len <= 0x1_0000_0000,
            len > 0 ==> ptr >= U_RAM_BASE,
            m@ == (MachineView {
                mem: filled(old(m)@.mem, ptr, i as nat, RANDOM_FILL),
                ..old(m)@
            }),
        decreases len - i,
    {
        m.write_byte(ptr + i, RANDOM_FILL);
        assert(m@.mem =~= filled(old(m)@.mem, ptr, (i + 1) as nat, RANDOM_FILL));
        i += 1;
    }
    true
}

/// Writes the diagnostic of a violation of control-flow integrity to the
/// data register of the serial port.
pub fn report_cfi_violation(m: &mut Machine)
    ensures
        final(m)@ == (MachineView { uart: old(m)@.uart + cfi_diagnostic(), ..old(m)@ }),
{
    m.write_byte(UART_BASE, 0x43);
    m.write_byte(UART_BASE, 0x46);
    m.write_byte(UART_BASE, 0x49);
    m.write_byte(UART_BASE, 0x21);
    m.write_byte(UART_BASE, 0x0A);
    assert(m@.uart =~= old(m)@.uart + cfi_diagnostic());
}

/// The trap dispatcher. `regs` holds the registers as they were when the
/// trap was taken, and on return the registers that the interrupted code
/// resumes with.
pub fn _trap_handler(m: &mut Machine, regs: &mut EcallFrame)
    ensures
        (final(m)@, *final(regs)) == old(m)@.after_trap(*old(regs)),
{
    if !m.is_running() {
        return;
    }
    match classify_trap(m.hart.mcause) {
        TrapKind::Ecall => {
            m.hart.mepc = m.hart.mepc.wrapping_add(4);
            if regs.a7 == SYS_PUTC {
                put_char(m, regs.a0);
            } else if regs.a7 == SYS_PUTS {
                if !put_string(m, regs.a0, regs.a1) {
                    regs.a0 = ECALL_ERROR;
                }
            } else if regs.a7 == SYS_EXIT {
                exit(m);
                m.state = RunState::Halted(Halt::Exit);
                return;
            } else if regs.a7 == SYS_GET_RANDOM {
                if !get_random(m, regs.a0, regs.a1) {
                    regs.a0 = ECALL_ERROR;
                }
            }
            m.hart.mret();
        },
        TrapKind::IllegalInstruction => {
            let half = m.mem.read_half(m.hart.mepc);
            m.hart.mepc = m.hart.mepc.wrapping_add(illegal_instruction_length(half));
            m.hart.mret();
        },
        TrapKind::CfiViolation => {
            report_cfi_violation(m);
            m.state = RunState::Halted(Halt::CfiViolation);
        },
        TrapKind::Unknown => {
            m.state = RunState::Halted(Halt::UnknownTrap);
        },
    }
}

/// The cause with which the hart reports a violation of control-flow
/// integrity: a missed landing pad is a refused instruction fetch, the
/// software shadow stack objects with a breakpoint, and the hardware shadow
/// stack with a failed software check.
pub open spec fn fault_cause(fault: CfiFault) -> u32 {
    match fault {
        CfiFault::LandingPad => CAUSE_INSTRUCTION_ACCESS_FAULT,
        CfiFault::SoftwareShadowStack => CAUSE_BREAKPOINT,
        CfiFault::HardwareShadowStack => CAUSE_SOFTWARE_CHECK,
    }
}

/// The trap cause of a violation of control-flow integrity.
pub fn cause_of_fault(fault: CfiFault) -> (cause: u32)
    ensures
        cause == fault_cause(fault),
        trap_kind(cause) == TrapKind::CfiViolation,
{
    match fault {
        CfiFault::LandingPad => CAUSE_INSTRUCTION_ACCESS_FAULT,
        CfiFault::SoftwareShadowStack => CAUSE_BREAKPOINT,
        CfiFault::HardwareShadowStack => CAUSE_SOFTWARE_CHECK,
    }
}

impl MachineView {
    /// The machine and the registers after a trap with the given cause was
    /// taken with the registers `regs` and handled by the dispatcher. A hart
    /// that has stopped stays as it is.
    pub open spec fn raise(self, cause: u32, regs: EcallFrame) -> (MachineView, EcallFrame) {
        if self.state != RunState::Running {
            (self, regs)
        } else {
            MachineView { hart: self.hart.take_trap(cause), ..self }.after_trap(regs)
        }
    }
}

/// Takes a trap with the given cause and runs the dispatcher on it.
pub fn raise(m: &mut Machine, cause: u32, regs: &mut EcallFrame)
    ensures
        (final(m)@, *final(regs)) == old(m)@.raise(cause, *old(regs)),
{
    if !m.is_running() {
        return;
    }
    m.hart.take_trap(cause);
    _trap_handler(m, regs);
}

/// An instruction that the hart does not know is stepped over, whatever
/// follows it in memory: the interrupted code resumes with its privilege,
/// four bytes further on if the two lowest bits of the instruction are both
/// set, two bytes further on if not, and nothing else changes but the
/// registers that record the trap.
pub proof fn lemma_illegal_instruction_is_skipped(m: MachineView, regs: EcallFrame)
    requires
        m.state == RunState::Running,
    ensures
        m.raise(CAUSE_ILLEGAL_INSTRUCTION, regs).0.hart.pc == m.hart.pc.wrapping_add(
            if m.mem[m.hart.pc] & 3 == 3 {
                4u32
            } else {
                2u32
            },
        ),
        m.raise(CAUSE_ILLEGAL_INSTRUCTION, regs).0.hart.mode == m.hart.mode,
        m.raise(CAUSE_ILLEGAL_INSTRUCTION, regs).0.state == RunState::Running,
        m.raise(CAUSE_ILLEGAL_INSTRUCTION, regs).1 == regs,
        m.raise(CAUSE_ILLEGAL_INSTRUCTION, regs).0 == (MachineView {
            hart: HartView {
                pc: m.raise(CAUSE_ILLEGAL_INSTRUCTION, regs).0.hart.pc,
                mepc: m.raise(CAUSE_ILLEGAL_INSTRUCTION, regs).0.hart.pc,
                mcause: CAUSE_ILLEGAL_INSTRUCTION,
                mstatus: m.hart.mstatus & !MSTATUS_MPP,
                ..m.hart
            },
            ..m
        }),
{
    lemma_previous_privilege(m.hart.mstatus, m.hart.mode);
    let lo = m.mem[m.hart.pc];
    let hi = m.mem[m.hart.pc.wrapping_add(1)];
    assert((((lo as u16) | ((hi as u16) << 8)) & 3 == 3) == (lo & 3 == 3)) by (bit_vector);
    let status = m.hart.mstatus;
    assert((status | 0x1800) & !0x1800u32 == status & !0x1800u32 && (status & !0x1800u32)
        & !0x1800u32 == status & !0x1800u32) by (bit_vector);
}

/// Whatever the trap, the dispatcher leaves the protection registers, the
/// interrupt-enable register and the configuration of control-flow integrity
/// as they were.
pub proof fn lemma_trap_keeps_protection(m: MachineView, cause: u32, regs: EcallFrame)
    ensures
        m.raise(cause, regs).0.hart.pmp == m.hart.pmp,
        m.raise(cause, regs).0.hart.mie == m.hart.mie,
        m.raise(cause, regs).0.hart.menvcfg == m.hart.menvcfg,
        m.raise(cause, regs).0.hart.senvcfg == m.hart.senvcfg,
        m.raise(cause, regs).0.hart.mtvec == m.hart.mtvec,
{
}

/// A violation of control-flow integrity ends the run: the diagnostic is
/// the last thing transmitted, the hart stops for good and the test
/// finisher hears nothing.
pub proof fn lemma_cfi_fault_is_fatal(m: MachineView, fault: CfiFault, regs: EcallFrame)
    requires
        m.state == RunState::Running,
    ensures
        m.raise(fault_cause(fault), regs).0.state == RunState::Halted(Halt::CfiViolation),
        m.raise(fault_cause(fault), regs).0.uart == m.uart + cfi_diagnostic(),
        m.raise(fault_cause(fault), regs).0.finisher == m.finisher,
        m.raise(fault_cause(fault), regs).0.mem == m.mem,
{
}

} // verus!
