//! The application: how it asks the kernel for service, and what it does.

use crate::cfi::CfiFault;
use crate::hart::HartView;
use crate::kernel::{boot_log, BOOT_KEY, BOOT_SECRET};
use crate::layout::{Symbols, FINISHER_PASS, U_CODE_BASE, U_CODE_SIZE};
use crate::machine::{Halt, Machine, MachineView, RunState};
use crate::pmp::Privilege;
use crate::routines::{call_indirect, lemma_matching_site_lands, Routine};
use crate::services::{measurement, sealed};
use crate::trap::{
    lemma_previous_privilege, lemma_trap_keeps_protection, raise, EcallFrame,
    CAUSE_ECALL_FROM_MACHINE, CAUSE_ECALL_FROM_USER, SYS_EXIT, SYS_PUTC, SYS_PUTS,
};
use vstd::prelude::*;

verus! {

/// The cause that the hardware records for a request made at the given
/// privilege.
pub open spec fn ecall_cause(mode: Privilege) -> u32 {
    match mode {
        Privilege::User => CAUSE_ECALL_FROM_USER,
        Privilege::Machine => CAUSE_ECALL_FROM_MACHINE,
    }
}

/// The registers at a request for service `number` with arguments `a0` and
/// `a1`, in code whose return address is `ra`. The registers that a request
/// does not name hold zero.
pub open spec fn request(number: u32, a0: u32, a1: u32, ra: u32) -> EcallFrame {
    EcallFrame { ra, t0: 0, t1: 0, t2: 0, a0, a1, a2: 0, a7: number }
}

impl MachineView {
    /// The machine and the registers after the instruction that asks for
    /// service, executed with the registers `regs`: the hardware takes the
    /// trap and the dispatcher handles it. A hart that has stopped stays as
    /// it is.
    pub open spec fn ecall(self, regs: EcallFrame) -> (MachineView, EcallFrame) {
        self.raise(ecall_cause(self.hart.mode), regs)
    }

    /// The machine after the application has asked for service `number` with
    /// arguments `a0` and `a1`.
    pub open spec fn serve(self, number: u32, a0: u32, a1: u32) -> MachineView {
        self.ecall(request(number, a0, a1, self.hart.ra)).0
    }

    /// The machine after the application has run: it transmits `OK` and a
    /// line feed, one character at a time, and asks to end the run.
    pub open spec fn after_user_entry(self) -> MachineView {
        self.serve(SYS_PUTC, 0x4F, 0).serve(SYS_PUTC, 0x4B, 0).serve(SYS_PUTC, 0x0A, 0).serve(
            SYS_EXIT,
            0,
            0,
        )
    }

    /// Whether the hart runs in user mode.
    pub open spec fn in_user_mode(self) -> bool {
        self.state == RunState::Running && self.hart.mode == Privilege::User
    }
}

/// Asks the kernel for service with the registers `regs`, and leaves in
/// `regs` the registers that the code resumes with.
pub fn ecall(m: &mut Machine, regs: &mut EcallFrame)
    ensures
        (final(m)@, *final(regs)) == old(m)@.ecall(*old(regs)),
{
    let cause = match m.hart.mode {
        Privilege::User => CAUSE_ECALL_FROM_USER,
        Privilege::Machine => CAUSE_ECALL_FROM_MACHINE,
    };
    raise(m, cause, regs);
}

/// A request from user mode comes back to user mode, four bytes further on,
/// unless it asked to end the run; and it leaves the protection registers
/// and the interrupt-enable register as they were.
pub proof fn lemma_ecall_returns_to_user(m: MachineView, regs: EcallFrame)
    requires
        m.in_user_mode(),
    ensures
        regs.a7 != SYS_EXIT ==> m.ecall(regs).0.in_user_mode(),
        regs.a7 != SYS_EXIT ==> m.ecall(regs).0.hart.pc == m.hart.pc.wrapping_add(4),
        regs.a7 == SYS_EXIT ==> m.ecall(regs).0.state == RunState::Halted(Halt::Exit),
        m.ecall(regs).0.hart.pmp == m.hart.pmp,
        m.ecall(regs).0.hart.mie == m.hart.mie,
{
    lemma_previous_privilege(m.hart.mstatus, Privilege::User);
}

/// Transmits one character through the kernel.
pub fn sys_putc(m: &mut Machine, c: u8)
    ensures
        final(m)@ == old(m)@.serve(SYS_PUTC, c as u32, 0),
        old(m)@.in_user_mode() ==> final(m)@.in_user_mode() && final(m)@.uart == old(m)@.uart.push(
            c,
        ),
{
    let mut regs = EcallFrame {
        ra: m.hart.ra,
        t0: 0,
        t1: 0,
        t2: 0,
        a0: c as u32,
        a1: 0,
        a2: 0,
        a7: SYS_PUTC,
    };
    proof {
        if m@.in_user_mode() {
            lemma_ecall_returns_to_user(m@, regs);
        }
        assert(((c as u32) & 0xFF) as u8 == c) by (bit_vector);
    }
    ecall(m, &mut regs);
}

/// Transmits the `len` bytes at `ptr` through the kernel.
pub fn sys_puts(m: &mut Machine, ptr: u32, len: u32)
    ensures
        final(m)@ == old(m)@.serve(SYS_PUTS, ptr, len),
        old(m)@.in_user_mode() ==> final(m)@.in_user_mode(),
{
    let mut regs = EcallFrame {
        ra: m.hart.ra,
        t0: 0,
        t1: 0,
        t2: 0,
        a0: ptr,
        a1: len,
        a2: 0,
        a7: SYS_PUTS,
    };
    proof {
        if m@.in_user_mode() {
            lemma_ecall_returns_to_user(m@, regs);
        }
    }
    ecall(m, &mut regs);
}

/// Asks the kernel to end the run. The code is not looked at: the kernel
/// always reports a pass.
pub fn sys_exit(m: &mut Machine, code: u32)
    ensures
        final(m)@ == old(m)@.serve(SYS_EXIT, code, 0),
        old(m)@.in_user_mode() ==> final(m)@.state == RunState::Halted(Halt::Exit)
            && final(m)@.finisher == old(m)@.finisher.push(FINISHER_PASS) && final(m)@.uart == old(
            m,
        )@.uart,
{
    let mut regs = EcallFrame {
        ra: m.hart.ra,
        t0: 0,
        t1: 0,
        t2: 0,
        a0: code,
        a1: 0,
        a2: 0,
        a7: SYS_EXIT,
    };
    ecall(m, &mut regs);
}

/// The application. It calls two routines through pointers, which must
/// come back without a fault, then transmits `OK` and a line feed and ends
/// the run.
pub fn _u_entry(m: &mut Machine)
    ensures
        final(m)@ == old(m)@.after_user_entry(),
        old(m)@.in_user_mode() ==> final(m)@.state == RunState::Halted(Halt::Exit)
            && final(m)@.uart == old(m)@.uart + seq![0x4Fu8, 0x4Bu8, 0x0Au8] && final(m)@.finisher
            == old(m)@.finisher.push(FINISHER_PASS),
{
    proof {
        lemma_matching_site_lands(m@.hart, Routine::UAdd100, 0);
        lemma_matching_site_lands(m@.hart, Routine::UDouble, 0);
    }
    let sum = call_indirect(&mut m.hart, Routine::UAdd100, 0, 42);
    assert(sum == Ok::<u32, CfiFault>(142));
    let twice = call_indirect(&mut m.hart, Routine::UDouble, 0, 25);
    assert(twice == Ok::<u32, CfiFault>(50));
    sys_putc(m, 0x4F);
    sys_putc(m, 0x4B);
    sys_putc(m, 0x0A);
    sys_exit(m, 0);
}

/// Whatever state the application starts in, its run leaves the
/// protection registers, the interrupt-enable register and the configuration
/// of control-flow integrity as they were, and memory too.
pub proof fn lemma_application_keeps_protection(m: MachineView)
    ensures
        m.after_user_entry().hart.pmp == m.hart.pmp,
        m.after_user_entry().hart.mie == m.hart.mie,
        m.after_user_entry().hart.menvcfg == m.hart.menvcfg,
        m.after_user_entry().hart.mtvec == m.hart.mtvec,
        m.after_user_entry().mem == m.mem,
{
    let one = m.serve(SYS_PUTC, 0x4F, 0);
    let two = one.serve(SYS_PUTC, 0x4B, 0);
    let three = two.serve(SYS_PUTC, 0x0A, 0);
    lemma_trap_keeps_protection(
        m,
        ecall_cause(m.hart.mode),
        request(SYS_PUTC, 0x4F, 0, m.hart.ra),
    );
    lemma_trap_keeps_protection(
        one,
        ecall_cause(one.hart.mode),
        request(SYS_PUTC, 0x4B, 0, one.hart.ra),
    );
    lemma_trap_keeps_protection(
        two,
        ecall_cause(two.hart.mode),
        request(SYS_PUTC, 0x0A, 0, two.hart.ra),
    );
    lemma_trap_keeps_protection(
        three,
        ecall_cause(three.hart.mode),
        request(SYS_EXIT, 0, 0, three.hart.ra),
    );
}

/// The application, started in user mode, transmits `OK` and a line feed,
/// reports a pass to the test finisher and stops; it transmits nothing else
/// and reports nothing else.
pub proof fn lemma_application_passes(m: MachineView)
    requires
        m.in_user_mode(),
    ensures
        m.after_user_entry().state == RunState::Halted(Halt::Exit),
        m.after_user_entry().uart == m.uart + seq![0x4Fu8, 0x4Bu8, 0x0Au8],
        m.after_user_entry().finisher == m.finisher.push(FINISHER_PASS),
{
    let one = m.serve(SYS_PUTC, 0x4F, 0);
    let two = one.serve(SYS_PUTC, 0x4B, 0);
    let three = two.serve(SYS_PUTC, 0x0A, 0);
    lemma_ecall_returns_to_user(m, request(SYS_PUTC, 0x4F, 0, m.hart.ra));
    lemma_ecall_returns_to_user(one, request(SYS_PUTC, 0x4B, 0, one.hart.ra));
    lemma_ecall_returns_to_user(two, request(SYS_PUTC, 0x0A, 0, two.hart.ra));
    assert(0x4Fu32 & 0xFF == 0x4F && 0x4Bu32 & 0xFF == 0x4B && 0x0Au32 & 0xFF == 0x0A)
        by (bit_vector);
    assert(three.uart =~= m.uart + seq![0x4Fu8, 0x4Bu8, 0x0Au8]);
}

/// From reset to the end of the run: on any hart, with or without landing
/// pads and a hardware shadow stack, whatever memory holds and wherever the
/// link step put things, the kernel boots, the application runs, and the
/// run ends with a pass. The serial port has received the kernel's report,
/// then `OK` and a line feed, and nothing after that.
pub proof fn lemma_boot_then_application_passes(m: MachineView, sym: Symbols)
    requires
        m.state == RunState::Running,
    ensures
        m.after_start(sym).after_user_entry().state == RunState::Halted(Halt::Exit),
        m.after_start(sym).after_user_entry().finisher == m.finisher.push(FINISHER_PASS),
        m.after_start(sym).after_user_entry().uart == boot_log(
            m.uart,
            measurement(m.after_boot_prologue(sym).mem, U_CODE_BASE, U_CODE_SIZE),
            sealed(BOOT_SECRET, BOOT_KEY),
        ) + seq![0x4Fu8, 0x4Bu8, 0x0Au8],
{
    lemma_application_passes(m.after_start(sym));
}

} // verus!
