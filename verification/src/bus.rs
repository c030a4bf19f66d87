//! Memory accesses as the hart makes them: checked against the protection
//! registers, and trapped when refused.

use crate::layout::{
    in_region, M_RAM_BASE, M_RAM_SIZE, M_SHADOW_BASE, M_SHADOW_SIZE, ROM_BASE, ROM_SIZE,
};
use crate::machine::{Machine, MachineView, RunState};
use crate::pmp::{
    lemma_kernel_code_immutable, lemma_kernel_data_closed_to_user, pmp_check, Access,
};
use crate::trap::{
    lemma_trap_keeps_protection, raise, EcallFrame, CAUSE_INSTRUCTION_ACCESS_FAULT,
    CAUSE_LOAD_ACCESS_FAULT, CAUSE_STORE_ACCESS_FAULT,
};
use vstd::prelude::*;

verus! {

/// The cause that the hardware records for a refused access of the given
/// kind.
pub open spec fn access_fault_cause(access: Access) -> u32 {
    match access {
        Access::Read => CAUSE_LOAD_ACCESS_FAULT,
        Access::Write => CAUSE_STORE_ACCESS_FAULT,
        Access::Execute => CAUSE_INSTRUCTION_ACCESS_FAULT,
    }
}

impl MachineView {
    /// Whether the hart, at its present privilege, may access byte address
    /// `a` in the given way.
    pub open spec fn may_access(self, a: u32, access: Access) -> bool {
        self.hart.pmp.allows(self.hart.mode, a, access)
    }

    /// Whether an access by the running hart goes through.
    pub open spec fn access_succeeds(self, a: u32, access: Access) -> bool {
        self.state == RunState::Running && self.may_access(a, access)
    }

    /// The machine after the hart has tried to access byte address `a` in the
    /// given way: nothing changes if the access is allowed, else the
    /// access-fault trap is taken and handled. A hart that has stopped stays
    /// as it is.
    pub open spec fn after_access(self, a: u32, access: Access) -> MachineView {
        if self.state != RunState::Running || self.may_access(a, access) {
            self
        } else {
            self.raise(access_fault_cause(access), no_request()).0
        }
    }

    /// The machine after the hart has tried to store `value` at `a`. A store
    /// that is allowed goes where its address leads: to the serial port, or
    /// to memory.
    pub open spec fn after_store(self, a: u32, value: u8) -> MachineView {
        if self.access_succeeds(a, Access::Write) {
            self.write_byte(a, value)
        } else {
            self.after_access(a, Access::Write)
        }
    }
}

/// Registers that ask for nothing. A trap that is no request for service
/// does not look at the registers.
pub open spec fn no_request() -> EcallFrame {
    EcallFrame { ra: 0, t0: 0, t1: 0, t2: 0, a0: 0, a1: 0, a2: 0, a7: 0 }
}

/// Checks an access of the running hart against the protection registers
/// and takes the access-fault trap if it is refused. Says whether the
/// access may go ahead.
pub fn try_access(m: &mut Machine, a: u32, access: Access) -> (ok: bool)
    ensures
        ok == old(m)@.access_succeeds(a, access),
        final(m)@ == old(m)@.after_access(a, access),
{
    if !m.is_running() {
        return false;
    }
    if pmp_check(&m.hart.pmp, m.hart.mode, a, access) {
        return true;
    }
    let cause = match access {
        Access::Read => CAUSE_LOAD_ACCESS_FAULT,
        Access::Write => CAUSE_STORE_ACCESS_FAULT,
        Access::Execute => CAUSE_INSTRUCTION_ACCESS_FAULT,
    };
    let mut regs = EcallFrame { ra: 0, t0: 0, t1: 0, t2: 0, a0: 0, a1: 0, a2: 0, a7: 0 };
    raise(m, cause, &mut regs);
    false
}

/// Loads the byte at `a` at the hart's present privilege; `None` if the
/// load is refused, in which case the trap was taken.
pub fn load_byte(m: &mut Machine, a: u32) -> (b: Option<u8>)
    ensures
        b == (if old(m)@.access_succeeds(a, Access::Read) {
            Some(old(m)@.mem[a])
        } else {
            None
        }),
        final(m)@ == old(m)@.after_access(a, Access::Read),
{
    if try_access(m, a, Access::Read) {
        Some(m.mem.read_byte(a))
    } else {
        None
    }
}

/// Stores `value` at `a` at the hart's present privilege; says whether the
/// store went through. If it is refused the trap was taken.
pub fn store_byte(m: &mut Machine, a: u32, value: u8) -> (ok: bool)
    ensures
        ok == old(m)@.access_succeeds(a, Access::Write),
        final(m)@ == old(m)@.after_store(a, value),
{
    if !try_access(m, a, Access::Write) {
        return false;
    }
    m.write_byte(a, value);
    true
}

/// Under the isolation policy a load, store or fetch that user mode aims
/// at kernel data or at the kernel shadow stacks does not go through: the
/// hart traps and stops, and memory is as it was.
pub proof fn lemma_kernel_data_access_traps(m: MachineView, a: u32, access: Access, value: u8)
    requires
        m.in_user_mode(),
        m.hart.pmp.holds_policy(),
        in_region(a, M_RAM_BASE, M_RAM_SIZE) || in_region(a, M_SHADOW_BASE, M_SHADOW_SIZE),
    ensures
        !m.access_succeeds(a, access),
        m.after_access(a, access).state is Halted,
        m.after_access(a, access).mem == m.mem,
        m.after_store(a, value).mem == m.mem,
{
    lemma_kernel_data_closed_to_user(m.hart.pmp, a, access);
    lemma_kernel_data_closed_to_user(m.hart.pmp, a, Access::Write);
}

/// Under the isolation policy a store that any privilege aims at kernel
/// code does not go through.
pub proof fn lemma_kernel_code_store_traps(m: MachineView, a: u32, value: u8)
    requires
        m.state == RunState::Running,
        m.hart.pmp.holds_policy(),
        in_region(a, ROM_BASE, ROM_SIZE),
    ensures
        !m.access_succeeds(a, Access::Write),
        m.after_store(a, value).state is Halted,
        m.after_store(a, value).mem == m.mem,
{
    lemma_kernel_code_immutable(m.hart.pmp, m.hart.mode, a);
}

/// No load, store or fetch, allowed or refused, changes the protection
/// registers or the interrupt-enable register.
pub proof fn lemma_access_keeps_protection(m: MachineView, a: u32, access: Access, value: u8)
    ensures
        m.after_access(a, access).hart.pmp == m.hart.pmp,
        m.after_access(a, access).hart.mie == m.hart.mie,
        m.after_store(a, value).hart.pmp == m.hart.pmp,
        m.after_store(a, value).hart.mie == m.hart.mie,
{
    lemma_trap_keeps_protection(m, access_fault_cause(access), no_request());
    lemma_trap_keeps_protection(m, access_fault_cause(Access::Write), no_request());
}

} // verus!
