//! The bare demonstration program: boot without a kernel behind it, a trap
//! handler that only steps over what the hart does not know, and a short
//! report of a broken invariant.

use crate::cfi::{ShadowStackView, ENVCFG_LPE, ENVCFG_SSE};
use crate::hart::HartView;
use crate::kernel::Location;
use crate::layout::Symbols;
use crate::machine::{Halt, Machine, MachineView, RunState};
use crate::memory::{copied, copy_range, filled, half_at, span, zero_range};
use crate::trap::{illegal_instruction_length, instruction_length};
use crate::uart::{dec_text, newline_text, uart_newline, uart_put_dec, uart_puts};
use vstd::prelude::*;
use vstd::string::StringSliceAdditionalSpecFns;

verus! {

/// First line of the report of a broken invariant.
pub const PANIC_HEADING: &'static str = "\r\n!!! PANIC !!!\r\n";

/// What introduces the place of a broken invariant.
pub const PANIC_AT: &'static str = "  at ";

/// What stands between the file and the line.
pub const PANIC_COLON: &'static str = ":";

/// The report of a broken invariant, after what was transmitted before it.
pub open spec fn panic_log(before: Seq<u8>, location: Option<Location>) -> Seq<u8> {
    match location {
        Some(at) => before + PANIC_HEADING.spec_bytes() + PANIC_AT.spec_bytes()
            + at.file.spec_bytes() + PANIC_COLON.spec_bytes() + dec_text(at.line as nat)
            + newline_text(),
        None => before + PANIC_HEADING.spec_bytes(),
    }
}

impl HartView {
    /// The hart when the boot code of the demonstration calls its main
    /// routine: on its stack, with the trap vector installed, landing pads
    /// and the hardware shadow stack enabled where the hart has them, and
    /// both shadow stacks empty where the link step put them. The names of
    /// the kernel's places in `sym` stand for the program's own.
    pub open spec fn demo_boot(self, sym: Symbols) -> HartView {
        HartView {
            sp: sym.m_stack_top,
            mtvec: sym.trap_handler,
            menvcfg: if self.has_cfi {
                self.menvcfg | (ENVCFG_LPE | ENVCFG_SSE)
            } else {
                self.menvcfg
            },
            hw: if self.has_cfi {
                ShadowStackView { ptr: sym.m_shadow_stack_top, words: Seq::empty() }
            } else {
                self.hw
            },
            sw: ShadowStackView { ptr: sym.m_sw_shadow_stack_bottom, words: Seq::empty() },
            ..self
        }
    }
}

impl MachineView {
    /// The machine when the boot code of the demonstration calls its main
    /// routine. A hart that has stopped stays as it is.
    pub open spec fn after_demo_start(self, sym: Symbols) -> MachineView {
        if self.state != RunState::Running {
            self
        } else {
            MachineView {
                hart: self.hart.demo_boot(sym),
                mem: copied(
                    filled(self.mem, sym.m_bss_start, span(sym.m_bss_start, sym.m_bss_end), 0),
                    sym.m_data_start,
                    sym.m_data_load,
                    span(sym.m_data_start, sym.m_data_end),
                ),
                ..self
            }
        }
    }

    /// The machine after the demonstration's trap handler: whatever the
    /// cause, the exception program counter is moved past the instruction
    /// it points at, by that instruction's own length, and execution
    /// resumes. A hart that has stopped stays as it is.
    pub open spec fn after_demo_trap(self) -> MachineView {
        if self.state != RunState::Running {
            self
        } else {
            MachineView {
                hart: HartView {
                    mepc: self.hart.mepc.wrapping_add(
                        instruction_length(half_at(self.mem, self.hart.mepc)),
                    ),
                    ..self.hart
                },
                ..self
            }.resume()
        }
    }

    /// The machine after the demonstration has reported a broken invariant
    /// and stopped. A hart that has stopped before stays as it is.
    pub open spec fn after_demo_panic(self, location: Option<Location>) -> MachineView {
        if self.state != RunState::Running {
            self
        } else {
            MachineView {
                uart: panic_log(self.uart, location),
                state: RunState::Halted(Halt::Panic),
                ..self
            }
        }
    }
}

/// What the hart does from reset in the demonstration, up to the call of
/// the main routine.
pub fn _start(m: &mut Machine, sym: &Symbols)
    ensures
        final(m)@ == old(m)@.after_demo_start(*sym),
{
    if !m.is_running() {
        return;
    }
    m.hart.sp = sym.m_stack_top;
    m.hart.mtvec = sym.trap_handler;
    zero_range(&mut m.mem, sym.m_bss_start, sym.m_bss_end);
    copy_range(&mut m.mem, sym.m_data_start, sym.m_data_end, sym.m_data_load);
    if m.hart.has_cfi {
        m.hart.menvcfg = m.hart.menvcfg | (ENVCFG_LPE | ENVCFG_SSE);
        m.hart.hw.switch_to(sym.m_shadow_stack_top);
    }
    m.hart.sw.switch_to(sym.m_sw_shadow_stack_bottom);
}

/// The demonstration's trap handler: it steps over the instruction that
/// trapped.
pub fn _trap_handler(m: &mut Machine)
    ensures
        final(m)@ == old(m)@.after_demo_trap(),
{
    if !m.is_running() {
        return;
    }
    let half = m.mem.read_half(m.hart.mepc);
    m.hart.mepc = m.hart.mepc.wrapping_add(illegal_instruction_length(half));
    m.hart.mret();
}

/// Reports a broken invariant on the serial port, with the place where it
/// was found if that is known, and stops the hart for good.
pub fn panic(m: &mut Machine, location: Option<Location>)
    ensures
        final(m)@ == old(m)@.after_demo_panic(location),
{
    if !m.is_running() {
        return;
    }
    uart_puts(&mut m.uart, PANIC_HEADING);
    match location {
        Some(at) => {
            uart_puts(&mut m.uart, PANIC_AT);
            uart_puts(&mut m.uart, at.file);
            uart_puts(&mut m.uart, PANIC_COLON);
            uart_put_dec(&mut m.uart, at.line);
            uart_newline(&mut m.uart);
        },
        None => {},
    }
    m.state = RunState::Halted(Halt::Panic);
}

} // verus!
