//! The kernel: boot, the bring-up of its protections, and the hand-over to
//! the application.

use crate::cfi::{ShadowStackView, ENVCFG_LPE, ENVCFG_SSE};
use crate::hart::{Hart, HartView, MSTATUS_MPP};
use crate::layout::{in_region, Symbols, M_RAM_BASE, M_RAM_SIZE, U_CODE_BASE, U_CODE_SIZE};
use crate::machine::{Halt, Machine, MachineView, RunState};
use crate::memory::{copied, copy_range, filled, span, zero_range};
use crate::pmp::{
    configure_pmp, lemma_with_policy, with_policy, Privilege, PMP_NOTICE, PMP_REPORT,
};
use crate::services::{measurement, rot_measure_firmware, rot_seal_secret, sealed};
use crate::trap::lemma_previous_privilege;
use crate::uart::{
    dec_text, hex32_text, newline_text, uart_newline, uart_put_dec, uart_put_hex32, uart_puts,
    Uart,
};
use vstd::prelude::*;
use vstd::string::StringSliceAdditionalSpecFns;

verus! {

/// What the kernel says while it switches control-flow integrity on.
pub const CFI_REPORT: &'static str = "[CFI] Enabling hardware CFI extensions...\r\n  menvcfg: set LPE (bit 2) + SSE (bit 3)\r\n  senvcfg: set LPE (bit 2) + SSE (bit 3)\r\n  ssp: initialized to _m_shadow_stack_top (M-mode)\r\n[CFI] Hardware CFI enabled (or NOPs on unsupported HW).\r\n\r\n";

/// What the kernel says before it hands over to the application.
pub const LAUNCH_REPORT: &'static str = "[LAUNCH] Dropping to U-mode...\r\n  mepc  -> _u_entry (U-mode entry point)\r\n  MPP   -> 0b00 (User mode)\r\n  sp    -> _u_stack_top\r\n  ssp   -> _u_shadow_stack_top\r\n  gp    -> _u_sw_shadow_stack_bottom\r\n\r\n";

/// The first lines the kernel transmits, up to the heading of its first phase.
pub const BANNER: &'static str = "================================================================\r\n  RISC-V Root of Trust — CFI + PMP Isolation Demo\r\n  RV32IMAC + Zicfilp + Zicfiss + PMP\r\n================================================================\r\n\r\n── Phase 1: CFI Initialization ─────────────────────────────\r\n";

/// Heading of the phase that programs memory protection.
pub const PMP_HEADING: &'static str = "── Phase 2: PMP Configuration ──────────────────────────────\r\n";

/// Heading of the phase that measures the firmware, up to the measurement itself.
pub const MEASURE_HEADING: &'static str = "── Phase 3: Firmware Measurement ───────────────────────────\r\n[MEASURE] Computing firmware measurement over U_CODE region...\r\n  Measurement (XOR hash): ";

/// What follows the measurement, up to the heading of the sealing phase.
pub const MEASURE_NOTE: &'static str = "  (Real RoT would compare against OTP-stored golden hash)\r\n\r\n── Phase 4: Secret Sealing (RoT Key Service) ───────────────\r\n";

/// What introduces the sealed value.
pub const SEAL_HEADING: &'static str = "  seal(0xDEADBEEF, key_id=1) = ";

/// What follows the sealed value, up to the summary before the launch.
pub const SEAL_NOTE: &'static str = "  (Stub: XOR-based, real RoT uses AES-GCM/HMAC)\r\n\r\n── Phase 5: U-Mode Launch ──────────────────────────────────\r\n[LAUNCH] Security state summary:\r\n  - Hardware CFI: Zicfilp (landing pads) + Zicfiss (shadow stack)\r\n  - Software CFI: gp-based shadow stack (fallback for non-Zicfiss)\r\n  - PMP: 8 entries isolating M-mode / U-mode regions\r\n  - Privilege: Dropping from M-mode -> U-mode via mret\r\n  - W^X: U-mode code is RX, U-mode data is RW (no RWX)\r\n  - U-mode services: ecall to M-mode for UART, crypto, etc.\r\n\r\n";

/// First line of the report of a broken invariant.
pub const PANIC_HEADING: &'static str = "\r\n!!! ROOT OF TRUST PANIC !!!\r\n";

/// What introduces the place of a broken invariant.
pub const PANIC_AT: &'static str = "  at ";

/// What stands between the file and the line.
pub const PANIC_COLON: &'static str = ":";

/// Last line of the report of a broken invariant.
pub const PANIC_HALTED: &'static str = "  SYSTEM HALTED — security invariant violated\r\n";

/// The secret that the kernel seals at boot.
pub const BOOT_SECRET: u32 = 0xDEAD_BEEF;

/// The key under which the kernel seals at boot.
pub const BOOT_KEY: u32 = 1;

/// Where a broken invariant was found.
#[derive(Clone, Copy, Debug)]
pub struct Location<'a> {
    pub file: &'a str,
    pub line: u32,
}

impl HartView {
    /// The hart after the kernel has switched control-flow integrity on:
    /// landing pads and the hardware shadow stack are enabled in both
    /// environment-configuration registers, and the hardware shadow stack
    /// starts empty where the link step put the kernel's. On a hart without
    /// these features the registers do not exist, the kernel steps over each
    /// access, and the hart is as before.
    pub open spec fn enable_cfi(self, sym: Symbols) -> HartView {
        if self.has_cfi {
            HartView {
                menvcfg: self.menvcfg | (ENVCFG_LPE | ENVCFG_SSE),
                senvcfg: self.senvcfg | (ENVCFG_LPE | ENVCFG_SSE),
                hw: ShadowStackView { ptr: sym.m_shadow_stack_top, words: Seq::empty() },
                ..self
            }
        } else {
            self
        }
    }

    /// The hart as the application finds it: user mode at the application's
    /// entry, on the application's stack, with both shadow stacks empty where
    /// the link step put the application's. On a hart without a hardware
    /// shadow stack its pointer does not exist and that stack is as before.
    pub open spec fn launch(self, sym: Symbols) -> HartView {
        HartView {
            mode: Privilege::User,
            pc: sym.u_entry,
            mepc: sym.u_entry,
            mstatus: self.mstatus & !MSTATUS_MPP,
            sp: sym.u_stack_top,
            hw: if self.has_cfi {
                ShadowStackView { ptr: sym.u_shadow_stack_top, words: Seq::empty() }
            } else {
                self.hw
            },
            sw: ShadowStackView { ptr: sym.u_sw_shadow_stack_bottom, words: Seq::empty() },
            ..self
        }
    }

    /// The hart when the boot code calls the kernel's main routine: on the
    /// kernel stack, with the trap vector installed and the software shadow
    /// stack empty where the link step put the kernel's.
    pub open spec fn boot(self, sym: Symbols) -> HartView {
        HartView {
            sp: sym.m_stack_top,
            mtvec: sym.trap_handler,
            sw: ShadowStackView { ptr: sym.m_sw_shadow_stack_bottom, words: Seq::empty() },
            ..self
        }
    }
}

/// Everything the kernel's main routine transmits, after what was
/// transmitted before it: the banner, the reports of its phases, the
/// measurement `measured` and the sealed value `seal` in hexadecimal, and the
/// summary before the launch.
pub open spec fn boot_log(before: Seq<u8>, measured: u32, seal: u32) -> Seq<u8> {
    before + BANNER.spec_bytes() + CFI_REPORT.spec_bytes() + PMP_HEADING.spec_bytes()
        + PMP_NOTICE.spec_bytes() + PMP_REPORT.spec_bytes() + MEASURE_HEADING.spec_bytes()
        + hex32_text(measured) + newline_text() + MEASURE_NOTE.spec_bytes()
        + SEAL_HEADING.spec_bytes() + hex32_text(seal) + newline_text() + SEAL_NOTE.spec_bytes()
        + LAUNCH_REPORT.spec_bytes()
}

/// The report of a broken invariant, after what was transmitted before it.
pub open spec fn panic_log(before: Seq<u8>, location: Option<Location>) -> Seq<u8> {
    match location {
        Some(at) => before + PANIC_HEADING.spec_bytes() + PANIC_AT.spec_bytes()
            + at.file.spec_bytes() + PANIC_COLON.spec_bytes() + dec_text(at.line as nat)
            + newline_text() + PANIC_HALTED.spec_bytes(),
        None => before + PANIC_HEADING.spec_bytes() + PANIC_HALTED.spec_bytes(),
    }
}

impl MachineView {
    /// The machine after the kernel's main routine: control-flow integrity
    /// switched on, the isolation policy programmed, the firmware measured
    /// and a secret sealed, all of it reported, and the application
    /// launched. A hart that has stopped stays as it is.
    pub open spec fn after_rot_main(self, sym: Symbols) -> MachineView {
        if self.state != RunState::Running {
            self
        } else {
            MachineView {
                hart: HartView {
                    pmp: with_policy(self.hart.pmp),
                    ..self.hart.enable_cfi(sym)
                }.launch(sym),
                uart: boot_log(
                    self.uart,
                    measurement(self.mem, U_CODE_BASE, U_CODE_SIZE),
                    sealed(BOOT_SECRET, BOOT_KEY),
                ),
                ..self
            }
        }
    }

    /// The machine when the boot code calls the kernel's main routine: the
    /// hart set up, the kernel's uninitialised data zero, and its initialised
    /// data copied from where it is stored to where it lives.
    pub open spec fn after_boot_prologue(self, sym: Symbols) -> MachineView {
        MachineView {
            hart: self.hart.boot(sym),
            mem: copied(
                filled(self.mem, sym.m_bss_start, span(sym.m_bss_start, sym.m_bss_end), 0),
                sym.m_data_start,
                sym.m_data_load,
                span(sym.m_data_start, sym.m_data_end),
            ),
            ..self
        }
    }

    /// The machine after reset has run its course: the boot prologue, then
    /// the kernel's main routine. A hart that has stopped stays as it is.
    pub open spec fn after_start(self, sym: Symbols) -> MachineView {
        if self.state != RunState::Running {
            self
        } else {
            self.after_boot_prologue(sym).after_rot_main(sym)
        }
    }

    /// The machine after the kernel has reported a broken invariant and
    /// stopped. A hart that has stopped before stays as it is.
    pub open spec fn after_panic(self, location: Option<Location>) -> MachineView {
        if self.state != RunState::Running {
            self
        } else {
            MachineView {
                uart: panic_log(self.uart, location),
                state: RunState::Halted(Halt::Panic),
                ..self
            }
        }
    }
}

/// Switches control-flow integrity on and reports on the serial port.
pub fn enable_cfi(hart: &mut Hart, uart: &mut Uart, sym: &Symbols)
    ensures
        final(hart)@ == old(hart)@.enable_cfi(*sym),
        final(uart)@ == old(uart)@ + CFI_REPORT.spec_bytes(),
{
    if hart.has_cfi {
        hart.menvcfg = hart.menvcfg | (ENVCFG_LPE | ENVCFG_SSE);
        hart.senvcfg = hart.senvcfg | (ENVCFG_LPE | ENVCFG_SSE);
        hart.hw.switch_to(sym.m_shadow_stack_top);
    }
    uart_puts(uart, CFI_REPORT);
}

/// Reports on the serial port, then drops to user mode at the application's
/// entry.
pub fn launch_umode(hart: &mut Hart, uart: &mut Uart, sym: &Symbols)
    ensures
        final(hart)@ == old(hart)@.launch(*sym),
        final(uart)@ == old(uart)@ + LAUNCH_REPORT.spec_bytes(),
{
    uart_puts(uart, LAUNCH_REPORT);
    hart.mstatus = hart.mstatus & !MSTATUS_MPP;
    hart.mepc = sym.u_entry;
    hart.sp = sym.u_stack_top;
    if hart.has_cfi {
        hart.hw.switch_to(sym.u_shadow_stack_top);
    }
    hart.sw.switch_to(sym.u_sw_shadow_stack_bottom);
    proof {
        let before = old(hart).mstatus;
        let cleared = hart.mstatus;
        lemma_previous_privilege(before, Privilege::User);
        assert(cleared & !0x1800u32 == cleared) by (bit_vector)
            requires
                cleared == before & !0x1800u32,
        ;
    }
    hart.mret();
}

/// The kernel's main routine.
pub fn rot_main(m: &mut Machine, sym: &Symbols)
    ensures
        final(m)@ == old(m)@.after_rot_main(*sym),
{
    if !m.is_running() {
        return;
    }
    uart_puts(&mut m.uart, BANNER);
    enable_cfi(&mut m.hart, &mut m.uart, sym);
    uart_puts(&mut m.uart, PMP_HEADING);
    configure_pmp(&mut m.hart.pmp, &mut m.uart);
    uart_puts(&mut m.uart, MEASURE_HEADING);
    let measured = rot_measure_firmware(&mut m.hart, &m.mem, U_CODE_BASE, U_CODE_SIZE);
    uart_put_hex32(&mut m.uart, measured);
    uart_newline(&mut m.uart);
    uart_puts(&mut m.uart, MEASURE_NOTE);
    uart_puts(&mut m.uart, SEAL_HEADING);
    let seal = rot_seal_secret(&mut m.hart, BOOT_SECRET, BOOT_KEY);
    uart_put_hex32(&mut m.uart, seal);
    uart_newline(&mut m.uart);
    uart_puts(&mut m.uart, SEAL_NOTE);
    launch_umode(&mut m.hart, &mut m.uart, sym);
}

/// What the hart does from reset: it sets up its stack, installs the trap
/// vector, clears the kernel's uninitialised data, copies its initialised
/// data into place, sets up the software shadow stack, and calls the
/// kernel's main routine.
pub fn _start(m: &mut Machine, sym: &Symbols)
    ensures
        final(m)@ == old(m)@.after_start(*sym),
{
    if !m.is_running() {
        return;
    }
    m.hart.sp = sym.m_stack_top;
    m.hart.mtvec = sym.trap_handler;
    zero_range(&mut m.mem, sym.m_bss_start, sym.m_bss_end);
    copy_range(&mut m.mem, sym.m_data_start, sym.m_data_end, sym.m_data_load);
    m.hart.sw.switch_to(sym.m_sw_shadow_stack_bottom);
    rot_main(m, sym);
}

/// Reports a broken invariant on the serial port, with the place where it
/// was found if that is known, and stops the hart for good.
pub fn panic(m: &mut Machine, location: Option<Location>)
    ensures
        final(m)@ == old(m)@.after_panic(location),
{
    if !m.is_running() {
        return;
    }
    uart_puts(&mut m.uart, PANIC_HEADING);
    match location {
        Some(at) => {
            uart_puts(&mut m.uart, PANIC_AT);
            uart_puts(&mut m.uart, at.file);
            uart_puts(&mut m.uart, PANIC_COLON);
            uart_put_dec(&mut m.uart, at.line);
            uart_newline(&mut m.uart);
        },
        None => {},
    }
    uart_puts(&mut m.uart, PANIC_HALTED);
    m.state = RunState::Halted(Halt::Panic);
}

/// Boot establishes the protections that the application then lives under.
/// From a running hart whose upper protection entries are off, as they are
/// after reset, the machine arrives at the application's entry in user mode,
/// on the application's stack and shadow stacks, with the isolation policy
/// and nothing else in the protection registers, with landing pads and the
/// hardware shadow stack in force where the hart has them, and with the
/// interrupt-enable register untouched.
pub proof fn lemma_boot_establishes_protection(m: MachineView, sym: Symbols)
    requires
        m.state == RunState::Running,
        m.hart.pmp.cfg[2] == 0,
        m.hart.pmp.cfg[3] == 0,
    ensures
        m.after_start(sym).in_user_mode(),
        m.after_start(sym).hart.pmp.holds_policy(),
        m.after_start(sym).hart.pc == sym.u_entry,
        m.after_start(sym).hart.sp == sym.u_stack_top,
        m.after_start(sym).hart.mtvec == sym.trap_handler,
        m.after_start(sym).hart.sw == (ShadowStackView {
            ptr: sym.u_sw_shadow_stack_bottom,
            words: Seq::empty(),
        }),
        m.hart.has_cfi ==> m.after_start(sym).hart.hw == (ShadowStackView {
            ptr: sym.u_shadow_stack_top,
            words: Seq::empty(),
        }),
        m.hart.has_cfi ==> m.after_start(sym).hart.landing_pads_active() && m.after_start(
            sym,
        ).hart.shadow_stack_active(),
        m.after_start(sym).hart.mie == m.hart.mie,
        m.after_start(sym).finisher == m.finisher,
{
    lemma_with_policy(m.hart.pmp);
    let cfg = m.hart.menvcfg;
    assert((cfg | (0x4u32 | 0x8u32)) & 0x4 != 0 && (cfg | (0x4u32 | 0x8u32)) & 0x8 != 0)
        by (bit_vector);
}

/// Whether the kernel's data sections lie where kernel data belongs: each
/// runs forward, inside the region of kernel data.
pub open spec fn data_sections_in_kernel_ram(sym: Symbols) -> bool {
    &&& M_RAM_BASE <= sym.m_bss_start <= sym.m_bss_end <= M_RAM_BASE + M_RAM_SIZE
    &&& M_RAM_BASE <= sym.m_data_start <= sym.m_data_end <= M_RAM_BASE + M_RAM_SIZE
}

/// With its data sections placed in kernel data, boot changes no byte of
/// memory outside kernel data: the application's memory and the kernel's
/// code are as they were when the application starts.
pub proof fn lemma_boot_touches_only_kernel_data(m: MachineView, sym: Symbols, a: u32)
    requires
        data_sections_in_kernel_ram(sym),
        !in_region(a, M_RAM_BASE, M_RAM_SIZE),
    ensures
        m.after_start(sym).mem[a] == m.mem[a],
{
}

} // verus!
