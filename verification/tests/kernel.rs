use rot_kernel::cfi::{CfiFault, ShadowStack, ENVCFG_LPE, ENVCFG_SSE};
use rot_kernel::kernel::{_start, enable_cfi, launch_umode, rot_main, Location};
use rot_kernel::layout::Symbols;
use rot_kernel::machine::{Halt, Machine, RunState};
use rot_kernel::pmp::Privilege;
use rot_kernel::services::{rot_measure_firmware, xor_region};
use rot_kernel::trap::{cause_of_fault, raise, EcallFrame};
use rot_kernel::uart::Uart;
use rot_kernel::user::_u_entry;

/// A run of box-drawing dashes.
fn dashes(n: usize) -> String {
    "\u{2500}".repeat(n)
}

/// A phase heading: two dashes, the title, and a run of dashes after it.
fn heading(title: &str, run: usize) -> String {
    format!("{} {} {}\r\n", dashes(2), title, dashes(run))
}

const RULE: &str = "================================================================\r\n";

const CFI_LINES: [&str; 5] = [
    "[CFI] Enabling hardware CFI extensions...\r\n",
    "  menvcfg: set LPE (bit 2) + SSE (bit 3)\r\n",
    "  senvcfg: set LPE (bit 2) + SSE (bit 3)\r\n",
    "  ssp: initialized to _m_shadow_stack_top (M-mode)\r\n",
    "[CFI] Hardware CFI enabled (or NOPs on unsupported HW).\r\n\r\n",
];

const PMP_LINES: [&str; 10] = [
    "[PMP] Configuring Physical Memory Protection...\r\n",
    "  Entry 0: ROM (M-mode code)     Locked R-X  64K @ 0x80000000\r\n",
    "  Entry 1: M_RAM (M-mode data)    Deny U     32K @ 0x80010000\r\n",
    "  Entry 2: M_SHADOW (M-mode SS)   Deny U      8K @ 0x80018000\r\n",
    "  Entry 3: U_CODE (U-mode code)   U: R-X    128K @ 0x80020000\r\n",
    "  Entry 4: U_RODATA               U: R--     32K @ 0x80040000\r\n",
    "  Entry 5: U_RAM (U-mode data)    U: RW-     64K @ 0x80048000\r\n",
    "  Entry 6: U_SHADOW (U-mode SS)   U: RW-      8K @ 0x80058000\r\n",
    "  Entry 7: UART MMIO              U: RW-      4K @ 0x10000000\r\n",
    "[PMP] Configuration complete.\r\n\r\n",
];

const SUMMARY_LINES: [&str; 7] = [
    "[LAUNCH] Security state summary:\r\n",
    "  - Hardware CFI: Zicfilp (landing pads) + Zicfiss (shadow stack)\r\n",
    "  - Software CFI: gp-based shadow stack (fallback for non-Zicfiss)\r\n",
    "  - PMP: 8 entries isolating M-mode / U-mode regions\r\n",
    "  - Privilege: Dropping from M-mode -> U-mode via mret\r\n",
    "  - W^X: U-mode code is RX, U-mode data is RW (no RWX)\r\n",
    "  - U-mode services: ecall to M-mode for UART, crypto, etc.\r\n\r\n",
];

const LAUNCH_LINES: [&str; 6] = [
    "[LAUNCH] Dropping to U-mode...\r\n",
    "  mepc  -> _u_entry (U-mode entry point)\r\n",
    "  MPP   -> 0b00 (User mode)\r\n",
    "  sp    -> _u_stack_top\r\n",
    "  ssp   -> _u_shadow_stack_top\r\n",
    "  gp    -> _u_sw_shadow_stack_bottom\r\n\r\n",
];

/// Everything the kernel transmits on its way to the application, with the
/// measurement and the sealed value as given.
fn boot_text(measured: &str, sealed: &str) -> String {
    let mut text = String::new();
    text += RULE;
    text += "  RISC-V Root of Trust \u{2014} CFI + PMP Isolation Demo\r\n";
    text += "  RV32IMAC + Zicfilp + Zicfiss + PMP\r\n";
    text += RULE;
    text += "\r\n";
    text += &heading("Phase 1: CFI Initialization", 29);
    text += &CFI_LINES.concat();
    text += &heading("Phase 2: PMP Configuration", 30);
    text += &PMP_LINES.concat();
    text += &heading("Phase 3: Firmware Measurement", 27);
    text += "[MEASURE] Computing firmware measurement over U_CODE region...\r\n";
    text += "  Measurement (XOR hash): ";
    text += measured;
    text += "\r\n  (Real RoT would compare against OTP-stored golden hash)\r\n\r\n";
    text += &heading("Phase 4: Secret Sealing (RoT Key Service)", 15);
    text += "  seal(0xDEADBEEF, key_id=1) = ";
    text += sealed;
    text += "\r\n  (Stub: XOR-based, real RoT uses AES-GCM/HMAC)\r\n\r\n";
    text += &heading("Phase 5: U-Mode Launch", 34);
    text += &SUMMARY_LINES.concat();
    text += &LAUNCH_LINES.concat();
    text
}

fn symbols() -> Symbols {
    Symbols {
        trap_handler: 0x8000_0040,
        m_stack_top: 0x8001_8000,
        m_bss_start: 0x8001_0100,
        m_bss_end: 0x8001_0200,
        m_data_start: 0x8001_0000,
        m_data_end: 0x8001_0010,
        m_data_load: 0x8000_F000,
        m_sw_shadow_stack_bottom: 0x8001_9000,
        m_shadow_stack_top: 0x8001_9000,
        u_entry: 0x8002_0000,
        u_stack_top: 0x8005_8000,
        u_shadow_stack_top: 0x8005_9000,
        u_sw_shadow_stack_bottom: 0x8005_9000,
    }
}

fn boot_scenario(has_cfi: bool) {
    let mut m = Machine::new(has_cfi);
    _start(&mut m, &symbols());
    assert_eq!(m.state, RunState::Running);
    assert_eq!(m.hart.mode, Privilege::User);
    assert_eq!(m.hart.pc, 0x8002_0000);
    _u_entry(&mut m);
    let text = String::from_utf8(m.uart.tx.clone()).unwrap();
    assert_eq!(text, boot_text("0x00000000", "0xdeadbeee") + "OK\n");
    assert!(text.contains("OK\n"));
    assert_eq!(m.finisher, vec![0x5555]);
    assert_eq!(m.state, RunState::Halted(Halt::Exit));
    assert!(m.hart.sw.words.is_empty());
    assert!(m.hart.hw.words.is_empty());
}

#[test]
fn boot_without_cfi_extensions() {
    boot_scenario(false);
}

#[test]
fn boot_with_cfi_extensions() {
    boot_scenario(true);
}

#[test]
fn boot_prologue_sets_up_the_hart_and_memory() {
    let mut m = Machine::new(true);
    for a in 0x8001_00F0u32..0x8001_0210 {
        m.mem.write_byte(a, 0xCC);
    }
    m.mem.write_word(0x8000_F000, 0x0102_0304);
    m.mem.write_word(0x8000_F004, 0x0506_0708);
    m.mem.write_word(0x8000_F008, 0x090A_0B0C);
    m.mem.write_word(0x8000_F00C, 0x0D0E_0F10);
    m.mem.write_word(0x8000_F010, 0x1111_1111);
    _start(&mut m, &symbols());
    assert_eq!(m.hart.mtvec, 0x8000_0040);
    assert_eq!(m.mem.read_byte(0x8001_00FF), 0xCC);
    for a in 0x8001_0100u32..0x8001_0200 {
        assert_eq!(m.mem.read_byte(a), 0);
    }
    assert_eq!(m.mem.read_byte(0x8001_0200), 0xCC);
    assert_eq!(m.mem.read_word(0x8001_0000), 0x0102_0304);
    assert_eq!(m.mem.read_word(0x8001_0004), 0x0506_0708);
    assert_eq!(m.mem.read_word(0x8001_0008), 0x090A_0B0C);
    assert_eq!(m.mem.read_word(0x8001_000C), 0x0D0E_0F10);
    assert_eq!(m.mem.read_word(0x8001_0010), 0);
}

#[test]
fn boot_hands_over_in_user_mode() {
    let mut m = Machine::new(true);
    m.hart.mstatus = 0x0000_1888;
    _start(&mut m, &symbols());
    assert_eq!(m.hart.mode, Privilege::User);
    assert_eq!(m.hart.pc, 0x8002_0000);
    assert_eq!(m.hart.mepc, 0x8002_0000);
    assert_eq!(m.hart.sp, 0x8005_8000);
    assert_eq!(m.hart.hw.ptr, 0x8005_9000);
    assert_eq!(m.hart.sw.ptr, 0x8005_9000);
    assert_eq!(m.hart.mstatus, 0x0000_0088);
    assert_eq!(m.hart.menvcfg, 0xC);
    assert_eq!(m.hart.senvcfg, 0xC);
    assert_eq!(m.hart.mie, 0);
    assert_eq!(m.hart.pmp.cfg, [0x1D00_009D, 0x1B1B_1B19, 0, 0]);
    assert_eq!(m.hart.pmp.addr[0], 0x2000_1FFF);
    assert_eq!(m.hart.pmp.addr[7], 0x0400_01FF);
    assert!(m.hart.landing_pads_active());
    assert!(m.hart.shadow_stack_active());
    assert!(m.finisher.is_empty());
}

#[test]
fn boot_on_a_hart_without_cfi_leaves_its_registers() {
    let mut m = Machine::new(false);
    _start(&mut m, &symbols());
    assert_eq!(m.hart.menvcfg, 0);
    assert_eq!(m.hart.senvcfg, 0);
    assert_eq!(m.hart.hw.ptr, 0);
    assert_eq!(m.hart.sw.ptr, 0x8005_9000);
    assert_eq!(m.hart.sp, 0x8005_8000);
    assert_eq!(m.hart.mode, Privilege::User);
    assert!(!m.hart.landing_pads_active());
    assert!(!m.hart.shadow_stack_active());
}

#[test]
fn main_reports_the_measurement_of_the_application() {
    let mut m = Machine::new(false);
    m.mem.write_word(0x8002_0000, 0x0000_0017);
    m.mem.write_word(0x8002_1000, 0xABCD_0000);
    m.mem.write_word(0x8004_0000, 0xFFFF_FFFF);
    rot_main(&mut m, &symbols());
    let text = String::from_utf8(m.uart.tx.clone()).unwrap();
    assert_eq!(text, boot_text("0xabcd0017", "0xdeadbeee"));
}

#[test]
fn main_keeps_what_was_transmitted_before() {
    let mut m = Machine::new(false);
    m.uart.tx.extend_from_slice(b"early ");
    rot_main(&mut m, &symbols());
    let text = String::from_utf8(m.uart.tx.clone()).unwrap();
    assert_eq!(text, String::from("early ") + &boot_text("0x00000000", "0xdeadbeee"));
}

#[test]
fn halted_machine_does_not_boot() {
    let mut m = Machine::new(true);
    m.state = RunState::Halted(Halt::Panic);
    _start(&mut m, &symbols());
    rot_main(&mut m, &symbols());
    assert!(m.uart.tx.is_empty());
    assert_eq!(m.hart.sp, 0);
    assert_eq!(m.hart.mode, Privilege::Machine);
    assert_eq!(m.hart.pmp.cfg, [0, 0, 0, 0]);
}

#[test]
fn enable_cfi_sets_both_bits_in_both_registers() {
    let mut m = Machine::new(true);
    m.hart.menvcfg = 0x0000_0001;
    m.hart.senvcfg = 0x8000_0000;
    m.hart.hw.push(0x99);
    let mut uart = Uart::new();
    enable_cfi(&mut m.hart, &mut uart, &symbols());
    assert_eq!(m.hart.menvcfg, 0x0000_000D);
    assert_eq!(m.hart.senvcfg, 0x8000_000C);
    assert_eq!(m.hart.hw.ptr, 0x8001_9000);
    assert!(m.hart.hw.words.is_empty());
    let text = String::from_utf8(uart.tx).unwrap();
    assert_eq!(text, CFI_LINES.concat());
}

#[test]
fn enable_cfi_completes_without_the_registers() {
    let mut m = Machine::new(false);
    m.hart.menvcfg = 0x0000_0001;
    let mut uart = Uart::new();
    enable_cfi(&mut m.hart, &mut uart, &symbols());
    assert_eq!(m.hart.menvcfg, 0x0000_0001);
    assert_eq!(m.hart.senvcfg, 0);
    assert_eq!(m.hart.hw.ptr, 0);
    let text = String::from_utf8(uart.tx).unwrap();
    assert!(text.starts_with("[CFI] Enabling hardware CFI extensions...\r\n"));
    assert!(text.ends_with("[CFI] Hardware CFI enabled (or NOPs on unsupported HW).\r\n\r\n"));
    assert_eq!(text.len(), 238);
}

#[test]
fn launch_drops_to_user_mode() {
    let mut m = Machine::new(true);
    m.hart.mstatus = 0xFFFF_FFFF;
    m.hart.sw = ShadowStack::new(0x8001_9000);
    m.hart.sw.push(0x8000_0abc);
    m.hart.hw.push(0x8000_0abc);
    let mut uart = Uart::new();
    launch_umode(&mut m.hart, &mut uart, &symbols());
    assert_eq!(m.hart.mode, Privilege::User);
    assert_eq!(m.hart.mstatus, 0xFFFF_E7FF);
    assert_eq!(m.hart.mepc, 0x8002_0000);
    assert_eq!(m.hart.pc, 0x8002_0000);
    assert_eq!(m.hart.sp, 0x8005_8000);
    assert_eq!(m.hart.hw.ptr, 0x8005_9000);
    assert_eq!(m.hart.sw.ptr, 0x8005_9000);
    assert!(m.hart.sw.words.is_empty());
    assert!(m.hart.hw.words.is_empty());
    let text = String::from_utf8(uart.tx).unwrap();
    assert_eq!(text, LAUNCH_LINES.concat());
}

#[test]
fn corrupted_return_address_in_measure_firmware() {
    for has_cfi in [false, true] {
        let mut m = Machine::new(has_cfi);
        if has_cfi {
            m.hart.menvcfg = ENVCFG_LPE | ENVCFG_SSE;
        }
        m.hart.ra = 0x8000_0200;
        m.hart.sp = 0x8001_8000;
        m.hart.sw = ShadowStack::new(0x8001_9000);
        m.mem.write_word(0x8002_0000, 0x0000_0005);
        m.mem.write_word(0x8002_0004, 0x0000_0003);
        let honest = rot_measure_firmware(&mut m.hart, &m.mem, 0x8002_0000, 16);
        assert_eq!(honest, 6);
        let mut frame = m.hart.cfi_enter();
        assert_eq!(xor_region(&m.mem, 0x8002_0000, 16), 6);
        frame.saved_ra = 0x8004_8000;
        let left = m.hart.cfi_leave(&frame);
        assert_eq!(left, Err(CfiFault::SoftwareShadowStack));
        let mut regs = EcallFrame { ra: 0, t0: 0, t1: 0, t2: 0, a0: 0, a1: 0, a2: 0, a7: 0 };
        raise(&mut m, cause_of_fault(left.unwrap_err()), &mut regs);
        assert_eq!(m.uart.tx, b"CFI!\n".to_vec());
        assert_eq!(m.state, RunState::Halted(Halt::CfiViolation));
        assert!(m.finisher.is_empty());
        assert_eq!(m.hart.mcause, 3);
    }
}

#[test]
fn panic_with_a_location() {
    let mut m = Machine::new(false);
    rot_kernel::kernel::panic(&mut m, Some(Location { file: "src/main.rs", line: 857 }));
    let text = String::from_utf8(m.uart.tx.clone()).unwrap();
    assert_eq!(
        text,
        [
            "\r\n!!! ROOT OF TRUST PANIC !!!\r\n",
            "  at src/main.rs:857\r\n",
            "  SYSTEM HALTED \u{2014} security invariant violated\r\n",
        ]
        .concat()
    );
    assert_eq!(m.state, RunState::Halted(Halt::Panic));
    assert!(m.finisher.is_empty());
}

#[test]
fn panic_at_line_zero() {
    let mut m = Machine::new(false);
    rot_kernel::kernel::panic(&mut m, Some(Location { file: "a.rs", line: 0 }));
    let text = String::from_utf8(m.uart.tx.clone()).unwrap();
    assert!(text.contains("  at a.rs:0\r\n"));
}

#[test]
fn panic_without_a_location() {
    let mut m = Machine::new(false);
    rot_kernel::kernel::panic(&mut m, None);
    let text = String::from_utf8(m.uart.tx.clone()).unwrap();
    assert_eq!(
        text,
        [
            "\r\n!!! ROOT OF TRUST PANIC !!!\r\n",
            "  SYSTEM HALTED \u{2014} security invariant violated\r\n",
        ]
        .concat()
    );
    assert_eq!(m.state, RunState::Halted(Halt::Panic));
}

#[test]
fn panic_of_a_halted_machine_is_silent() {
    let mut m = Machine::new(false);
    m.state = RunState::Halted(Halt::Exit);
    rot_kernel::kernel::panic(&mut m, None);
    assert!(m.uart.tx.is_empty());
    assert_eq!(m.state, RunState::Halted(Halt::Exit));
}
