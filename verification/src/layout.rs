//! The physical memory map.

use vstd::prelude::*;

verus! {

/// Kernel code, read-only and executable.
pub const ROM_BASE: u32 = 0x8000_0000;

/// Size of kernel code: 64 KiB.
pub const ROM_SIZE: u32 = 0x1_0000;

/// Kernel data and stack.
pub const M_RAM_BASE: u32 = 0x8001_0000;

/// Size of kernel data and stack: 32 KiB.
pub const M_RAM_SIZE: u32 = 0x8000;

/// Kernel shadow stacks: the hardware one in the lower half, the software
/// one in the upper half.
pub const M_SHADOW_BASE: u32 = 0x8001_8000;

/// Size of the kernel shadow stacks: 8 KiB.
pub const M_SHADOW_SIZE: u32 = 0x2000;

/// Application code.
pub const U_CODE_BASE: u32 = 0x8002_0000;

/// Size of application code: 128 KiB.
pub const U_CODE_SIZE: u32 = 0x2_0000;

/// Application read-only data.
pub const U_RODATA_BASE: u32 = 0x8004_0000;

/// Size of application read-only data: 32 KiB.
pub const U_RODATA_SIZE: u32 = 0x8000;

/// Application data and stack.
pub const U_RAM_BASE: u32 = 0x8004_8000;

/// Size of application data and stack: 64 KiB.
pub const U_RAM_SIZE: u32 = 0x1_0000;

/// Application shadow stacks: the hardware one in the lower half, the
/// software one in the upper half.
pub const U_SHADOW_BASE: u32 = 0x8005_8000;

/// Size of the application shadow stacks: 8 KiB.
pub const U_SHADOW_SIZE: u32 = 0x2000;

/// The serial port's registers. The data register is the first: a byte
/// written to it is transmitted.
pub const UART_BASE: u32 = 0x1000_0000;

/// Size of the serial port's register window: 4 KiB.
pub const UART_SIZE: u32 = 0x1000;

/// The test finisher: a 32-bit register that ends a test run when it is
/// written.
pub const TEST_FINISHER: u32 = 0x0010_0000;

/// The value that, written to the test finisher, reports success.
pub const FINISHER_PASS: u32 = 0x5555;

/// Whether byte address `a` lies in the `size` bytes that start at `base`.
pub open spec fn in_region(a: u32, base: u32, size: u32) -> bool {
    base <= a < base + size
}

/// Whether the `len` bytes at `addr` all lie in the `size` bytes that start
/// at `base`.
pub open spec fn range_in_region(addr: u32, len: u32, base: u32, size: u32) -> bool {
    base <= addr && addr + len <= base + size
}

/// The addresses that the link step hands to the kernel.
#[derive(Clone, Copy, Debug)]
pub struct Symbols {
    /// Entry of the trap handler.
    pub trap_handler: u32,
    /// Top of the kernel stack.
    pub m_stack_top: u32,
    /// Start of the kernel's uninitialised data.
    pub m_bss_start: u32,
    /// End of the kernel's uninitialised data.
    pub m_bss_end: u32,
    /// Start of the kernel's initialised data, where it lives at run time.
    pub m_data_start: u32,
    /// End of the kernel's initialised data, where it lives at run time.
    pub m_data_end: u32,
    /// Where the initial values of the kernel's initialised data are stored.
    pub m_data_load: u32,
    /// Bottom of the kernel's software shadow stack.
    pub m_sw_shadow_stack_bottom: u32,
    /// Top of the kernel's hardware shadow stack.
    pub m_shadow_stack_top: u32,
    /// Entry of the application.
    pub u_entry: u32,
    /// Top of the application stack.
    pub u_stack_top: u32,
    /// Top of the application's hardware shadow stack.
    pub u_shadow_stack_top: u32,
    /// Bottom of the application's software shadow stack.
    pub u_sw_shadow_stack_bottom: u32,
}

} // verus!
