//! A verified model of a small RISC-V root-of-trust kernel.
//!
//! The kernel boots in machine mode, switches control-flow integrity on,
//! partitions physical memory between itself and one application, measures
//! the application's code, seals a secret, and drops to user mode. From
//! then on the application reaches the kernel only through traps.
//!
//! Every function here runs on a [`machine::Machine`], or on a part of it,
//! and states in its contract what it does to that part. The rules that the
//! kernel is built to keep are proved from those contracts:
//!
//! - [`pmp`]: the protection registers, the access check, the isolation
//!   policy, and what the policy lets each privilege do at every address.
//! - [`cfi`] and [`hart`]: landing pads, the two shadow stacks, and the
//!   entry and exit sequences of a protected routine.
//! - [`routines`]: routines reached through pointers, and their callers.
//! - [`services`]: the kernel's protected services.
//! - [`trap`]: the trap dispatcher and the services behind it.
//! - [`bus`]: loads and stores under protection.
//! - [`kernel`] and [`user`]: boot, hand-over, and the application.
//! - [`demo`]: the same hart without a kernel behind it.
//! - [`uart`], [`memory`], [`layout`], [`machine`]: the devices, memory, the
//!   memory map and the machine they make up.

pub mod bus;
pub mod cfi;
pub mod demo;
pub mod hart;
pub mod kernel;
pub mod layout;
pub mod machine;
pub mod memory;
pub mod pmp;
pub mod routines;
pub mod services;
pub mod trap;
pub mod uart;
pub mod user;
