//! The whole machine: the hart, memory and the two devices.

use crate::hart::{Hart, HartView};
use crate::layout::{TEST_FINISHER, UART_BASE};
use crate::memory::{with_word, Memory};
use crate::uart::{uart_putc, Uart};
use vstd::prelude::*;

verus! {

/// Why the hart stopped for good.
#[derive(Clone, Copy, Debug, PartialEq, Eq, Structural)]
pub enum Halt {
    /// The application asked to end the run.
    Exit,
    /// Control-flow integrity was violated.
    CfiViolation,
    /// A trap arrived that the kernel does not know.
    UnknownTrap,
    /// The kernel found one of its own invariants broken.
    Panic,
}

/// Whether the hart still executes instructions.
#[derive(Clone, Copy, Debug, PartialEq, Eq, Structural)]
pub enum RunState {
    Running,
    /// Waiting for an interrupt that never comes.
    Halted(Halt),
}

/// The machine as a value.
pub struct MachineView {
    pub hart: HartView,
    /// The byte at every address.
    pub mem: Map<u32, u8>,
    /// The bytes written to the serial port's data register, in order.
    pub uart: Seq<u8>,
    /// The words written to the test finisher, in order.
    pub finisher: Seq<u32>,
    pub state: RunState,
}

/// The machine.
pub struct Machine {
    pub hart: Hart,
    pub mem: Memory,
    /// The serial port, whose data register lies at
    /// [`UART_BASE`](crate::layout::UART_BASE).
    pub uart: Uart,
    /// The test finisher, a 32-bit register at
    /// [`TEST_FINISHER`](crate::layout::TEST_FINISHER): the words written to
    /// it, in order.
    pub finisher: Vec<u32>,
    pub state: RunState,
}

impl View for Machine {
    type V = MachineView;

    open spec fn view(&self) -> MachineView {
        MachineView {
            hart: self.hart@,
            mem: self.mem@,
            uart: self.uart@,
            finisher: self.finisher@,
            state: self.state,
        }
    }
}

impl MachineView {
    /// The machine after a byte was stored at physical address `a`: the
    /// serial port transmits it if `a` is its data register, else memory
    /// takes it.
    pub open spec fn write_byte(self, a: u32, value: u8) -> MachineView {
        if a == UART_BASE {
            MachineView { uart: self.uart.push(value), ..self }
        } else {
            MachineView { mem: self.mem.insert(a, value), ..self }
        }
    }

    /// The machine after a 32-bit word was stored at physical address `a`:
    /// the test finisher takes it if `a` is its address, else memory takes
    /// its four bytes, the low byte first.
    pub open spec fn write_word(self, a: u32, value: u32) -> MachineView {
        if a == TEST_FINISHER {
            MachineView { finisher: self.finisher.push(value), ..self }
        } else {
            MachineView { mem: with_word(self.mem, a, value), ..self }
        }
    }
}

impl Machine {
    /// A machine as it leaves reset: memory zero, nothing transmitted, the
    /// hart running.
    pub fn new(has_cfi: bool) -> (m: Machine)
        ensures
            m@.hart == HartView::reset(has_cfi, m.hart.pmp),
            forall|i: int| 0 <= i < 16 ==> m.hart.pmp.addr[i] == 0,
            forall|j: int| 0 <= j < 4 ==> m.hart.pmp.cfg[j] == 0,
            forall|a: u32| m@.mem.contains_key(a) && m@.mem[a] == 0,
            m@.uart == Seq::<u8>::empty(),
            m@.finisher == Seq::<u32>::empty(),
            m@.state == RunState::Running,
    {
        Machine {
            hart: Hart::reset(has_cfi),
            mem: Memory::new(),
            uart: Uart::new(),
            finisher: Vec::new(),
            state: RunState::Running,
        }
    }

    /// Whether the hart still executes instructions.
    pub fn is_running(&self) -> (on: bool)
        ensures
            on == (self.state == RunState::Running),
    {
        match self.state {
            RunState::Running => true,
            RunState::Halted(_) => false,
        }
    }

    /// Stores a byte at physical address `a`.
    pub fn write_byte(&mut self, a: u32, value: u8)
        ensures
            final(self)@ == old(self)@.write_byte(a, value),
    {
        if a == UART_BASE {
            uart_putc(&mut self.uart, value);
        } else {
            self.mem.write_byte(a, value);
        }
    }

    /// Stores a 32-bit word at physical address `a`.
    pub fn write_word(&mut self, a: u32, value: u32)
        ensures
            final(self)@ == old(self)@.write_word(a, value),
    {
        if a == TEST_FINISHER {
            self.finisher.push(value);
        } else {
            self.mem.write_word(a, value);
        }
    }
}

} // verus!
