//! The hart: the registers the kernel's rules speak of, and the steps that
//! change them.

use crate::cfi::{
    check_landing_pad, landing_pad_accepts, lemma_push_then_pop, CfiFault, ShadowStack,
    ShadowStackView, ENVCFG_LPE, ENVCFG_SSE,
};
use crate::layout::ROM_BASE;
use crate::pmp::{PmpRegs, Privilege};
use vstd::prelude::*;

verus! {

/// Bits of the status register that hold the privilege to return to.
pub const MSTATUS_MPP: u32 = 0x1800;

/// Bytes of stack that a protected routine takes for its frame.
pub const FRAME_SIZE: u32 = 16;

/// The hart as a value.
pub struct HartView {
    pub has_cfi: bool,
    pub mode: Privilege,
    pub pc: u32,
    pub ra: u32,
    pub sp: u32,
    pub sw: ShadowStackView,
    pub hw: ShadowStackView,
    pub mstatus: u32,
    pub mepc: u32,
    pub mcause: u32,
    pub mtvec: u32,
    pub mie: u32,
    pub menvcfg: u32,
    pub senvcfg: u32,
    pub pmp: PmpRegs,
}

/// One hart.
#[derive(Debug)]
pub struct Hart {
    /// Whether the hart implements landing pads and the hardware shadow
    /// stack, and with them the registers that control them.
    pub has_cfi: bool,
    /// Current privilege.
    pub mode: Privilege,
    /// Program counter.
    pub pc: u32,
    /// Return-address register.
    pub ra: u32,
    /// Stack pointer.
    pub sp: u32,
    /// The software shadow stack; its pointer is the register reserved for
    /// it.
    pub sw: ShadowStack,
    /// The hardware shadow stack; its pointer is the shadow-stack-pointer
    /// register.
    pub hw: ShadowStack,
    /// Machine status register.
    pub mstatus: u32,
    /// Exception program counter.
    pub mepc: u32,
    /// Trap cause register.
    pub mcause: u32,
    /// Trap vector register.
    pub mtvec: u32,
    /// Interrupt-enable register.
    pub mie: u32,
    /// Machine environment-configuration register.
    pub menvcfg: u32,
    /// Supervisor environment-configuration register.
    pub senvcfg: u32,
    /// Physical memory protection registers.
    pub pmp: PmpRegs,
}

impl View for Hart {
    type V = HartView;

    open spec fn view(&self) -> HartView {
        HartView {
            has_cfi: self.has_cfi,
            mode: self.mode,
            pc: self.pc,
            ra: self.ra,
            sp: self.sp,
            sw: self.sw@,
            hw: self.hw@,
            mstatus: self.mstatus,
            mepc: self.mepc,
            mcause: self.mcause,
            mtvec: self.mtvec,
            mie: self.mie,
            menvcfg: self.menvcfg,
            senvcfg: self.senvcfg,
            pmp: self.pmp,
        }
    }
}

/// What a protected routine keeps in its stack frame.
#[derive(Clone, Copy, Debug, PartialEq, Eq, Structural)]
pub struct Frame {
    /// The return address as it was on entry.
    pub saved_ra: u32,
    /// The software shadow-stack pointer as it was on entry.
    pub saved_gp: u32,
}

impl HartView {
    /// The hart as it leaves reset: machine mode at the start of kernel
    /// code, every register zero, both shadow stacks empty.
    pub open spec fn reset(has_cfi: bool, pmp: PmpRegs) -> HartView {
        HartView {
            has_cfi,
            mode: Privilege::Machine,
            pc: ROM_BASE,
            ra: 0,
            sp: 0,
            sw: ShadowStackView { ptr: 0, words: Seq::empty() },
            hw: ShadowStackView { ptr: 0, words: Seq::empty() },
            mstatus: 0,
            mepc: 0,
            mcause: 0,
            mtvec: 0,
            mie: 0,
            menvcfg: 0,
            senvcfg: 0,
            pmp,
        }
    }

    /// Whether indirect branches are held to landing pads.
    pub open spec fn landing_pads_active(self) -> bool {
        self.has_cfi && self.menvcfg & ENVCFG_LPE != 0
    }

    /// Whether the hardware shadow stack is in use.
    pub open spec fn shadow_stack_active(self) -> bool {
        self.has_cfi && self.menvcfg & ENVCFG_SSE != 0
    }

    /// Whether an indirect branch that expects `expected` may land on the
    /// instruction `word`. Without landing pads every branch may.
    pub open spec fn branch_lands(self, word: u32, expected: u32) -> bool {
        self.landing_pads_active() ==> landing_pad_accepts(word, expected)
    }

    /// The hart after the push on the software shadow stack: the return
    /// address is on it.
    pub open spec fn sw_sspush(self) -> HartView {
        HartView { sw: self.sw.push(self.ra), ..self }
    }

    /// Whether the word on top of the software shadow stack is the return
    /// address.
    pub open spec fn sw_agrees(self) -> bool {
        self.sw.top() == Some(self.ra)
    }

    /// The hart after the pop on the software shadow stack.
    pub open spec fn sw_sspopchk(self) -> HartView {
        HartView { sw: self.sw.pop(), ..self }
    }

    /// The hart after the push on the hardware shadow stack. Where that
    /// stack is not in use the instruction does nothing.
    pub open spec fn hw_sspush(self) -> HartView {
        if self.shadow_stack_active() {
            HartView { hw: self.hw.push(self.ra), ..self }
        } else {
            self
        }
    }

    /// Whether the hardware shadow stack lets the return address pass: it is
    /// not in use, or the word on top of it is the return address.
    pub open spec fn hw_agrees(self) -> bool {
        self.shadow_stack_active() ==> self.hw.top() == Some(self.ra)
    }

    /// The hart after the pop on the hardware shadow stack. Where that stack
    /// is not in use the instruction does nothing.
    pub open spec fn hw_sspopchk(self) -> HartView {
        if self.shadow_stack_active() {
            HartView { hw: self.hw.pop(), ..self }
        } else {
            self
        }
    }

    /// The hart after the entry sequence of a protected routine: the return
    /// address pushed on the hardware shadow stack, the frame taken off the
    /// stack, and the return address pushed on the software shadow stack.
    pub open spec fn enter(self) -> HartView {
        HartView { sp: self.sp.wrapping_sub(FRAME_SIZE), ..self.hw_sspush() }.sw_sspush()
    }

    /// The frame that the entry sequence fills.
    pub open spec fn entry_frame(self) -> Frame {
        Frame { saved_ra: self.ra, saved_gp: self.sw.ptr }
    }

    /// The hart with the return address reloaded from the frame.
    pub open spec fn reload(self, frame: Frame) -> HartView {
        HartView { ra: frame.saved_ra, ..self }
    }

    /// What the exit sequence of a protected routine finds, given the frame
    /// as it is by then: `None` if both shadow stacks agree with the frame's
    /// return address, else the fault of the first that does not.
    pub open spec fn leave_fault(self, frame: Frame) -> Option<CfiFault> {
        if !self.reload(frame).sw_agrees() {
            Some(CfiFault::SoftwareShadowStack)
        } else if !self.reload(frame).hw_agrees() {
            Some(CfiFault::HardwareShadowStack)
        } else {
            None
        }
    }

    /// The hart after the exit sequence of a protected routine. The return
    /// address is reloaded from the frame and the software shadow stack is
    /// popped. Where the two disagree the sequence stops there. Otherwise the
    /// shadow pointer is reloaded from the frame, the frame is given back,
    /// and the hardware shadow stack is popped.
    pub open spec fn leave(self, frame: Frame) -> HartView {
        let popped = self.reload(frame).sw_sspopchk();
        if !self.reload(frame).sw_agrees() {
            popped
        } else {
            HartView {
                sw: ShadowStackView { ptr: frame.saved_gp, words: popped.sw.words },
                sp: self.sp.wrapping_add(FRAME_SIZE),
                ..popped
            }.hw_sspopchk()
        }
    }
}

impl Hart {
    /// A hart as it leaves reset.
    pub fn reset(has_cfi: bool) -> (hart: Hart)
        ensures
            hart@ == HartView::reset(has_cfi, hart.pmp),
            forall|i: int| 0 <= i < 16 ==> hart.pmp.addr[i] == 0,
            forall|j: int| 0 <= j < 4 ==> hart.pmp.cfg[j] == 0,
    {
        Hart {
            has_cfi,
            mode: Privilege::Machine,
            pc: ROM_BASE,
            ra: 0,
            sp: 0,
            sw: ShadowStack::new(0),
            hw: ShadowStack::new(0),
            mstatus: 0,
            mepc: 0,
            mcause: 0,
            mtvec: 0,
            mie: 0,
            menvcfg: 0,
            senvcfg: 0,
            pmp: PmpRegs::reset(),
        }
    }

    /// Whether indirect branches are held to landing pads.
    pub fn landing_pads_active(&self) -> (on: bool)
        ensures
            on == self@.landing_pads_active(),
    {
        self.has_cfi && self.menvcfg & ENVCFG_LPE != 0
    }

    /// Whether the hardware shadow stack is in use.
    pub fn shadow_stack_active(&self) -> (on: bool)
        ensures
            on == self@.shadow_stack_active(),
    {
        self.has_cfi && self.menvcfg & ENVCFG_SSE != 0
    }

    /// Decides whether an indirect branch that expects `expected` may land
    /// on the instruction `word`.
    pub fn check_branch(&self, word: u32, expected: u32) -> (r: Result<(), CfiFault>)
        ensures
            r == (if self@.branch_lands(word, expected) {
                Ok::<(), CfiFault>(())
            } else {
                Err(CfiFault::LandingPad)
            }),
    {
        if self.landing_pads_active() && !check_landing_pad(word, expected) {
            Err(CfiFault::LandingPad)
        } else {
            Ok(())
        }
    }

    /// Pushes the return address on the software shadow stack.
    pub fn sw_sspush(&mut self)
        ensures
            final(self)@ == old(self)@.sw_sspush(),
    {
        self.sw.push(self.ra);
    }

    /// Pops the software shadow stack and checks the return address against
    /// what was popped.
    pub fn sw_sspopchk(&mut self) -> (r: Result<(), CfiFault>)
        ensures
            final(self)@ == old(self)@.sw_sspopchk(),
            r == (if old(self)@.sw_agrees() {
                Ok::<(), CfiFault>(())
            } else {
                Err(CfiFault::SoftwareShadowStack)
            }),
    {
        let popped = self.sw.pop();
        if popped == Some(self.ra) {
            Ok(())
        } else {
            Err(CfiFault::SoftwareShadowStack)
        }
    }

    /// Pushes the return address on the hardware shadow stack, where that is
    /// in use.
    pub fn hw_sspush(&mut self)
        ensures
            final(self)@ == old(self)@.hw_sspush(),
    {
        if self.shadow_stack_active() {
            self.hw.push(self.ra);
        }
    }

    /// Pops the hardware shadow stack, where that is in use, and checks the
    /// return address against what was popped.
    pub fn hw_sspopchk(&mut self) -> (r: Result<(), CfiFault>)
        ensures
            final(self)@ == old(self)@.hw_sspopchk(),
            r == (if old(self)@.hw_agrees() {
                Ok::<(), CfiFault>(())
            } else {
                Err(CfiFault::HardwareShadowStack)
            }),
    {
        if self.shadow_stack_active() {
            let popped = self.hw.pop();
            if popped != Some(self.ra) {
                return Err(CfiFault::HardwareShadowStack);
            }
        }
        Ok(())
    }

    /// Runs the entry sequence of a protected routine and hands back the
    /// frame it filled.
    pub fn cfi_enter(&mut self) -> (frame: Frame)
        ensures
            final(self)@ == old(self)@.enter(),
            frame == old(self)@.entry_frame(),
    {
        self.hw_sspush();
        self.sp = self.sp.wrapping_sub(FRAME_SIZE);
        let frame = Frame { saved_ra: self.ra, saved_gp: self.sw.ptr };
        self.sw_sspush();
        frame
    }

    /// Runs the exit sequence of a protected routine on the frame as it is
    /// now, and reports the fault if a shadow stack disagrees with it.
    pub fn cfi_leave(&mut self, frame: &Frame) -> (r: Result<(), CfiFault>)
        ensures
            final(self)@ == old(self)@.leave(*frame),
            r == (match old(self)@.leave_fault(*frame) {
                Some(fault) => Err::<(), CfiFault>(fault),
                None => Ok(()),
            }),
    {
        self.ra = frame.saved_ra;
        match self.sw_sspopchk() {
            Ok(()) => {},
            Err(fault) => {
                return Err(fault);
            },
        }
        self.sw.restore(frame.saved_gp);
        self.sp = self.sp.wrapping_add(FRAME_SIZE);
        self.hw_sspopchk()
    }
}

/// A routine that is left with its frame untouched returns to its caller:
/// no shadow stack objects, and the hart is as it was on entry.
pub proof fn lemma_leave_undoes_enter(hart: HartView)
    ensures
        hart.enter().leave_fault(hart.entry_frame()) is None,
        hart.enter().leave(hart.entry_frame()) == hart,
{
    lemma_push_then_pop(hart.sw, hart.ra);
    lemma_push_then_pop(hart.hw, hart.ra);
}

/// A routine whose saved return address was changed between entry and exit
/// does not return: whatever else the frame holds by then, the software
/// shadow stack objects, with or without the hardware's help, and the stack
/// frame is not given back.
pub proof fn lemma_corrupted_return_is_caught(hart: HartView, frame: Frame)
    requires
        frame.saved_ra != hart.ra,
    ensures
        hart.enter().leave_fault(frame) == Some(CfiFault::SoftwareShadowStack),
        hart.enter().leave(frame).sp == hart.enter().sp,
{
    lemma_push_then_pop(hart.sw, hart.ra);
}

/// The hardware shadow stack backs the software one up: where it is in
/// use, a forged return address is caught even if the same forgery was
/// written over the word that the software shadow stack holds.
pub proof fn lemma_hardware_stack_backs_up(hart: HartView, forged: u32)
    requires
        hart.shadow_stack_active(),
        forged != hart.ra,
    ensures
        ({
            let entered = hart.enter();
            let tampered = HartView {
                sw: ShadowStackView {
                    words: entered.sw.words.update(entered.sw.words.len() - 1, forged),
                    ..entered.sw
                },
                ..entered
            };
            tampered.leave_fault(Frame { saved_ra: forged, ..hart.entry_frame() }) == Some(
                CfiFault::HardwareShadowStack,
            )
        }),
{
}

} // verus!
