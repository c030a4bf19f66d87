//! Routines that are reached through pointers, and the callers that reach
//! them.

use crate::cfi::{emit_lpad, lpad_label, lpad_word, CfiFault, LABEL_LIMIT};
use crate::hart::{lemma_leave_undoes_enter, Hart};
use vstd::prelude::*;

verus! {

/// A routine that takes one word and gives one word, and that begins with a
/// landing pad so that it can be reached through a pointer.
#[derive(Clone, Copy, Debug, PartialEq, Eq, Structural)]
pub enum Routine {
    /// Multiplies by three. Protected by both shadow stacks.
    Triple,
    /// Adds 42. A leaf: it saves no return address.
    Add42,
    /// Multiplies the value by itself. A leaf with a labelled landing pad.
    Square,
    /// Adds 100. A leaf of the application.
    UAdd100,
    /// Doubles. Protected by both shadow stacks; part of the application.
    UDouble,
}

/// One line of a dispatch table.
#[derive(Clone, Copy, Debug, PartialEq, Eq, Structural)]
pub struct DispatchEntry {
    pub id: u32,
    pub handler: Routine,
}

impl Routine {
    /// The label of the routine's landing pad.
    pub open spec fn label(self) -> u32 {
        match self {
            Routine::Square => 7,
            _ => 0,
        }
    }

    /// The first instruction of the routine: its landing pad.
    pub open spec fn entry(self) -> u32 {
        lpad_word(self.label())
    }

    /// What the routine computes. Arithmetic wraps at 32 bits.
    pub open spec fn value(self, x: u32) -> u32 {
        match self {
            Routine::Triple => ((3 * x) % 0x1_0000_0000) as u32,
            Routine::Add42 => ((x + 42) % 0x1_0000_0000) as u32,
            Routine::Square => ((x * x) % 0x1_0000_0000) as u32,
            Routine::UAdd100 => ((x + 100) % 0x1_0000_0000) as u32,
            Routine::UDouble => ((2 * x) % 0x1_0000_0000) as u32,
        }
    }

    /// The label of the routine's landing pad.
    pub fn landing_label(self) -> (label: u32)
        ensures
            label == self.label(),
            label < LABEL_LIMIT,
    {
        match self {
            Routine::Square => 7,
            _ => 0,
        }
    }

    /// The first instruction of the routine.
    pub fn entry_word(self) -> (word: u32)
        ensures
            word == self.entry(),
            lpad_label(word) == Some(self.label()),
    {
        emit_lpad(self.landing_label())
    }
}

/// Multiplies `x` by three, as its double plus itself.
pub fn triple(hart: &mut Hart, x: u32) -> (r: u32)
    ensures
        r == Routine::Triple.value(x),
        final(hart)@ == old(hart)@,
{
    let frame = hart.cfi_enter();
    let r = (x << 1).wrapping_add(x);
    assert(r == ((3 * x) % 0x1_0000_0000) as u32) by (bit_vector)
        requires
            r == (x << 1).wrapping_add(x),
    ;
    let left = hart.cfi_leave(&frame);
    proof {
        lemma_leave_undoes_enter(old(hart)@);
    }
    assert(left is Ok);
    r
}

/// Adds 42 to `x`.
pub fn add_42(x: u32) -> (r: u32)
    ensures
        r == Routine::Add42.value(x),
{
    x.wrapping_add(42)
}

/// Multiplies `x` by itself.
pub fn square(x: u32) -> (r: u32)
    ensures
        r == Routine::Square.value(x),
{
    x.wrapping_mul(x)
}

/// Adds 100 to `x`.
pub fn u_add_100(x: u32) -> (r: u32)
    ensures
        r == Routine::UAdd100.value(x),
{
    x.wrapping_add(100)
}

/// Doubles `x`.
pub fn u_double(hart: &mut Hart, x: u32) -> (r: u32)
    ensures
        r == Routine::UDouble.value(x),
        final(hart)@ == old(hart)@,
{
    let frame = hart.cfi_enter();
    let r = x << 1;
    assert(r == ((2 * x) % 0x1_0000_0000) as u32) by (bit_vector)
        requires
            r == x << 1,
    ;
    let left = hart.cfi_leave(&frame);
    proof {
        lemma_leave_undoes_enter(old(hart)@);
    }
    assert(left is Ok);
    r
}

/// Calls a routine by name, as a direct call does.
pub fn call_direct(hart: &mut Hart, target: Routine, x: u32) -> (r: u32)
    ensures
        r == target.value(x),
        final(hart)@ == old(hart)@,
{
    match target {
        Routine::Triple => triple(hart, x),
        Routine::Add42 => add_42(x),
        Routine::Square => square(x),
        Routine::UAdd100 => u_add_100(x),
        Routine::UDouble => u_double(hart, x),
    }
}

/// Calls a routine through a pointer, from a call site that expects a
/// landing pad with the label `expected`. Where landing pads are enforced
/// and the routine's pad has another label than zero or the expected one, the
/// branch faults and the routine does not run. In every other case the call
/// gives what the direct call gives and leaves the hart as it was.
pub fn call_indirect(hart: &mut Hart, target: Routine, expected: u32, x: u32) -> (r: Result<
    u32,
    CfiFault,
>)
    ensures
        r == (if old(hart)@.branch_lands(target.entry(), expected) {
            Ok::<u32, CfiFault>(target.value(x))
        } else {
            Err(CfiFault::LandingPad)
        }),
        final(hart)@ == old(hart)@,
{
    match hart.check_branch(target.entry_word(), expected) {
        Ok(()) => Ok(call_direct(hart, target, x)),
        Err(fault) => Err(fault),
    }
}

/// A call through a pointer from a site that expects the routine's own
/// label, or a call of a routine whose pad has label zero from any site,
/// never faults and gives the value of the direct call, whether or not the
/// hart enforces landing pads.
pub proof fn lemma_matching_site_lands(hart: crate::hart::HartView, target: Routine, expected: u32)
    requires
        expected == target.label() || target.label() == 0,
    ensures
        hart.branch_lands(target.entry(), expected),
{
    let label = target.label();
    assert(((label << 12) | 0x17) & 0xFFF == 0x17 && ((label << 12) | 0x17) >> 12 == label)
        by (bit_vector)
        requires
            label < 0x10_0000,
    ;
}

/// Calls `fp` on `x` through its pointer, from a site that expects the
/// routine's own label, and adds one to what it gives.
pub fn call_and_inc(hart: &mut Hart, fp: Routine, x: u32) -> (r: u32)
    ensures
        r == ((fp.value(x) + 1) % 0x1_0000_0000) as u32,
        final(hart)@ == old(hart)@,
{
    let frame = hart.cfi_enter();
    proof {
        lemma_matching_site_lands(hart@, fp, fp.label());
    }
    let inner = match call_indirect(hart, fp, fp.landing_label(), x) {
        Ok(v) => v,
        Err(_) => {
            assert(false);
            0
        },
    };
    let r = inner.wrapping_add(1);
    let left = hart.cfi_leave(&frame);
    proof {
        lemma_leave_undoes_enter(old(hart)@);
    }
    assert(left is Ok);
    r
}

/// The dispatch table: which routine serves which id.
pub open spec fn dispatch_table() -> Seq<DispatchEntry> {
    seq![
        DispatchEntry { id: 0, handler: Routine::Triple },
        DispatchEntry { id: 1, handler: Routine::Add42 },
        DispatchEntry { id: 2, handler: Routine::Square },
    ]
}

/// The handler of the first line of `table` at or after `from` whose id is
/// `id`.
pub open spec fn lookup(table: Seq<DispatchEntry>, id: u32, from: int) -> Option<Routine>
    decreases table.len() - from,
{
    if from < 0 || from >= table.len() {
        None
    } else if table[from].id == id {
        Some(table[from].handler)
    } else {
        lookup(table, id, from + 1)
    }
}

/// Looks `id` up in the dispatch table and calls its handler on `arg`
/// through the pointer in the table, from a site that expects the handler's
/// label. `None` if the table has no such id.
pub fn dispatch(hart: &mut Hart, id: u32, arg: u32) -> (r: Option<u32>)
    ensures
        r == (match lookup(dispatch_table(), id, 0) {
            Some(handler) => Some(handler.value(arg)),
            None => None,
        }),
        final(hart)@ == old(hart)@,
{
    let table: [DispatchEntry; 3] = [
        DispatchEntry { id: 0, handler: Routine::Triple },
        DispatchEntry { id: 1, handler: Routine::Add42 },
        DispatchEntry { id: 2, handler: Routine::Square },
    ];
    assert(table@ =~= dispatch_table());
    let mut i: usize = 0;
    while i < 3
        invariant
            i <= 3,
            table@ == dispatch_table(),
            hart@ == old(hart)@,
            lookup(dispatch_table(), id, 0) == lookup(dispatch_table(), id, i as int),
        decreases 3 - i,
    {
        if table[i].id == id {
            let handler = table[i].handler;
            proof {
                lemma_matching_site_lands(hart@, handler, handler.label());
            }
            return match call_indirect(hart, handler, handler.landing_label(), arg) {
                Ok(v) => Some(v),
                Err(_) => {
                    assert(false);
                    None
                },
            };
        }
        i += 1;
    }
    None
}

} // verus!
