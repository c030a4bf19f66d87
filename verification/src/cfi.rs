//! Control-flow integrity: the instruction encodings, the landing-pad rule
//! and the shadow stack.

use vstd::prelude::*;

verus! {

/// Number of landing-pad labels: a label has twenty bits.
pub const LABEL_LIMIT: u32 = 0x10_0000;

/// The instruction that pushes the return address on the hardware shadow
/// stack.
pub const HW_SSPUSH: u32 = 0x6010_0073;

/// The instruction that pops the hardware shadow stack and checks the
/// return address against what it popped.
pub const HW_SSPOPCHK: u32 = 0x6050_0073;

/// Bit of the environment-configuration registers that enables landing pads.
pub const ENVCFG_LPE: u32 = 0x4;

/// Bit of the environment-configuration registers that enables the hardware
/// shadow stack.
pub const ENVCFG_SSE: u32 = 0x8;

/// Size of one shadow-stack slot in bytes.
pub const WORD_SIZE: u32 = 4;

/// A violation of control-flow integrity, as the hart reports it.
#[derive(Clone, Copy, Debug, PartialEq, Eq, Structural)]
pub enum CfiFault {
    /// An indirect branch reached something that is no matching landing pad.
    LandingPad,
    /// The software shadow stack disagrees with the return address.
    SoftwareShadowStack,
    /// The hardware shadow stack disagrees with the return address.
    HardwareShadowStack,
}

/// The landing-pad instruction with the given label: the label above bit
/// twelve, the opcode below.
pub open spec fn lpad_word(label: u32) -> u32 {
    (label << 12) | 0x17
}

/// Encodes the landing pad with the given label.
pub fn emit_lpad(label: u32) -> (word: u32)
    requires
        label < LABEL_LIMIT,
    ensures
        word == lpad_word(label),
        word == label * 4096 + 0x17,
        lpad_label(word) == Some(label),
{
    assert(((label << 12) | 0x17) == label * 4096 + 0x17 && ((label << 12) | 0x17) & 0xFFF == 0x17
        && ((label << 12) | 0x17) >> 12 == label) by (bit_vector)
        requires
            label < 0x10_0000,
    ;
    (label << 12) | 0x17
}

/// Encodes the push on the hardware shadow stack.
pub fn emit_hw_sspush() -> (word: u32)
    ensures
        word == 0x6010_0073,
{
    HW_SSPUSH
}

/// Encodes the pop-and-check on the hardware shadow stack.
pub fn emit_hw_sspopchk() -> (word: u32)
    ensures
        word == 0x6050_0073,
{
    HW_SSPOPCHK
}

/// The label of a landing pad, or `None` for any other instruction.
pub open spec fn lpad_label(word: u32) -> Option<u32> {
    if word & 0xFFF == 0x17 {
        Some(word >> 12)
    } else {
        None
    }
}

/// Reads the label of a landing pad; `None` if `word` is not one.
pub fn decode_lpad(word: u32) -> (label: Option<u32>)
    ensures
        label == lpad_label(word),
        label matches Some(l) ==> l < LABEL_LIMIT && lpad_word(l) == word,
{
    if word & 0xFFF == 0x17 {
        assert((word >> 12) < 0x10_0000 && (((word >> 12) << 12) | 0x17) == word) by (bit_vector)
            requires
                word & 0xFFF == 0x17,
        ;
        Some(word >> 12)
    } else {
        None
    }
}

/// Whether an indirect branch that expects label `expected` may land on an
/// instruction `word`: it must be a landing pad, and its label must be zero,
/// which matches every branch, or the expected one.
pub open spec fn landing_pad_accepts(word: u32, expected: u32) -> bool {
    match lpad_label(word) {
        Some(label) => label == 0 || label == expected,
        None => false,
    }
}

/// Checks an indirect branch against the first instruction of its target.
pub fn check_landing_pad(word: u32, expected: u32) -> (ok: bool)
    ensures
        ok == landing_pad_accepts(word, expected),
{
    match decode_lpad(word) {
        Some(label) => label == 0 || label == expected,
        None => false,
    }
}

/// A shadow stack as a value: where its pointer stands and the words it
/// holds, the oldest first.
pub struct ShadowStackView {
    pub ptr: u32,
    pub words: Seq<u32>,
}

/// A shadow stack: return addresses only, growing upward by one word for
/// each push.
#[derive(Debug)]
pub struct ShadowStack {
    pub ptr: u32,
    pub words: Vec<u32>,
}

impl View for ShadowStack {
    type V = ShadowStackView;

    open spec fn view(&self) -> ShadowStackView {
        ShadowStackView { ptr: self.ptr, words: self.words@ }
    }
}

impl ShadowStackView {
    /// The stack after a push of `ra`.
    pub open spec fn push(self, ra: u32) -> ShadowStackView {
        ShadowStackView { ptr: self.ptr.wrapping_add(WORD_SIZE), words: self.words.push(ra) }
    }

    /// The stack after a pop: the pointer one word lower, the newest word
    /// gone if there was one.
    pub open spec fn pop(self) -> ShadowStackView {
        ShadowStackView {
            ptr: self.ptr.wrapping_sub(WORD_SIZE),
            words: if self.words.len() > 0 {
                self.words.drop_last()
            } else {
                self.words
            },
        }
    }

    /// The newest word, if there is one.
    pub open spec fn top(self) -> Option<u32> {
        if self.words.len() > 0 {
            Some(self.words.last())
        } else {
            None
        }
    }
}

impl ShadowStack {
    /// An empty stack whose pointer stands at `ptr`.
    pub fn new(ptr: u32) -> (stack: ShadowStack)
        ensures
            stack@ == (ShadowStackView { ptr, words: Seq::empty() }),
    {
        ShadowStack { ptr, words: Vec::new() }
    }

    /// Stores `ra` where the pointer stands and moves the pointer up by one
    /// word.
    pub fn push(&mut self, ra: u32)
        ensures
            final(self)@ == old(self)@.push(ra),
    {
        self.words.push(ra);
        self.ptr = self.ptr.wrapping_add(WORD_SIZE);
    }

    /// Moves the pointer down by one word and takes the word there off the
    /// stack; `None` if the stack holds no word.
    pub fn pop(&mut self) -> (word: Option<u32>)
        ensures
            final(self)@ == old(self)@.pop(),
            word == old(self)@.top(),
    {
        self.ptr = self.ptr.wrapping_sub(WORD_SIZE);
        self.words.pop()
    }

    /// Sets the pointer and keeps the words.
    pub fn restore(&mut self, ptr: u32)
        ensures
            final(self)@ == (ShadowStackView { ptr, words: old(self)@.words }),
    {
        self.ptr = ptr;
    }

    /// Moves the stack to another place: the pointer stands at `ptr` and no
    /// word is on it.
    pub fn switch_to(&mut self, ptr: u32)
        ensures
            final(self)@ == (ShadowStackView { ptr, words: Seq::empty() }),
    {
        self.ptr = ptr;
        self.words.clear();
    }
}

/// A pop undoes a push and hands back the pushed word.
pub proof fn lemma_push_then_pop(stack: ShadowStackView, ra: u32)
    ensures
        stack.push(ra).pop() == stack,
        stack.push(ra).top() == Some(ra),
{
    assert(stack.words.push(ra).drop_last() =~= stack.words);
}

} // verus!
