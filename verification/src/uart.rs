//! The serial port: a byte sink, and the text helpers that write to it.

use vstd::prelude::*;
use vstd::string::StringSliceAdditionalSpecFns;

verus! {

/// The serial port, seen as the bytes it has been handed so far.
#[derive(Debug)]
pub struct Uart {
    pub tx: Vec<u8>,
}

impl View for Uart {
    type V = Seq<u8>;

    open spec fn view(&self) -> Seq<u8> {
        self.tx@
    }
}

impl Uart {
    /// A port that has transmitted nothing yet.
    pub fn new() -> (uart: Uart)
        ensures
            uart@ == Seq::<u8>::empty(),
    {
        Uart { tx: Vec::new() }
    }
}

/// The ASCII character for one hexadecimal digit, in lower case.
pub open spec fn hex_digit(d: u32) -> u8
    recommends
        d < 16,
{
    if d < 10 {
        (0x30 + d) as u8
    } else {
        (0x61 + d - 10) as u8
    }
}

/// Digit `k` of `val` in base sixteen, counted from the least significant.
pub open spec fn nibble(val: u32, k: u32) -> u32
    recommends
        k < 8,
{
    (val >> (4 * k)) & 0xF
}

/// `val` as text: `0x`, then its eight hexadecimal digits from the most
/// significant down.
pub open spec fn hex32_text(val: u32) -> Seq<u8> {
    seq![0x30u8, 0x78u8] + Seq::new(8, |i: int| hex_digit(nibble(val, (7 - i) as u32)))
}

/// `n` as decimal text without leading zeros.
pub open spec fn dec_text(n: nat) -> Seq<u8>
    decreases n,
{
    if n < 10 {
        seq![(0x30 + n) as u8]
    } else {
        dec_text(n / 10).push((0x30 + n % 10) as u8)
    }
}

/// Carriage return and line feed.
pub open spec fn newline_text() -> Seq<u8> {
    seq![0x0Du8, 0x0Au8]
}

/// Transmits one byte.
pub fn uart_putc(uart: &mut Uart, c: u8)
    ensures
        final(uart)@ == old(uart)@.push(c),
{
    uart.tx.push(c);
}

/// Transmits the bytes of `s` in order.
pub fn uart_puts(uart: &mut Uart, s: &str)
    ensures
        final(uart)@ == old(uart)@ + s.spec_bytes(),
{
    let bytes = s.as_bytes();
    let mut i: usize = 0;
    while i < bytes.len()
        invariant
            i <= bytes.len(),
            bytes@ == s.spec_bytes(),
            uart@ == old(uart)@ + bytes@.subrange(0, i as int),
        decreases bytes.len() - i,
    {
        uart_putc(uart, bytes[i]);
        i += 1;
    }
    assert(bytes@.subrange(0, i as int) == bytes@);
}

/// The nibble of a value is a single hexadecimal digit, and it is the
/// remainder of the value divided by the matching power of sixteen.
pub proof fn lemma_nibble_is_digit(val: u32, k: u32)
    requires
        k < 8,
    ensures
        nibble(val, k) < 16,
        nibble(val, k) == (val / (1u32 << (4 * k))) % 16,
{
    assert(((val >> (4 * k)) & 0xF) < 16 && ((val >> (4 * k)) & 0xF) == (val / (1u32 << (4
        * k))) % 16) by (bit_vector)
        requires
            k < 8,
    ;
}

/// The eight hexadecimal digits of a value, put back in their places, give
/// the value.
pub proof fn lemma_nibbles_make_value(val: u32)
    ensures
        nibble(val, 7) * 0x1000_0000 + nibble(val, 6) * 0x100_0000 + nibble(val, 5) * 0x10_0000
            + nibble(val, 4) * 0x1_0000 + nibble(val, 3) * 0x1000 + nibble(val, 2) * 0x100
            + nibble(val, 1) * 0x10 + nibble(val, 0) == val,
{
    assert(((val >> 28) & 0xF) * 0x1000_0000 + ((val >> 24) & 0xF) * 0x100_0000 + ((val >> 20)
        & 0xF) * 0x10_0000 + ((val >> 16) & 0xF) * 0x1_0000 + ((val >> 12) & 0xF) * 0x1000 + ((val
        >> 8) & 0xF) * 0x100 + ((val >> 4) & 0xF) * 0x10 + ((val >> 0) & 0xF) == val)
        by (bit_vector);
}

/// The number that a string of decimal digits stands for.
pub open spec fn dec_value(text: Seq<u8>) -> nat
    decreases text.len(),
{
    if text.len() == 0 {
        0
    } else {
        (dec_value(text.drop_last()) * 10 + (text.last() - 0x30)) as nat
    }
}

/// Decimal text is made of digits only, is never empty, begins with a zero
/// only for the number zero, and stands for the number it was made from.
pub proof fn lemma_dec_text(n: nat)
    ensures
        dec_text(n).len() >= 1,
        forall|i: int| 0 <= i < dec_text(n).len() ==> 0x30 <= #[trigger] dec_text(n)[i] <= 0x39,
        n > 0 ==> dec_text(n)[0] != 0x30,
        dec_value(dec_text(n)) == n,
    decreases n,
{
    if n < 10 {
        assert(dec_text(n).drop_last() =~= Seq::<u8>::empty());
        assert(dec_value(dec_text(n).drop_last()) == 0);
    } else {
        lemma_dec_text(n / 10);
        assert(dec_text(n).drop_last() =~= dec_text(n / 10));
    }
}

/// Transmits `val` as `0x` and eight lower-case hexadecimal digits.
pub fn uart_put_hex32(uart: &mut Uart, val: u32)
    ensures
        final(uart)@ == old(uart)@ + hex32_text(val),
{
    uart_putc(uart, 0x30);
    uart_putc(uart, 0x78);
    let ghost head = old(uart)@ + seq![0x30u8, 0x78u8];
    assert(uart@ == head);
    let mut n: u32 = 0;
    while n < 8
        invariant
            n <= 8,
            uart@ == head + Seq::new(n as nat, |i: int| hex_digit(nibble(val, (7 - i) as u32))),
        decreases 8 - n,
    {
        let k: u32 = 7 - n;
        let d: u32 = (val >> (4 * k)) & 0xF;
        proof {
            lemma_nibble_is_digit(val, k);
        }
        let c: u8 = if d < 10 {
            (0x30 + d) as u8
        } else {
            (0x61 + d - 10) as u8
        };
        uart_putc(uart, c);
        n += 1;
    }
}

/// Transmits `val` in decimal, without leading zeros.
pub fn uart_put_dec(uart: &mut Uart, val: u32)
    ensures
        final(uart)@ == old(uart)@ + dec_text(val as nat),
    decreases val,
{
    if val >= 10 {
        uart_put_dec(uart, val / 10);
    }
    uart_putc(uart, (0x30 + val % 10) as u8);
}

/// Transmits a carriage return and a line feed.
pub fn uart_newline(uart: &mut Uart)
    ensures
        final(uart)@ == old(uart)@ + newline_text(),
{
    uart_putc(uart, 0x0D);
    uart_putc(uart, 0x0A);
}

} // verus!
