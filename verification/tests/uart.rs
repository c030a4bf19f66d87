use rot_kernel::uart::{uart_newline, uart_put_dec, uart_put_hex32, uart_putc, uart_puts, Uart};

#[test]
fn putc_appends_one_byte() {
    let mut uart = Uart::new();
    uart_putc(&mut uart, b'A');
    uart_putc(&mut uart, b'B');
    assert_eq!(uart.tx, vec![b'A', b'B']);
}

#[test]
fn puts_sends_bytes_in_order() {
    let mut uart = Uart::new();
    uart_puts(&mut uart, "OK\n");
    assert_eq!(uart.tx, b"OK\n".to_vec());
}

#[test]
fn puts_sends_utf8_bytes() {
    let mut uart = Uart::new();
    uart_puts(&mut uart, "a\u{2014}b");
    assert_eq!(uart.tx, vec![b'a', 0xE2, 0x80, 0x94, b'b']);
}

#[test]
fn hex32_is_ten_characters() {
    let mut uart = Uart::new();
    uart_put_hex32(&mut uart, 0xDEAD_BEEF);
    assert_eq!(uart.tx, b"0xdeadbeef".to_vec());
    let mut uart = Uart::new();
    uart_put_hex32(&mut uart, 0);
    assert_eq!(uart.tx, b"0x00000000".to_vec());
    let mut uart = Uart::new();
    uart_put_hex32(&mut uart, 0x0000_000F);
    assert_eq!(uart.tx, b"0x0000000f".to_vec());
}

#[test]
fn dec_has_no_leading_zeros() {
    let mut uart = Uart::new();
    uart_put_dec(&mut uart, 0);
    assert_eq!(uart.tx, b"0".to_vec());
    let mut uart = Uart::new();
    uart_put_dec(&mut uart, 21);
    assert_eq!(uart.tx, b"21".to_vec());
    let mut uart = Uart::new();
    uart_put_dec(&mut uart, 4_294_967_295);
    assert_eq!(uart.tx, b"4294967295".to_vec());
    let mut uart = Uart::new();
    uart_put_dec(&mut uart, 1000);
    assert_eq!(uart.tx, b"1000".to_vec());
}

#[test]
fn newline_is_cr_lf() {
    let mut uart = Uart::new();
    uart_newline(&mut uart);
    assert_eq!(uart.tx, vec![0x0D, 0x0A]);
}
