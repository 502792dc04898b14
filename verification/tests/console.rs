use rvkern::console::{echo_response, Console};
use rvkern::uart::Uart;

#[test]
fn echo_of_a_backspace_erases() {
    assert_eq!(echo_response(8), vec![8u8, 32, 8]);
}

#[test]
fn echo_of_line_endings_is_crlf() {
    assert_eq!(echo_response(10), vec![13u8, 10]);
    assert_eq!(echo_response(13), vec![13u8, 10]);
}

#[test]
fn echo_of_ordinary_bytes_is_identity() {
    assert_eq!(echo_response(b'a'), vec![b'a']);
    assert_eq!(echo_response(0), vec![0u8]);
    assert_eq!(echo_response(255), vec![255u8]);
}

#[test]
fn serial_port_records_bytes_in_order() {
    let mut u = Uart::new(0x1000_0000);
    assert!(u.written_bytes().is_empty());
    u.put_byte(1);
    u.print_char('A');
    u.print_str("ok\r\n");
    assert_eq!(u.written_bytes().as_slice(), &[1, 65, 111, 107, 13, 10]);
}

#[test]
fn console_enables_the_port_and_echoes() {
    let u = Uart::new(0x1000_0000);
    let mut c = Console::new(u);
    c.handle(b'h');
    c.handle(b'i');
    c.handle(13);
    c.handle(8);
    assert_eq!(c.uart_ref().written_bytes().as_slice(), &[b'h', b'i', 13, 10, 8, 32, 8]);
}
