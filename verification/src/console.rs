//! The interactive console: echoing of received bytes back over the
//! serial line.  The decision of what to send for each received byte
//! is pure and verified here; the loop that blocks on the receive
//! register runs outside the library and feeds bytes in one at a
//! time.

use vstd::prelude::*;

use crate::uart::Uart;

verus! {

/// What the console sends in answer to one received byte: a
/// backspace erases (step back, blank, step back), a line ending
/// becomes carriage-return line-feed, and anything else is echoed as
/// it is.
pub open spec fn echo_spec(c: u8) -> Seq<u8> {
    if c == 8 {
        seq![8u8, 32u8, 8u8]
    } else if c == 10 || c == 13 {
        seq![13u8, 10u8]
    } else {
        seq![c]
    }
}

/// The bytes the console answers one received byte with.
pub fn echo_response(c: u8) -> (r: Vec<u8>)
    ensures
        r@ == echo_spec(c),
{
    let mut v: Vec<u8> = Vec::new();
    if c == 8 {
        v.push(8);
        v.push(32);
        v.push(8);
    } else if c == 10 || c == 13 {
        v.push(13);
        v.push(10);
    } else {
        v.push(c);
    }
    proof {
        assert(v@ =~= echo_spec(c));
    }
    v
}

pub struct Console {
    uart: Uart,
}

impl Console {
    /// The console's serial port.
    pub closed spec fn uart_spec(self) -> Uart {
        self.uart
    }

    /// Take the serial port over, switching on its FIFOs and receive
    /// interrupts.
    pub fn new(uart: Uart) -> (r: Console)
        ensures
            r.uart_spec().fifo_enabled_spec(),
            r.uart_spec().interrupts_enabled_spec(),
            r.uart_spec().written_spec() == uart.written_spec(),
            r.uart_spec().addr_spec() == uart.addr_spec(),
    {
        let mut uart = uart;
        uart.enable_fifo();
        uart.enable_interrupts();
        Console { uart }
    }

    /// The serial port, for inspection.
    pub fn uart_ref(&self) -> (r: &Uart)
        ensures
            *r == self.uart_spec(),
    {
        &self.uart
    }

    /// Answer one received byte over the line.
    pub fn handle(&mut self, c: u8)
        ensures
            final(self).uart_spec().written_spec() == old(self).uart_spec().written_spec()
                + echo_spec(c),
            final(self).uart_spec().addr_spec() == old(self).uart_spec().addr_spec(),
            final(self).uart_spec().fifo_enabled_spec() == old(
                self,
            ).uart_spec().fifo_enabled_spec(),
            final(self).uart_spec().interrupts_enabled_spec() == old(
                self,
            ).uart_spec().interrupts_enabled_spec(),
    {
        if c == 8 {
            self.uart.put_byte(8);
            self.uart.put_byte(32);
            self.uart.put_byte(8);
        } else if c == 10 || c == 13 {
            self.uart.put_byte(13);
            self.uart.put_byte(10);
        } else {
            self.uart.put_byte(c);
        }
        proof {
            assert(self.uart_spec().written_spec() =~= old(self).uart_spec().written_spec()
                + echo_spec(c));
        }
    }
}

} // verus!
