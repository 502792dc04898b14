//! The serial sink: a byte-oriented write port at a fixed MMIO
//! address.  The model records the device's base address, the bytes
//! pushed out over the line in order, and the two enable bits the
//! console flips at start-up; the volatile register accesses that
//! realise this on hardware live outside the library.

use vstd::prelude::*;
use vstd::string::StrSliceExecFns;

verus! {

/// The byte a character puts on the wire: its code point truncated to
/// the register's width.
pub open spec fn byte_of_char(c: char) -> u8 {
    (c as int % 256) as u8
}

/// The byte stream a string puts on the wire, character by character.
pub open spec fn bytes_of_str(s: Seq<char>) -> Seq<u8> {
    Seq::new(s.len(), |i: int| byte_of_char(s[i]))
}

pub struct Uart {
    addr: u64,
    written: Vec<u8>,
    fifo_enabled: bool,
    interrupts_enabled: bool,
}

impl Uart {
    /// Base address of the device's register window.
    pub closed spec fn addr_spec(self) -> u64 {
        self.addr
    }

    /// Every byte written to the transmit register so far, in order.
    pub closed spec fn written_spec(self) -> Seq<u8> {
        self.written@
    }

    pub closed spec fn fifo_enabled_spec(self) -> bool {
        self.fifo_enabled
    }

    pub closed spec fn interrupts_enabled_spec(self) -> bool {
        self.interrupts_enabled
    }

    /// A port at the given base address with nothing sent yet.
    pub fn new(addr: u64) -> (r: Uart)
        ensures
            r.addr_spec() == addr,
            r.written_spec() == Seq::<u8>::empty(),
            !r.fifo_enabled_spec(),
            !r.interrupts_enabled_spec(),
    {
        let r = Uart { addr, written: Vec::new(), fifo_enabled: false, interrupts_enabled: false };
        proof {
            assert(r.written@ =~= Seq::<u8>::empty());
        }
        r
    }

    /// Put one byte on the wire.
    pub fn put_byte(&mut self, b: u8)
        ensures
            final(self).written_spec() == old(self).written_spec().push(b),
            final(self).addr_spec() == old(self).addr_spec(),
            final(self).fifo_enabled_spec() == old(self).fifo_enabled_spec(),
            final(self).interrupts_enabled_spec() == old(self).interrupts_enabled_spec(),
    {
        self.written.push(b);
    }

    /// Put one character's byte on the wire.
    pub fn print_char(&mut self, c: char)
        ensures
            final(self).written_spec() == old(self).written_spec().push(byte_of_char(c)),
            final(self).addr_spec() == old(self).addr_spec(),
            final(self).fifo_enabled_spec() == old(self).fifo_enabled_spec(),
            final(self).interrupts_enabled_spec() == old(self).interrupts_enabled_spec(),
    {
        let b = ((c as u32) % 256) as u8;
        self.put_byte(b);
    }

    /// Put a string on the wire, its characters' bytes in order.
    pub fn print_str(&mut self, s: &str)
        ensures
            final(self).written_spec() == old(self).written_spec() + bytes_of_str(s@),
            final(self).addr_spec() == old(self).addr_spec(),
            final(self).fifo_enabled_spec() == old(self).fifo_enabled_spec(),
            final(self).interrupts_enabled_spec() == old(self).interrupts_enabled_spec(),
    {
        let n = s.unicode_len();
        let mut i: usize = 0;
        while i < n
            invariant
                i <= n,
                n == s@.len(),
                self.written@ == old(self).written@ + bytes_of_str(s@.take(i as int)),
                self.addr == old(self).addr,
                self.fifo_enabled == old(self).fifo_enabled,
                self.interrupts_enabled == old(self).interrupts_enabled,
            decreases n - i,
        {
            let c = s.get_char(i);
            self.print_char(c);
            proof {
                assert(bytes_of_str(s@.take(i + 1)) =~= bytes_of_str(s@.take(i as int)).push(
                    byte_of_char(s@[i as int]),
                ));
                assert(self.written@ =~= old(self).written@ + bytes_of_str(s@.take(i + 1)));
            }
            i = i + 1;
        }
        proof {
            assert(s@.take(n as int) =~= s@);
        }
    }

    /// Switch the receive/transmit FIFOs on.
    pub fn enable_fifo(&mut self)
        ensures
            final(self).fifo_enabled_spec(),
            final(self).written_spec() == old(self).written_spec(),
            final(self).addr_spec() == old(self).addr_spec(),
            final(self).interrupts_enabled_spec() == old(self).interrupts_enabled_spec(),
    {
        self.fifo_enabled = true;
    }

    /// Switch receive interrupts on.
    pub fn enable_interrupts(&mut self)
        ensures
            final(self).interrupts_enabled_spec(),
            final(self).written_spec() == old(self).written_spec(),
            final(self).addr_spec() == old(self).addr_spec(),
            final(self).fifo_enabled_spec() == old(self).fifo_enabled_spec(),
    {
        self.interrupts_enabled = true;
    }

    /// The bytes sent so far, for inspection.
    pub fn written_bytes(&self) -> (r: &Vec<u8>)
        ensures
            r@ == self.written_spec(),
    {
        &self.written
    }
}

} // verus!
