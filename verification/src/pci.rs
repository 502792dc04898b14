//! Typed access to PCI configuration space and the BAR sizing protocol.
//!
//! A device's 256-byte configuration region is held as 64 dwords of
//! explicit state (`PciConfig`), together with the bits the device
//! hardwires in each Base Address Register: writes to a BAR keep only
//! the address bits the device implements and always read back the
//! hardwired type flags, which is exactly what the all-ones sizing
//! protocol relies on.

use vstd::prelude::*;

verus! {

/// Base of the memory-mapped PCI configuration region.
pub const PCI_BASE: u32 = 0x3000_0000;

#[derive(Clone, Copy, Debug, PartialEq, Eq, Structural)]
pub enum PCIError {
    InvalidRegister,
    InvalidDevice,
    InvalidAddress,
}

/// Configuration address of function 0 of the device at `(bus, slot)`.
pub fn pci_device_address(bus: u8, slot: u8) -> (r: u32)
    ensures
        r == PCI_BASE | ((bus as u32) << 20) | ((slot as u32) << 15),
{
    let lbus = bus as u32;
    let lslot = slot as u32;
    PCI_BASE | (lbus << 20) | (lslot << 15)
}

/// Configuration address of function `func` of the device at
/// `(bus, slot)`.
pub fn pci_function_address(bus: u8, slot: u8, func: u8) -> (r: u32)
    ensures
        r == PCI_BASE | ((bus as u32) << 20) | ((slot as u32) << 15) | ((func as u32) << 12),
{
    let lbus = bus as u32;
    let lslot = slot as u32;
    let lfunc = func as u32;
    PCI_BASE | (lbus << 20) | (lslot << 15) | (lfunc << 12)
}

/// The PCI command register: a 16-bit register at offset 4 whose bits
/// enable the device's decoders and bus behaviours.
#[derive(Clone, Copy, Debug, PartialEq, Eq, Structural)]
pub struct PCICommandReg {
    bits: u16,
}

impl PCICommandReg {
    pub closed spec fn bits_spec(self) -> u16 {
        self.bits
    }

    pub closed spec fn from_bits_spec(bits: u16) -> PCICommandReg {
        PCICommandReg { bits }
    }

    /// The device responds to I/O space accesses.
    pub open spec fn io_space_spec(self) -> bool {
        self.bits_spec() & 0x0001 != 0
    }

    /// The device responds to memory space accesses.
    pub open spec fn memory_space_spec(self) -> bool {
        self.bits_spec() & 0x0002 != 0
    }

    /// The device may act as a bus master.
    pub open spec fn bus_master_spec(self) -> bool {
        self.bits_spec() & 0x0004 != 0
    }

    /// Assertion of the device's INTx# signal is disabled.
    pub open spec fn interrupt_disable_spec(self) -> bool {
        self.bits_spec() & 0x0400 != 0
    }

    pub fn from_bits(bits: u16) -> (r: PCICommandReg)
        ensures
            r == PCICommandReg::from_bits_spec(bits),
    {
        PCICommandReg { bits }
    }

    pub fn to_bits(&self) -> (r: u16)
        ensures
            r == self.bits_spec(),
    {
        self.bits
    }

    pub fn io_space(&self) -> (r: bool)
        ensures
            r == self.io_space_spec(),
    {
        self.bits & 0x0001 != 0
    }

    pub fn memory_space(&self) -> (r: bool)
        ensures
            r == self.memory_space_spec(),
    {
        self.bits & 0x0002 != 0
    }

    pub fn bus_master(&self) -> (r: bool)
        ensures
            r == self.bus_master_spec(),
    {
        self.bits & 0x0004 != 0
    }

    pub fn interrupt_disable(&self) -> (r: bool)
        ensures
            r == self.interrupt_disable_spec(),
    {
        self.bits & 0x0400 != 0
    }

    fn set_mask(&mut self, mask: u16, v: bool)
        ensures
            final(self).bits_spec() == if v {
                old(self).bits_spec() | mask
            } else {
                old(self).bits_spec() & !mask
            },
    {
        if v {
            self.bits = self.bits | mask;
        } else {
            self.bits = self.bits & !mask;
        }
    }

    pub fn set_io_space(&mut self, v: bool)
        ensures
            final(self).io_space_spec() == v,
            final(self).memory_space_spec() == old(self).memory_space_spec(),
            final(self).bus_master_spec() == old(self).bus_master_spec(),
            final(self).interrupt_disable_spec() == old(self).interrupt_disable_spec(),
            final(self).bits_spec() == if v {
                old(self).bits_spec() | 0x0001
            } else {
                old(self).bits_spec() & !0x0001
            },
    {
        let ghost b = self.bits;
        self.set_mask(0x0001, v);
        proof {
            if v {
                assert((b | 0x0001) & 0x0001 != 0 && ((b | 0x0001) & 0x0002) == (b & 0x0002) && ((b
                    | 0x0001) & 0x0004) == (b & 0x0004) && ((b | 0x0001) & 0x0400) == (b
                    & 0x0400)) by (bit_vector);
            } else {
                assert((b & !0x0001) & 0x0001 == 0 && ((b & !0x0001) & 0x0002) == (b & 0x0002) && ((b
                    & !0x0001) & 0x0004) == (b & 0x0004) && ((b & !0x0001) & 0x0400) == (b
                    & 0x0400)) by (bit_vector);
            }
        }
    }

    pub fn set_memory_space(&mut self, v: bool)
        ensures
            final(self).memory_space_spec() == v,
            final(self).io_space_spec() == old(self).io_space_spec(),
            final(self).bus_master_spec() == old(self).bus_master_spec(),
            final(self).interrupt_disable_spec() == old(self).interrupt_disable_spec(),
            final(self).bits_spec() == if v {
                old(self).bits_spec() | 0x0002
            } else {
                old(self).bits_spec() & !0x0002
            },
    {
        let ghost b = self.bits;
        self.set_mask(0x0002, v);
        proof {
            if v {
                assert((b | 0x0002) & 0x0002 != 0 && ((b | 0x0002) & 0x0001) == (b & 0x0001) && ((b
                    | 0x0002) & 0x0004) == (b & 0x0004) && ((b | 0x0002) & 0x0400) == (b
                    & 0x0400)) by (bit_vector);
            } else {
                assert((b & !0x0002) & 0x0002 == 0 && ((b & !0x0002) & 0x0001) == (b & 0x0001) && ((b
                    & !0x0002) & 0x0004) == (b & 0x0004) && ((b & !0x0002) & 0x0400) == (b
                    & 0x0400)) by (bit_vector);
            }
        }
    }

    pub fn set_bus_master(&mut self, v: bool)
        ensures
            final(self).bus_master_spec() == v,
            final(self).io_space_spec() == old(self).io_space_spec(),
            final(self).memory_space_spec() == old(self).memory_space_spec(),
            final(self).interrupt_disable_spec() == old(self).interrupt_disable_spec(),
            final(self).bits_spec() == if v {
                old(self).bits_spec() | 0x0004
            } else {
                old(self).bits_spec() & !0x0004
            },
    {
        let ghost b = self.bits;
        self.set_mask(0x0004, v);
        proof {
            if v {
                assert((b | 0x0004) & 0x0004 != 0 && ((b | 0x0004) & 0x0001) == (b & 0x0001) && ((b
                    | 0x0004) & 0x0002) == (b & 0x0002) && ((b | 0x0004) & 0x0400) == (b
                    & 0x0400)) by (bit_vector);
            } else {
                assert((b & !0x0004) & 0x0004 == 0 && ((b & !0x0004) & 0x0001) == (b & 0x0001) && ((b
                    & !0x0004) & 0x0002) == (b & 0x0002) && ((b & !0x0004) & 0x0400) == (b
                    & 0x0400)) by (bit_vector);
            }
        }
    }

    pub fn set_interrupt_disable(&mut self, v: bool)
        ensures
            final(self).interrupt_disable_spec() == v,
            final(self).io_space_spec() == old(self).io_space_spec(),
            final(self).memory_space_spec() == old(self).memory_space_spec(),
            final(self).bus_master_spec() == old(self).bus_master_spec(),
            final(self).bits_spec() == if v {
                old(self).bits_spec() | 0x0400
            } else {
                old(self).bits_spec() & !0x0400
            },
    {
        let ghost b = self.bits;
        self.set_mask(0x0400, v);
        proof {
            if v {
                assert((b | 0x0400) & 0x0400 != 0 && ((b | 0x0400) & 0x0001) == (b & 0x0001) && ((b
                    | 0x0400) & 0x0002) == (b & 0x0002) && ((b | 0x0400) & 0x0004) == (b
                    & 0x0004)) by (bit_vector);
            } else {
                assert((b & !0x0400) & 0x0400 == 0 && ((b & !0x0400) & 0x0001) == (b & 0x0001) && ((b
                    & !0x0400) & 0x0002) == (b & 0x0002) && ((b & !0x0400) & 0x0004) == (b
                    & 0x0004)) by (bit_vector);
            }
        }
    }
}

/// The PCI status register (read-only view).
#[derive(Clone, Copy, Debug, PartialEq, Eq, Structural)]
pub struct PCIStatusReg {
    bits: u16,
}

impl PCIStatusReg {
    pub closed spec fn bits_spec(self) -> u16 {
        self.bits
    }

    pub closed spec fn from_bits_spec(bits: u16) -> PCIStatusReg {
        PCIStatusReg { bits }
    }

    pub open spec fn interrupt_status_spec(self) -> bool {
        self.bits_spec() & 0x0008 != 0
    }

    pub open spec fn capabilities_list_spec(self) -> bool {
        self.bits_spec() & 0x0010 != 0
    }

    pub fn from_bits(bits: u16) -> (r: PCIStatusReg)
        ensures
            r == PCIStatusReg::from_bits_spec(bits),
    {
        PCIStatusReg { bits }
    }

    pub fn to_bits(&self) -> (r: u16)
        ensures
            r == self.bits_spec(),
    {
        self.bits
    }

    /// State of the device's INTx# signal.
    pub fn interrupt_status(&self) -> (r: bool)
        ensures
            r == self.interrupt_status_spec(),
    {
        self.bits & 0x0008 != 0
    }

    /// The device implements a capabilities list at offset 0x34.
    pub fn capabilities_list(&self) -> (r: bool)
        ensures
            r == self.capabilities_list_spec(),
    {
        self.bits & 0x0010 != 0
    }

    /// Slowest DEVSEL# timing the device uses.
    pub fn devsel_timing(&self) -> (r: u8)
        ensures
            r == (self.bits_spec() >> 9) as u8 & 0x03,
    {
        (self.bits >> 9) as u8 & 0x03
    }
}

/// The built-in-self-test register at offset 0xF.
#[derive(Clone, Copy, Debug, PartialEq, Eq, Structural)]
pub struct PCIBISTReg {
    bits: u8,
}

impl PCIBISTReg {
    pub closed spec fn bits_spec(self) -> u8 {
        self.bits
    }

    pub closed spec fn from_bits_spec(bits: u8) -> PCIBISTReg {
        PCIBISTReg { bits }
    }

    pub fn from_bits(bits: u8) -> (r: PCIBISTReg)
        ensures
            r == PCIBISTReg::from_bits_spec(bits),
    {
        PCIBISTReg { bits }
    }

    pub fn completion_code(&self) -> (r: u8)
        ensures
            r == self.bits_spec() & 0x0F,
    {
        self.bits & 0x0F
    }

    pub fn start_bist(&self) -> (r: bool)
        ensures
            r == (self.bits_spec() & 0x40 != 0),
    {
        self.bits & 0x40 != 0
    }

    pub fn bist_capable(&self) -> (r: bool)
        ensures
            r == (self.bits_spec() & 0x80 != 0),
    {
        self.bits & 0x80 != 0
    }
}

/// Control word of an MSI capability entry.
#[derive(Clone, Copy, Debug, PartialEq, Eq, Structural)]
pub struct PCICapabilityControlRegister {
    bits: u16,
}

impl PCICapabilityControlRegister {
    pub closed spec fn bits_spec(self) -> u16 {
        self.bits
    }

    pub closed spec fn from_bits_spec(bits: u16) -> PCICapabilityControlRegister {
        PCICapabilityControlRegister { bits }
    }

    pub fn from_bits(bits: u16) -> (r: PCICapabilityControlRegister)
        ensures
            r == PCICapabilityControlRegister::from_bits_spec(bits),
    {
        PCICapabilityControlRegister { bits }
    }

    pub fn enable(&self) -> (r: bool)
        ensures
            r == (self.bits_spec() & 0x0001 != 0),
    {
        self.bits & 0x0001 != 0
    }

    pub fn multiple_message_capable(&self) -> (r: u8)
        ensures
            r == (self.bits_spec() >> 1) as u8 & 0x07,
    {
        (self.bits >> 1) as u8 & 0x07
    }

    pub fn multiple_message_enable(&self) -> (r: u8)
        ensures
            r == (self.bits_spec() >> 4) as u8 & 0x07,
    {
        (self.bits >> 4) as u8 & 0x07
    }

    pub fn address_64bit(&self) -> (r: bool)
        ensures
            r == (self.bits_spec() & 0x0080 != 0),
    {
        self.bits & 0x0080 != 0
    }
}

/// One 16-byte capability entry, as it sits in configuration space.
#[derive(Clone, Copy, Debug, PartialEq, Eq, Structural)]
pub struct PCICapabilitiesList {
    bits: u128,
}

impl PCICapabilitiesList {
    pub closed spec fn bits_spec(self) -> u128 {
        self.bits
    }

    pub closed spec fn from_bits_spec(bits: u128) -> PCICapabilitiesList {
        PCICapabilitiesList { bits }
    }

    pub fn from_bits(bits: u128) -> (r: PCICapabilitiesList)
        ensures
            r == PCICapabilitiesList::from_bits_spec(bits),
    {
        PCICapabilitiesList { bits }
    }

    pub fn capability_id(&self) -> (r: u8)
        ensures
            r == self.bits_spec() as u8,
    {
        self.bits as u8
    }

    pub fn next(&self) -> (r: u8)
        ensures
            r == (self.bits_spec() >> 8) as u8,
    {
        (self.bits >> 8) as u8
    }

    pub fn control(&self) -> (r: PCICapabilityControlRegister)
        ensures
            r == PCICapabilityControlRegister::from_bits_spec((self.bits_spec() >> 16) as u16),
    {
        PCICapabilityControlRegister::from_bits((self.bits >> 16) as u16)
    }

    pub fn address(&self) -> (r: u64)
        ensures
            r == (self.bits_spec() >> 32) as u64,
    {
        (self.bits >> 32) as u64
    }

    pub fn data(&self) -> (r: u16)
        ensures
            r == (self.bits_spec() >> 96) as u16,
    {
        (self.bits >> 96) as u16
    }
}

/// Field extractions from a dword stay within their field's range.
proof fn lemma_u32_extract_bounds()
    by (bit_vector)
    ensures
        forall|x: u32| #![auto] (x & 0xFFFF) < 0x10000,
        forall|x: u32| #![auto] (x >> 16) < 0x10000,
        forall|x: u32| #![auto] (x & 0xFF) < 0x100,
        forall|x: u32| #![auto] ((x >> 8) & 0xFF) < 0x100,
        forall|x: u32| #![auto] ((x >> 16) & 0xFF) < 0x100,
        forall|x: u32| #![auto] (x >> 24) < 0x100,
        forall|x: u32| #![auto] ((x >> 23) & 1) < 2,
{
}

/// Bit identities behind the BAR write semantics and the all-ones
/// sizing probe.
proof fn lemma_bar_write_bits()
    by (bit_vector)
    ensures
        forall|v: u32, m: u32, f: u32| #![auto]
            m & 0xF == 0 && f < 0x10 ==> ((((v & m) | f) & m) | f) == ((v & m) | f),
        forall|m: u32, f: u32| #![auto]
            m & 0xF == 0 && f < 0x10 ==> (((0xFFFFFFFFu32 & m) | f) & 0xFFFFFFF0) == m,
        forall|m: u32| #![auto] (!m == 0xFFFFFFFFu32) == (m == 0),
        forall|m: u32| #![auto] m != 0 ==> !m < 0xFFFFFFFFu32,
{
}

/// Replacing the low half of a dword leaves the high half alone.
proof fn lemma_u32_low_half()
    by (bit_vector)
    ensures
        forall|d: u32, c: u32| #![auto]
            c < 0x10000 ==> (((d & 0xFFFF0000) | c) & 0xFFFF) == c,
        forall|d: u32, c: u32| #![auto]
            c < 0x10000 ==> (((d & 0xFFFF0000) | c) >> 16) == (d >> 16),
{
}

/// The addressable size a BAR advertises through the sizing protocol,
/// as a function of the address bits the device implements.
pub open spec fn bar_size_spec(mask: u32) -> u32 {
    if mask == 0 {
        0u32
    } else {
        (!mask + 1) as u32
    }
}

/// One PCI function's configuration space: 64 dwords of register
/// state, together with the address bits each BAR implements and the
/// type flags it hardwires into its low nibble.  A write to a BAR
/// keeps only implemented address bits and reads back the flags, as
/// the sizing protocol requires.
pub struct PciConfig {
    regs: Vec<u32>,
    bar_mask: Vec<u32>,
    bar_flags: Vec<u32>,
}

/// What lands in a configuration register when `v` is written at
/// `offset`: BAR writes are filtered by the device, all others stick.
pub open spec fn stored_value(cfg: PciConfig, offset: int, v: u32) -> u32 {
    if 4 <= offset < 10 {
        (v & cfg.masks_spec()[offset - 4]) | cfg.flags_spec()[offset - 4]
    } else {
        v
    }
}

impl PciConfig {
    /// The 64 configuration dwords.
    pub closed spec fn regs_spec(self) -> Seq<u32> {
        self.regs@
    }

    /// Per BAR, the mask of address bits the device implements.
    pub closed spec fn masks_spec(self) -> Seq<u32> {
        self.bar_mask@
    }

    /// Per BAR, the hardwired low type bits.
    pub closed spec fn flags_spec(self) -> Seq<u32> {
        self.bar_flags@
    }

    pub open spec fn wf(self) -> bool {
        &&& self.regs_spec().len() == 64
        &&& self.masks_spec().len() == 6
        &&& self.flags_spec().len() == 6
        &&& forall|i: int| 0 <= i < 6 ==> (#[trigger] self.masks_spec()[i]) & 0xF == 0
        &&& forall|i: int| 0 <= i < 6 ==> (#[trigger] self.flags_spec()[i]) < 0x10
        &&& forall|i: int|
            0 <= i < 6 ==> (#[trigger] self.regs_spec()[4 + i]) == (self.regs_spec()[4 + i]
                & self.masks_spec()[i]) | self.flags_spec()[i]
    }

    /// Build a function's configuration space.  The BAR registers are
    /// brought into the canonical form the device itself would hold
    /// them in: only implemented address bits, flags always visible.
    pub fn new(regs: Vec<u32>, bar_mask: Vec<u32>, bar_flags: Vec<u32>) -> (r: PciConfig)
        requires
            regs@.len() == 64,
            bar_mask@.len() == 6,
            bar_flags@.len() == 6,
            forall|i: int| 0 <= i < 6 ==> (#[trigger] bar_mask@[i]) & 0xF == 0,
            forall|i: int| 0 <= i < 6 ==> (#[trigger] bar_flags@[i]) < 0x10,
        ensures
            r.wf(),
            r.masks_spec() == bar_mask@,
            r.flags_spec() == bar_flags@,
            forall|j: int| 0 <= j < 64 && !(4 <= j < 10) ==> r.regs_spec()[j] == regs@[j],
            forall|i: int|
                0 <= i < 6 ==> (#[trigger] r.regs_spec()[4 + i]) == (regs@[4 + i] & bar_mask@[i])
                    | bar_flags@[i],
    {
        let ghost orig = regs@;
        let mut regs = regs;
        let mut i: usize = 0;
        while i < 6
            invariant
                i <= 6,
                regs@.len() == 64,
                orig.len() == 64,
                bar_mask@.len() == 6,
                bar_flags@.len() == 6,
                forall|j: int| 0 <= j < 64 && !(4 <= j < 4 + i) ==> regs@[j] == orig[j],
                forall|k: int|
                    0 <= k < i ==> (#[trigger] regs@[4 + k]) == (orig[4 + k] & bar_mask@[k])
                        | bar_flags@[k],
            decreases 6 - i,
        {
            let v = regs[4 + i];
            regs.set(4 + i, (v & bar_mask[i]) | bar_flags[i]);
            i = i + 1;
        }
        let r = PciConfig { regs, bar_mask, bar_flags };
        proof {
            lemma_bar_write_bits();
        }
        r
    }

    /// Read the configuration dword at `offset`.
    pub fn read(&self, offset: usize) -> (r: u32)
        requires
            offset < 64,
            self.wf(),
        ensures
            r == self.regs_spec()[offset as int],
    {
        self.regs[offset]
    }

    /// Write the configuration dword at `offset`, with the device
    /// filtering writes to its BARs.
    pub fn write(&mut self, offset: usize, v: u32)
        requires
            old(self).wf(),
            offset < 64,
        ensures
            final(self).wf(),
            final(self).masks_spec() == old(self).masks_spec(),
            final(self).flags_spec() == old(self).flags_spec(),
            final(self).regs_spec() == old(self).regs_spec().update(
                offset as int,
                stored_value(*old(self), offset as int, v),
            ),
    {
        if 4 <= offset && offset < 10 {
            let b = offset - 4;
            self.regs.set(offset, (v & self.bar_mask[b]) | self.bar_flags[b]);
            proof {
                lemma_bar_write_bits();
            }
        } else {
            self.regs.set(offset, v);
        }
    }
}

/// The command register held in configuration dword 1.
pub open spec fn command_of(d: u32) -> PCICommandReg {
    PCICommandReg::from_bits_spec((d & 0xFFFF) as u16)
}

/// The common header fields, as parsed from the first dwords of a
/// configuration space.
pub open spec fn header_spec(s: Seq<u32>) -> PCICommonHeader {
    PCICommonHeader {
        vendor_id: (s[0] & 0xFFFF) as u16,
        device_id: (s[0] >> 16) as u16,
        command: PCICommandReg::from_bits_spec((s[1] & 0xFFFF) as u16),
        status: PCIStatusReg::from_bits_spec((s[1] >> 16) as u16),
        revision_id: (s[2] & 0xFF) as u8,
        prog_if: ((s[2] >> 8) & 0xFF) as u8,
        subclass: ((s[2] >> 16) & 0xFF) as u8,
        class_code: (s[2] >> 24) as u8,
        cache_line_size: (s[3] & 0xFF) as u8,
        latency_timer: ((s[3] >> 8) & 0xFF) as u8,
        header_type: ((s[3] >> 16) & 0xFF) as u8,
        multi_function: (s[3] >> 23) & 1 == 1,
        bist: PCIBISTReg::from_bits_spec((s[3] >> 24) as u8),
    }
}

/// Typed view of the common (type-independent) part of a function's
/// configuration header.
#[derive(Clone, Copy, Debug, PartialEq, Eq, Structural)]
pub struct PCICommonHeader {
    pub vendor_id: u16,
    pub device_id: u16,
    pub command: PCICommandReg,
    pub status: PCIStatusReg,
    pub revision_id: u8,
    pub prog_if: u8,
    pub subclass: u8,
    pub class_code: u8,
    pub cache_line_size: u8,
    pub latency_timer: u8,
    pub header_type: u8,
    pub multi_function: bool,
    pub bist: PCIBISTReg,
}

impl PCICommonHeader {
    /// Decode the common header from the first four dwords of the
    /// configuration space.
    pub fn get(cfg: &PciConfig) -> (r: PCICommonHeader)
        requires
            cfg.wf(),
        ensures
            r == header_spec(cfg.regs_spec()),
    {
        proof {
            lemma_u32_extract_bounds();
        }
        let d0 = cfg.read(0);
        let d1 = cfg.read(1);
        let d2 = cfg.read(2);
        let d3 = cfg.read(3);
        PCICommonHeader {
            vendor_id: (d0 & 0xFFFF) as u16,
            device_id: (d0 >> 16) as u16,
            command: PCICommandReg::from_bits((d1 & 0xFFFF) as u16),
            status: PCIStatusReg::from_bits((d1 >> 16) as u16),
            revision_id: (d2 & 0xFF) as u8,
            prog_if: ((d2 >> 8) & 0xFF) as u8,
            subclass: ((d2 >> 16) & 0xFF) as u8,
            class_code: (d2 >> 24) as u8,
            cache_line_size: (d3 & 0xFF) as u8,
            latency_timer: ((d3 >> 8) & 0xFF) as u8,
            header_type: ((d3 >> 16) & 0xFF) as u8,
            multi_function: (d3 >> 23) & 1 == 1,
            bist: PCIBISTReg::from_bits((d3 >> 24) as u8),
        }
    }
}

/// Typed view of a whole function: the parsed header, the remaining
/// header-type-0 fields, and the function's configuration space.
pub struct PCIDevice {
    /// Configuration base address of the function in the MMIO region.
    pub base_address: u32,
    pub header: PCICommonHeader,
    pub cfg: PciConfig,
    pub cardbus_cis_pointer: u32,
    pub subsystem_vendor_id: u16,
    pub subsystem_id: u16,
    pub expansion_rom_base_address: u32,
    /// Byte offset of the first capability entry in configuration
    /// space.
    pub capabilities_head: u8,
    pub interrupt_line: u8,
    pub interrupt_pin: u8,
    pub min_grant: u8,
    pub max_latency: u8,
    /// Addressable size of BAR 0, discovered by the sizing protocol.
    pub address_range: u32,
}

/// The scalar fields of two device views agree (the configuration
/// space itself is compared separately).
pub open spec fn same_device_meta(a: PCIDevice, b: PCIDevice) -> bool {
    &&& a.base_address == b.base_address
    &&& a.header == b.header
    &&& a.cardbus_cis_pointer == b.cardbus_cis_pointer
    &&& a.subsystem_vendor_id == b.subsystem_vendor_id
    &&& a.subsystem_id == b.subsystem_id
    &&& a.expansion_rom_base_address == b.expansion_rom_base_address
    &&& a.capabilities_head == b.capabilities_head
    &&& a.interrupt_line == b.interrupt_line
    &&& a.interrupt_pin == b.interrupt_pin
    &&& a.min_grant == b.min_grant
    &&& a.max_latency == b.max_latency
    &&& a.address_range == b.address_range
}

impl PCIDevice {
    /// The function's configuration space.
    pub open spec fn config(self) -> PciConfig {
        self.cfg
    }

    pub open spec fn wf(self) -> bool {
        self.config().wf()
    }

    /// Materialise the device view at `(bus, slot)` over the given
    /// configuration space, sizing BAR 0 on the way; the sizing probe
    /// leaves every register as it found it.
    pub fn get(bus: u8, slot: u8, cfg: PciConfig) -> (r: PCIDevice)
        requires
            cfg.wf(),
        ensures
            r.wf(),
            r.config().regs_spec() == cfg.regs_spec(),
            r.config().masks_spec() == cfg.masks_spec(),
            r.config().flags_spec() == cfg.flags_spec(),
            r.base_address == PCI_BASE | ((bus as u32) << 20) | ((slot as u32) << 15),
            r.header == header_spec(cfg.regs_spec()),
            r.address_range == bar_size_spec(cfg.masks_spec()[0]),
            r.cardbus_cis_pointer == cfg.regs_spec()[10],
            r.subsystem_vendor_id == (cfg.regs_spec()[11] & 0xFFFF) as u16,
            r.subsystem_id == (cfg.regs_spec()[11] >> 16) as u16,
            r.expansion_rom_base_address == cfg.regs_spec()[12],
            r.capabilities_head == (cfg.regs_spec()[13] & 0xFF) as u8,
            r.interrupt_line == (cfg.regs_spec()[15] & 0xFF) as u8,
            r.interrupt_pin == ((cfg.regs_spec()[15] >> 8) & 0xFF) as u8,
            r.min_grant == ((cfg.regs_spec()[15] >> 16) & 0xFF) as u8,
            r.max_latency == (cfg.regs_spec()[15] >> 24) as u8,
    {
        let ghost gcfg = cfg;
        let ghost s0 = cfg.regs_spec();
        let addr = pci_device_address(bus, slot);
        let header = PCICommonHeader::get(&cfg);
        let mut cfg = cfg;
        let original = cfg.read(4);
        cfg.write(4, 0xFFFF_FFFF);
        let result = cfg.read(4);
        let masked = result & 0xFFFF_FFF0;
        let inv = !masked;
        proof {
            lemma_bar_write_bits();
            assert(masked == cfg.masks_spec()[0]);
        }
        let range = if inv == 0xFFFF_FFFF {
            0
        } else {
            inv + 1
        };
        cfg.write(4, original);
        proof {
            assert(gcfg.regs_spec()[4int + 0int] == (gcfg.regs_spec()[4int + 0int] & gcfg.masks_spec()[0])
                | gcfg.flags_spec()[0]);
            assert(cfg.regs_spec() =~= s0);
            lemma_u32_extract_bounds();
        }
        let d10 = cfg.read(10);
        let d11 = cfg.read(11);
        let d12 = cfg.read(12);
        let d13 = cfg.read(13);
        let d15 = cfg.read(15);
        PCIDevice {
            base_address: addr,
            header,
            cardbus_cis_pointer: d10,
            subsystem_vendor_id: (d11 & 0xFFFF) as u16,
            subsystem_id: (d11 >> 16) as u16,
            expansion_rom_base_address: d12,
            capabilities_head: (d13 & 0xFF) as u8,
            interrupt_line: (d15 & 0xFF) as u8,
            interrupt_pin: ((d15 >> 8) & 0xFF) as u8,
            min_grant: ((d15 >> 16) & 0xFF) as u8,
            max_latency: (d15 >> 24) as u8,
            address_range: range,
            cfg,
        }
    }

    /// Read BAR `index`.
    pub fn bar_read(&self, index: usize) -> (r: u32)
        requires
            self.wf(),
            index < 6,
        ensures
            r == self.config().regs_spec()[4 + index as int],
    {
        self.cfg.read(4 + index)
    }

    /// Write BAR `index`; the device keeps only the address bits it
    /// implements and continues to expose its type flags.
    pub fn bar_write(&mut self, index: usize, value: u32)
        requires
            old(self).wf(),
            index < 6,
        ensures
            final(self).wf(),
            same_device_meta(*final(self), *old(self)),
            final(self).config().masks_spec() == old(self).config().masks_spec(),
            final(self).config().flags_spec() == old(self).config().flags_spec(),
            final(self).config().regs_spec() == old(self).config().regs_spec().update(
                4 + index as int,
                (value & old(self).config().masks_spec()[index as int])
                    | old(self).config().flags_spec()[index as int],
            ),
    {
        self.cfg.write(4 + index, value);
    }

    /// Read the configuration dword at `offset`.
    pub fn read(&self, offset: usize) -> (r: u32)
        requires
            self.wf(),
            offset < 64,
        ensures
            r == self.config().regs_spec()[offset as int],
    {
        self.cfg.read(offset)
    }

    /// Write the configuration dword at `offset`.
    pub fn write(&mut self, offset: usize, value: u32)
        requires
            old(self).wf(),
            offset < 64,
        ensures
            final(self).wf(),
            same_device_meta(*final(self), *old(self)),
            final(self).config().masks_spec() == old(self).config().masks_spec(),
            final(self).config().flags_spec() == old(self).config().flags_spec(),
            final(self).config().regs_spec() == old(self).config().regs_spec().update(
                offset as int,
                stored_value(old(self).config(), offset as int, value),
            ),
    {
        self.cfg.write(offset, value);
    }

    /// Read the configuration dword at `offset`, rejecting an offset
    /// outside the 256-byte configuration space.
    pub fn try_read(&self, offset: usize) -> (r: Result<u32, PCIError>)
        requires
            self.wf(),
        ensures
            offset < 64 ==> r == Ok::<u32, PCIError>(self.config().regs_spec()[offset as int]),
            offset >= 64 ==> r == Err::<u32, PCIError>(PCIError::InvalidRegister),
    {
        if offset < 64 {
            Ok(self.cfg.read(offset))
        } else {
            Err(PCIError::InvalidRegister)
        }
    }

    /// MMIO address of BAR `index` within the configuration region.
    pub fn get_bar_address(&self, index: usize) -> (r: u32)
        requires
            index < 6,
            self.base_address < 0xFFFF_FFD0,
        ensures
            r == self.base_address + 4 * (4 + index as int),
    {
        self.base_address + 4 * (4 + index as u32)
    }

    /// Discover the addressable size of BAR `index` by the all-ones
    /// probe: save the register, write all-ones, read back the
    /// implemented-bits mask, restore the register.  The probe always
    /// reports the same size for the same BAR and leaves the whole
    /// configuration space as it found it.
    pub fn get_bar_size(&mut self, index: usize) -> (r: u32)
        requires
            old(self).wf(),
            index < 6,
        ensures
            final(self).wf(),
            same_device_meta(*final(self), *old(self)),
            final(self).config().regs_spec() == old(self).config().regs_spec(),
            final(self).config().masks_spec() == old(self).config().masks_spec(),
            final(self).config().flags_spec() == old(self).config().flags_spec(),
            r == bar_size_spec(old(self).config().masks_spec()[index as int]),
    {
        let ghost s0 = self.cfg.regs_spec();
        let original = self.bar_read(index);
        self.bar_write(index, 0xFFFF_FFFF);
        let result = self.bar_read(index);
        let masked = result & 0xFFFF_FFF0;
        let inv = !masked;
        proof {
            lemma_bar_write_bits();
            assert(masked == self.cfg.masks_spec()[index as int]);
        }
        let size = if inv == 0xFFFF_FFFF {
            0
        } else {
            inv + 1
        };
        self.bar_write(index, original);
        proof {
            assert(self.cfg.regs_spec() =~= s0);
        }
        size
    }

    /// Flip the Memory Space bit of the command register, leaving the
    /// other command bits, the status half of the dword and every
    /// other register alone; the parsed header is kept in step.
    pub fn set_command_memory_space(&mut self, v: bool)
        requires
            old(self).wf(),
        ensures
            final(self).wf(),
            final(self).config().masks_spec() == old(self).config().masks_spec(),
            final(self).config().flags_spec() == old(self).config().flags_spec(),
            final(self).config().regs_spec().len() == 64,
            forall|j: int|
                0 <= j < 64 && j != 1 ==> final(self).config().regs_spec()[j] == old(
                    self,
                ).config().regs_spec()[j],
            command_of(final(self).config().regs_spec()[1]).memory_space_spec() == v,
            command_of(final(self).config().regs_spec()[1]).io_space_spec() == command_of(
                old(self).config().regs_spec()[1],
            ).io_space_spec(),
            command_of(final(self).config().regs_spec()[1]).bus_master_spec() == command_of(
                old(self).config().regs_spec()[1],
            ).bus_master_spec(),
            command_of(final(self).config().regs_spec()[1]).interrupt_disable_spec()
                == command_of(old(self).config().regs_spec()[1]).interrupt_disable_spec(),
            final(self).config().regs_spec()[1] >> 16 == old(self).config().regs_spec()[1] >> 16,
            final(self).header == (PCICommonHeader {
                command: command_of(final(self).config().regs_spec()[1]),
                ..old(self).header
            }),
            final(self).base_address == old(self).base_address,
            final(self).address_range == old(self).address_range,
            final(self).cardbus_cis_pointer == old(self).cardbus_cis_pointer,
            final(self).subsystem_vendor_id == old(self).subsystem_vendor_id,
            final(self).subsystem_id == old(self).subsystem_id,
            final(self).expansion_rom_base_address == old(self).expansion_rom_base_address,
            final(self).capabilities_head == old(self).capabilities_head,
            final(self).interrupt_line == old(self).interrupt_line,
            final(self).interrupt_pin == old(self).interrupt_pin,
            final(self).min_grant == old(self).min_grant,
            final(self).max_latency == old(self).max_latency,
    {
        proof {
            lemma_u32_extract_bounds();
        }
        let d1 = self.cfg.read(1);
        let mut cmd = PCICommandReg::from_bits((d1 & 0xFFFF) as u16);
        cmd.set_memory_space(v);
        let low = cmd.to_bits() as u32;
        let nd1 = (d1 & 0xFFFF_0000) | low;
        self.cfg.write(1, nd1);
        self.header.command = cmd;
        proof {
            lemma_u32_low_half();
            assert(command_of(nd1) == cmd);
        }
    }
}

} // verus!
