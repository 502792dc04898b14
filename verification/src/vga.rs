//! Bring-up of a VGA-compatible display controller.
//!
//! The controller's register state — the legacy register files behind
//! the indexed ports, the attribute controller's flip-flop, the DAC
//! palette with its auto-incrementing write index, the Bochs DISPI
//! window and the video memory — is held explicitly in `VgaCard`, and
//! every port access goes through `port_write`/`port_read`, which
//! realise the hardware's write disciplines.  `VGA` layers the PCI
//! attachment, BAR assignment, palette load and mode-set on top.

pub mod registers;

use vstd::prelude::*;

use crate::pci::{
    bar_size_spec, command_of, header_spec, PCIDevice, PCIError, PciConfig,
};
use crate::vga::registers::{
    ATTRIBUTE_8BIT, ATTRIBUTE_ATGE, ATTRIBUTE_PORT, ATTR_MODE_CONTROL_INDEX, CLOCK_MODE_INDEX,
    CRTC_HORIZONTAL_BLANK_END, CRTC_HORIZONTAL_BLANK_START, CRTC_HORIZONTAL_DISPLAY_END,
    CRTC_HORIZONTAL_RETRACE_END, CRTC_HORIZONTAL_RETRACE_START, CRTC_HORIZONTAL_TOTAL,
    CRTC_LOGICAL_WIDTH, CRTC_MAXIMUM_SCAN_LINE, CRTC_MODE_CONTROL, CRTC_OVERFLOW, CRTC_PORT,
    CRTC_PRESET_ROW_SCAN, CRTC_UNDERLINE_LOCATION, CRTC_VERTICAL_BLANK_END,
    CRTC_VERTICAL_BLANK_START, CRTC_VERTICAL_DISPLAY_END, CRTC_VERTICAL_RETRACE_END,
    CRTC_VERTICAL_RETRACE_START, CRTC_VERTICAL_TOTAL, GRAPHICS_ALPHA_DISABLE,
    GRAPHICS_MEM_MAP_128K, GRAPHICS_MODE_INDEX, GRAPHICS_PORT, GRAPHICS_SHIFT256,
    MISC_GRAPHICS_INDEX, MISC_OUTPUT_PORT, PALETTE_ADDRESS_SOURCE, SEQUENCER_MEMORY_MODE_INDEX,
    SEQUENCER_PORT, VBE_DISPI_BPP_8, VBE_DISPI_DISABLED, VBE_DISPI_ENABLED, VBE_DISPI_INDEX_BPP,
    VBE_DISPI_INDEX_ENABLE, VBE_DISPI_INDEX_ID, VBE_DISPI_INDEX_XRES, VBE_DISPI_INDEX_YRES,
    VBE_DISPI_LFB_ENABLED, VBE_DISPI_NOCLEARMEM,
};

verus! {

/// Register-file index masks stay within the files' sizes.
proof fn lemma_index_masks()
    by (bit_vector)
    ensures
        forall|x: u8| #![auto] (x & 0x1F) < 32,
        forall|x: u8| #![auto] (x & 0x07) < 8,
        forall|x: u8| #![auto] (x & 0x0F) < 16,
{
}

/// Explicit state of a VGA-compatible card: the indexed register
/// files, the attribute controller's index/data flip-flop, the DAC
/// with its auto-incrementing write port, the Bochs DISPI registers
/// and the video memory.
pub struct VgaCard {
    /// Miscellaneous output register (write 0x3C2, read 0x3CC).
    pub misc_output: u8,
    /// Address latches of the CRTC, sequencer and graphics files.
    pub crtc_index: u8,
    pub seq_index: u8,
    pub gfx_index: u8,
    /// Attribute controller address register, including the Palette
    /// Address Source bit.
    pub attr_index: u8,
    /// Attribute flip-flop: false when the next write to 0x3C0 is an
    /// index, true when it is data.
    pub attr_data_phase: bool,
    pub crtc: Vec<u8>,
    pub seq: Vec<u8>,
    pub gfx: Vec<u8>,
    pub attr: Vec<u8>,
    /// DAC pixel mask (port 0x3C6).
    pub dac_mask: u8,
    /// DAC write index (port 0x3C8) and position within the current
    /// (R, G, B) triple.
    pub dac_write_index: u8,
    pub dac_phase: u8,
    /// The 256 palette entries as 768 sequential (R, G, B) bytes.
    pub dac: Vec<u8>,
    /// Bochs DISPI registers, 16-bit, indexed from the I/O window.
    pub bochs: Vec<u16>,
    /// Video memory backing the linear framebuffer.
    pub fb: Vec<u8>,
}

impl VgaCard {
    pub open spec fn wf(self) -> bool {
        &&& self.crtc@.len() == 32
        &&& self.seq@.len() == 8
        &&& self.gfx@.len() == 16
        &&& self.attr@.len() == 32
        &&& self.dac@.len() == 768
        &&& self.bochs@.len() == 16
        &&& self.dac_phase < 3
    }

    /// A powered-up card with `vram` bytes of zeroed video memory and
    /// all registers cleared.
    pub fn new(vram: usize) -> (r: VgaCard)
        ensures
            r.wf(),
            r.misc_output == 0,
            r.crtc_index == 0,
            r.seq_index == 0,
            r.gfx_index == 0,
            r.attr_index == 0,
            !r.attr_data_phase,
            r.dac_mask == 0,
            r.dac_write_index == 0,
            r.dac_phase == 0,
            r.fb@.len() == vram,
            forall|i: int| 0 <= i < vram ==> r.fb@[i] == 0,
            forall|i: int| 0 <= i < 32 ==> r.crtc@[i] == 0,
            forall|i: int| 0 <= i < 8 ==> r.seq@[i] == 0,
            forall|i: int| 0 <= i < 16 ==> r.gfx@[i] == 0,
            forall|i: int| 0 <= i < 32 ==> r.attr@[i] == 0,
            forall|i: int| 0 <= i < 768 ==> r.dac@[i] == 0,
            forall|i: int| 0 <= i < 16 ==> r.bochs@[i] == 0,
    {
        VgaCard {
            misc_output: 0,
            crtc_index: 0,
            seq_index: 0,
            gfx_index: 0,
            attr_index: 0,
            attr_data_phase: false,
            crtc: zero_bytes(32),
            seq: zero_bytes(8),
            gfx: zero_bytes(16),
            attr: zero_bytes(32),
            dac_mask: 0,
            dac_write_index: 0,
            dac_phase: 0,
            dac: zero_bytes(768),
            bochs: zero_words(16),
            fb: zero_bytes(vram),
        }
    }

    /// One byte written to a port, with the hardware's own semantics:
    /// the attribute port alternates index and data under its
    /// flip-flop, index/data pairs latch an address then store, and
    /// the DAC data port steps through (R, G, B) and advances its
    /// entry index after each triple.
    pub fn port_write(&mut self, port: u16, v: u8)
        requires
            old(self).wf(),
            port == 0x3C0 || port == 0x3C2 || port == 0x3C4 || port == 0x3C5 || port == 0x3C6
                || port == 0x3C8 || port == 0x3C9 || port == 0x3CE || port == 0x3CF || port
                == 0x3D4 || port == 0x3D5,
        ensures
            final(self).wf(),
            port == 0x3C0 && !old(self).attr_data_phase ==> *final(self) == (VgaCard {
                attr_index: v,
                attr_data_phase: true,
                ..*old(self)
            }),
            port == 0x3C0 && old(self).attr_data_phase ==> final(self).attr@
                == old(self).attr@.update((old(self).attr_index & 0x1F) as int, v) && *final(self)
                == (VgaCard { attr: final(self).attr, attr_data_phase: false, ..*old(self) }),
            port == 0x3C2 ==> *final(self) == (VgaCard { misc_output: v, ..*old(self) }),
            port == 0x3C4 ==> *final(self) == (VgaCard { seq_index: v, ..*old(self) }),
            port == 0x3C5 ==> final(self).seq@ == old(self).seq@.update(
                (old(self).seq_index & 0x07) as int,
                v,
            ) && *final(self) == (VgaCard { seq: final(self).seq, ..*old(self) }),
            port == 0x3C6 ==> *final(self) == (VgaCard { dac_mask: v, ..*old(self) }),
            port == 0x3C8 ==> *final(self) == (VgaCard {
                dac_write_index: v,
                dac_phase: 0,
                ..*old(self)
            }),
            port == 0x3C9 ==> final(self).dac@ == old(self).dac@.update(
                old(self).dac_write_index as int * 3 + old(self).dac_phase as int,
                v,
            ) && *final(self) == (VgaCard {
                dac: final(self).dac,
                dac_write_index: if old(self).dac_phase == 2 {
                    ((old(self).dac_write_index as int + 1) % 256) as u8
                } else {
                    old(self).dac_write_index
                },
                dac_phase: if old(self).dac_phase == 2 {
                    0u8
                } else {
                    (old(self).dac_phase + 1) as u8
                },
                ..*old(self)
            }),
            port == 0x3CE ==> *final(self) == (VgaCard { gfx_index: v, ..*old(self) }),
            port == 0x3CF ==> final(self).gfx@ == old(self).gfx@.update(
                (old(self).gfx_index & 0x0F) as int,
                v,
            ) && *final(self) == (VgaCard { gfx: final(self).gfx, ..*old(self) }),
            port == 0x3D4 ==> *final(self) == (VgaCard { crtc_index: v, ..*old(self) }),
            port == 0x3D5 ==> final(self).crtc@ == old(self).crtc@.update(
                (old(self).crtc_index & 0x1F) as int,
                v,
            ) && *final(self) == (VgaCard { crtc: final(self).crtc, ..*old(self) }),
    {
        proof {
            lemma_index_masks();
        }
        if port == 0x3C0 {
            if !self.attr_data_phase {
                self.attr_index = v;
                self.attr_data_phase = true;
            } else {
                let i = (self.attr_index & 0x1F) as usize;
                self.attr.set(i, v);
                self.attr_data_phase = false;
            }
        } else if port == 0x3C2 {
            self.misc_output = v;
        } else if port == 0x3C4 {
            self.seq_index = v;
        } else if port == 0x3C5 {
            let i = (self.seq_index & 0x07) as usize;
            self.seq.set(i, v);
        } else if port == 0x3C6 {
            self.dac_mask = v;
        } else if port == 0x3C8 {
            self.dac_write_index = v;
            self.dac_phase = 0;
        } else if port == 0x3C9 {
            let i = self.dac_write_index as usize * 3 + self.dac_phase as usize;
            self.dac.set(i, v);
            if self.dac_phase == 2 {
                self.dac_phase = 0;
                self.dac_write_index = self.dac_write_index.wrapping_add(1);
            } else {
                self.dac_phase = self.dac_phase + 1;
            }
        } else if port == 0x3CE {
            self.gfx_index = v;
        } else if port == 0x3CF {
            let i = (self.gfx_index & 0x0F) as usize;
            self.gfx.set(i, v);
        } else if port == 0x3D4 {
            self.crtc_index = v;
        } else {
            let i = (self.crtc_index & 0x1F) as usize;
            self.crtc.set(i, v);
        }
    }

    /// One byte read from a port.  Reading the input status port
    /// 0x3DA resets the attribute flip-flop (its modelled status bits
    /// read as zero); the data ports return the addressed register.
    pub fn port_read(&mut self, port: u16) -> (r: u8)
        requires
            old(self).wf(),
            port == 0x3C1 || port == 0x3C5 || port == 0x3CC || port == 0x3CF || port == 0x3D5
                || port == 0x3DA,
        ensures
            final(self).wf(),
            port == 0x3DA ==> *final(self) == (VgaCard { attr_data_phase: false, ..*old(self) })
                && r == 0,
            port != 0x3DA ==> *final(self) == *old(self),
            port == 0x3C1 ==> r == old(self).attr@[(old(self).attr_index & 0x1F) as int],
            port == 0x3C5 ==> r == old(self).seq@[(old(self).seq_index & 0x07) as int],
            port == 0x3CC ==> r == old(self).misc_output,
            port == 0x3CF ==> r == old(self).gfx@[(old(self).gfx_index & 0x0F) as int],
            port == 0x3D5 ==> r == old(self).crtc@[(old(self).crtc_index & 0x1F) as int],
    {
        proof {
            lemma_index_masks();
        }
        if port == 0x3DA {
            self.attr_data_phase = false;
            0
        } else if port == 0x3C1 {
            self.attr[(self.attr_index & 0x1F) as usize]
        } else if port == 0x3C5 {
            self.seq[(self.seq_index & 0x07) as usize]
        } else if port == 0x3CC {
            self.misc_output
        } else if port == 0x3CF {
            self.gfx[(self.gfx_index & 0x0F) as usize]
        } else {
            self.crtc[(self.crtc_index & 0x1F) as usize]
        }
    }
}

/// The fixed boot palette, entry by entry: the 16 standard CGA/EGA
/// colors, then a 6x6x6 color cube over levels 0x00, 0x33, .., 0xFF
/// with red varying fastest, then reserved zero entries.
pub open spec fn palette_color(e: int) -> u32 {
    if e == 0 {
        0x000000u32
    } else if e == 1 {
        0x0000AAu32
    } else if e == 2 {
        0x00AA00u32
    } else if e == 3 {
        0x00AAAAu32
    } else if e == 4 {
        0xAA0000u32
    } else if e == 5 {
        0xAA00AAu32
    } else if e == 6 {
        0xAA5500u32
    } else if e == 7 {
        0xAAAAAAu32
    } else if e == 8 {
        0x555555u32
    } else if e == 9 {
        0x5555FFu32
    } else if e == 10 {
        0x55FF55u32
    } else if e == 11 {
        0x55FFFFu32
    } else if e == 12 {
        0xFF5555u32
    } else if e == 13 {
        0xFF55FFu32
    } else if e == 14 {
        0xFFFF55u32
    } else if e == 15 {
        0xFFFFFFu32
    } else if 16 <= e < 232 {
        let k = e - 16;
        ((0x33 * (k % 6)) * 0x10000 + (0x33 * ((k / 6) % 6)) * 0x100 + 0x33 * (k / 36)) as u32
    } else {
        0u32
    }
}

/// Byte `i` of the palette as streamed to the DAC data port: for each
/// entry, red then green then blue.
pub open spec fn palette_byte(i: int) -> u8 {
    let c = palette_color(i / 3);
    if i % 3 == 0 {
        ((c >> 16) & 0xFF) as u8
    } else if i % 3 == 1 {
        ((c >> 8) & 0xFF) as u8
    } else {
        (c & 0xFF) as u8
    }
}

/// Extracted color components are bytes.
proof fn lemma_color_bytes()
    by (bit_vector)
    ensures
        forall|x: u32| #![auto] ((x >> 16) & 0xFF) < 0x100,
        forall|x: u32| #![auto] ((x >> 8) & 0xFF) < 0x100,
        forall|x: u32| #![auto] (x & 0xFF) < 0x100,
{
}

/// Palette entry `e` as a packed 0xRRGGBB value.
pub fn palette_entry(e: usize) -> (r: u32)
    requires
        e < 256,
    ensures
        r == palette_color(e as int),
{
    if e < 16 {
        let table: [u32; 16] = [
            0x000000, 0x0000AA, 0x00AA00, 0x00AAAA, 0xAA0000, 0xAA00AA, 0xAA5500, 0xAAAAAA,
            0x555555, 0x5555FF, 0x55FF55, 0x55FFFF, 0xFF5555, 0xFF55FF, 0xFFFF55, 0xFFFFFF,
        ];
        table[e]
    } else if e < 232 {
        let k = e - 16;
        let cr = (k % 6) as u32;
        let cg = ((k / 6) % 6) as u32;
        let cb = (k / 36) as u32;
        proof {
            assert(k / 36 < 6) by (nonlinear_arith)
                requires
                    k < 216,
            ;
        }
        (0x33 * cr) * 0x10000 + (0x33 * cg) * 0x100 + 0x33 * cb
    } else {
        0
    }
}

/// A display device attachment error, carrying the untouched device
/// and card state back to the caller.
pub struct AttachError {
    pub error: PCIError,
    pub pci: PCIDevice,
    pub card: VgaCard,
}

/// A VGA-compatible display function brought up behind its PCI view:
/// assigned windows, derived legacy port base, and the card state.
pub struct VGA {
    pub pci: PCIDevice,
    pub card: VgaCard,
    /// Base address chosen for the framebuffer window.
    pub fb: u64,
    pub fb_size: u64,
    /// Base address of the I/O window, directly after the framebuffer.
    pub io: u64,
    pub io_size: u64,
    /// Address such that adding a legacy port number (0x3C0..0x3DA)
    /// lands on that port's register inside the I/O window, which
    /// maps the legacy ports at offset 0x400.
    pub vga_port: u64,
}

impl VGA {
    pub open spec fn wf(self) -> bool {
        &&& self.pci.wf()
        &&& self.card.wf()
    }

    /// Attach the display function: require a display-class device
    /// and a window base inside the aperture, size the framebuffer
    /// BAR, assign both windows, enable memory-space decoding (after
    /// the BAR writes), and load the fixed palette through the DAC.
    /// On failure the device and card come back untouched.
    pub fn new(bus: u8, slot: u8, mem_start: u64, cfg: PciConfig, card: VgaCard) -> (r: Result<
        VGA,
        AttachError,
    >)
        requires
            cfg.wf(),
            card.wf(),
            mem_start + bar_size_spec(cfg.masks_spec()[0]) <= u32::MAX,
        ensures
            r is Ok <==> header_spec(cfg.regs_spec()).class_code == 3 && 0x4000_0000 <= mem_start
                < 0x8000_0000,
            r matches Err(e) ==> ({
                &&& e.error == (if header_spec(cfg.regs_spec()).class_code != 3 {
                    PCIError::InvalidDevice
                } else {
                    PCIError::InvalidAddress
                })
                &&& e.pci.wf()
                &&& e.pci.config().regs_spec() == cfg.regs_spec()
                &&& e.pci.config().masks_spec() == cfg.masks_spec()
                &&& e.pci.config().flags_spec() == cfg.flags_spec()
                &&& e.card == card
            }),
            r matches Ok(v) ==> ({
                &&& v.wf()
                &&& v.fb == mem_start
                &&& v.fb_size == bar_size_spec(cfg.masks_spec()[0])
                &&& v.io == mem_start + v.fb_size
                &&& v.io_size == bar_size_spec(cfg.masks_spec()[2])
                &&& v.vga_port == v.io + 0x40
                &&& v.pci.config().masks_spec() == cfg.masks_spec()
                &&& v.pci.config().flags_spec() == cfg.flags_spec()
                &&& v.pci.config().regs_spec().len() == 64
                &&& v.pci.config().regs_spec()[4] == (((v.fb as u32) | 8) & cfg.masks_spec()[0])
                    | cfg.flags_spec()[0]
                &&& v.pci.config().regs_spec()[6] == (((v.io as u32) | 8) & cfg.masks_spec()[2])
                    | cfg.flags_spec()[2]
                &&& command_of(v.pci.config().regs_spec()[1]).memory_space_spec()
                &&& command_of(v.pci.config().regs_spec()[1]).io_space_spec() == command_of(
                    cfg.regs_spec()[1],
                ).io_space_spec()
                &&& command_of(v.pci.config().regs_spec()[1]).bus_master_spec() == command_of(
                    cfg.regs_spec()[1],
                ).bus_master_spec()
                &&& forall|j: int|
                    0 <= j < 64 && j != 1 && j != 4 && j != 6
                        ==> v.pci.config().regs_spec()[j] == cfg.regs_spec()[j]
                &&& v.card.dac_mask == 0xFF
                &&& v.card.dac_write_index == 0
                &&& v.card.dac_phase == 0
                &&& v.card.dac@.len() == 768
                &&& forall|i: int| 0 <= i < 768 ==> v.card.dac@[i] == palette_byte(i)
                &&& v.card.fb == card.fb
                &&& v.card.crtc == card.crtc
                &&& v.card.seq == card.seq
                &&& v.card.gfx == card.gfx
                &&& v.card.attr == card.attr
                &&& v.card.bochs == card.bochs
                &&& v.card.misc_output == card.misc_output
                &&& v.card.attr_data_phase == card.attr_data_phase
            }),
    {
        let pci = PCIDevice::get(bus, slot, cfg);
        if pci.header.class_code != 0x03 {
            return Err(AttachError { error: PCIError::InvalidDevice, pci, card });
        }
        if !(0x4000_0000 <= mem_start && mem_start < 0x8000_0000) {
            return Err(AttachError { error: PCIError::InvalidAddress, pci, card });
        }
        let mut pci = pci;
        let fb_size = pci.address_range as u64;
        let fb = mem_start;
        let io = mem_start + fb_size;
        let io_size = pci.get_bar_size(2) as u64;
        // The I/O window maps the legacy ports at internal offset
        // 0x400, which corresponds to port 0x3C0.
        let vga_port = io + (0x400 - 0x3C0);
        pci.bar_write(0, (fb as u32) | 8);
        pci.bar_write(2, (io as u32) | 8);
        pci.set_command_memory_space(true);
        let mut card = card;
        card.port_write(0x3C6, 0xFF);
        card.port_write(0x3C8, 0);
        let ghost card0 = card;
        let mut e: usize = 0;
        while e < 256
            invariant
                e <= 256,
                card.wf(),
                card.dac_phase == 0,
                card.dac_write_index == (e % 256) as u8,
                card.dac@.len() == 768,
                forall|i: int| 0 <= i < 3 * e ==> card.dac@[i] == palette_byte(i),
                card == (VgaCard {
                    dac: card.dac,
                    dac_write_index: card.dac_write_index,
                    ..card0
                }),
            decreases 256 - e,
        {
            let c = palette_entry(e);
            proof {
                lemma_color_bytes();
            }
            let cr = ((c >> 16) & 0xFF) as u8;
            let cg = ((c >> 8) & 0xFF) as u8;
            let cb = (c & 0xFF) as u8;
            card.port_write(0x3C9, cr);
            card.port_write(0x3C9, cg);
            card.port_write(0x3C9, cb);
            e = e + 1;
        }
        Ok(VGA { pci, card, fb, fb_size, io, io_size, vga_port })
    }
}

impl VGA {
    /// Write `value` to register `index` of the file behind `port`,
    /// observing each group's write discipline: the attribute
    /// controller needs its flip-flop reset through a read of 0x3DA
    /// and takes index and data on the same port, the miscellaneous
    /// output register takes the value directly, and the index/data
    /// files latch the index at `port` and the data one port up.
    pub fn set_register(&mut self, port: u16, index: u8, value: u8)
        requires
            old(self).wf(),
            port == 0x3C0 || port == 0x3C2 || port == 0x3C4 || port == 0x3CE || port == 0x3D4,
        ensures
            final(self).wf(),
            *final(self) == (VGA { card: final(self).card, ..*old(self) }),
            port == 0x3C0 ==> final(self).card.attr@ == old(self).card.attr@.update(
                (index & 0x1F) as int,
                value,
            ) && final(self).card == (VgaCard {
                attr: final(self).card.attr,
                attr_index: index,
                attr_data_phase: false,
                ..old(self).card
            }),
            port == 0x3C2 ==> final(self).card == (VgaCard {
                misc_output: value,
                ..old(self).card
            }),
            port == 0x3C4 ==> final(self).card.seq@ == old(self).card.seq@.update(
                (index & 0x07) as int,
                value,
            ) && final(self).card == (VgaCard {
                seq: final(self).card.seq,
                seq_index: index,
                ..old(self).card
            }),
            port == 0x3CE ==> final(self).card.gfx@ == old(self).card.gfx@.update(
                (index & 0x0F) as int,
                value,
            ) && final(self).card == (VgaCard {
                gfx: final(self).card.gfx,
                gfx_index: index,
                ..old(self).card
            }),
            port == 0x3D4 ==> final(self).card.crtc@ == old(self).card.crtc@.update(
                (index & 0x1F) as int,
                value,
            ) && final(self).card == (VgaCard {
                crtc: final(self).card.crtc,
                crtc_index: index,
                ..old(self).card
            }),
    {
        if port == 0x3C0 {
            let _status = self.card.port_read(0x3DA);
            self.card.port_write(0x3C0, index);
            self.card.port_write(0x3C0, value);
        } else if port == 0x3C2 {
            self.card.port_write(0x3C2, value);
        } else {
            self.card.port_write(port, index);
            self.card.port_write(port + 1, value);
        }
    }

    /// Read register `index` of the file behind `port`, under the
    /// same disciplines as `set_register`.
    pub fn read_register(&mut self, port: u16, index: u8) -> (r: u8)
        requires
            old(self).wf(),
            port == 0x3C0 || port == 0x3C2 || port == 0x3C4 || port == 0x3CE || port == 0x3D4,
        ensures
            final(self).wf(),
            *final(self) == (VGA { card: final(self).card, ..*old(self) }),
            port == 0x3C0 ==> r == old(self).card.attr@[(index & 0x1F) as int] && final(self).card
                == (VgaCard {
                attr_index: index,
                attr_data_phase: true,
                ..old(self).card
            }),
            port == 0x3C2 ==> r == old(self).card.misc_output && final(self).card
                == old(self).card,
            port == 0x3C4 ==> r == old(self).card.seq@[(index & 0x07) as int] && final(self).card
                == (VgaCard { seq_index: index, ..old(self).card }),
            port == 0x3CE ==> r == old(self).card.gfx@[(index & 0x0F) as int] && final(self).card
                == (VgaCard { gfx_index: index, ..old(self).card }),
            port == 0x3D4 ==> r == old(self).card.crtc@[(index & 0x1F) as int] && final(self).card
                == (VgaCard { crtc_index: index, ..old(self).card }),
    {
        if port == 0x3C0 {
            let _status = self.card.port_read(0x3DA);
            self.card.port_write(0x3C0, index);
            self.card.port_read(0x3C1)
        } else if port == 0x3C2 {
            self.card.port_read(0x3CC)
        } else {
            self.card.port_write(port, index);
            self.card.port_read(port + 1)
        }
    }

    /// Read the 16-bit Bochs DISPI register at `index`.
    pub fn read_bochs_reg(&self, index: u8) -> (r: u16)
        requires
            self.wf(),
            index < 16,
        ensures
            r == self.card.bochs@[index as int],
    {
        self.card.bochs[index as usize]
    }

    /// Write the 16-bit Bochs DISPI register at `index`.
    pub fn write_bochs_reg(&mut self, index: u8, value: u16)
        requires
            old(self).wf(),
            index < 16,
        ensures
            final(self).wf(),
            *final(self) == (VGA { card: final(self).card, ..*old(self) }),
            final(self).card.bochs@ == old(self).card.bochs@.update(index as int, value),
            final(self).card == (VgaCard { bochs: final(self).card.bochs, ..old(self).card }),
    {
        self.card.bochs.set(index as usize, value);
    }

    /// The DISPI identification register.
    pub fn get_bochs_version(&self) -> (r: u16)
        requires
            self.wf(),
        ensures
            r == self.card.bochs@[VBE_DISPI_INDEX_ID as int],
    {
        self.read_bochs_reg(VBE_DISPI_INDEX_ID)
    }

    /// Program a `width` x `height` 256-color linear mode: write the
    /// legacy mode table (miscellaneous output, attribute mode with
    /// graphics enable and 8-bit color, graphics shift-256, 128 KiB
    /// map with alphanumeric mode off, 8-dot clock, the CRTC timing
    /// table), then bring up the Bochs DISPI extension with the
    /// requested resolution at 8 bits per pixel.  The width must be a
    /// multiple of 8.
    pub fn set_resolution(&mut self, width: u32, height: u32)
        requires
            old(self).wf(),
            width % 8 == 0,
            width <= 0xFFFF,
            height <= 0xFFFF,
        ensures
            final(self).wf(),
            *final(self) == (VGA { card: final(self).card, ..*old(self) }),
            final(self).card == (VgaCard {
                misc_output: final(self).card.misc_output,
                attr: final(self).card.attr,
                attr_index: final(self).card.attr_index,
                attr_data_phase: final(self).card.attr_data_phase,
                gfx: final(self).card.gfx,
                gfx_index: final(self).card.gfx_index,
                seq: final(self).card.seq,
                seq_index: final(self).card.seq_index,
                crtc: final(self).card.crtc,
                crtc_index: final(self).card.crtc_index,
                bochs: final(self).card.bochs,
                ..old(self).card
            }),
            final(self).card.misc_output == 1,
            final(self).card.attr@.len() == 32,
            final(self).card.attr@ == old(self).card.attr@.update(
                ATTR_MODE_CONTROL_INDEX as int,
                ATTRIBUTE_8BIT | ATTRIBUTE_ATGE,
            ),
            final(self).card.gfx@.len() == 16,
            final(self).card.gfx@[GRAPHICS_MODE_INDEX as int] == GRAPHICS_SHIFT256,
            final(self).card.gfx@[MISC_GRAPHICS_INDEX as int] == GRAPHICS_MEM_MAP_128K
                | GRAPHICS_ALPHA_DISABLE,
            forall|i: int|
                0 <= i < 16 && i != GRAPHICS_MODE_INDEX as int && i != MISC_GRAPHICS_INDEX as int
                    ==> final(self).card.gfx@[i] == old(self).card.gfx@[i],
            final(self).card.seq@.len() == 8,
            final(self).card.seq@[CLOCK_MODE_INDEX as int] == 0x01,
            final(self).card.seq@[SEQUENCER_MEMORY_MODE_INDEX as int] == 0x08,
            forall|i: int|
                0 <= i < 8 && i != CLOCK_MODE_INDEX as int && i != SEQUENCER_MEMORY_MODE_INDEX
                    as int ==> final(self).card.seq@[i] == old(self).card.seq@[i],
            final(self).card.crtc@.len() == 32,
            final(self).card.crtc@ == mode_x_crtc(old(self).card.crtc@),
            final(self).card.bochs@.len() == 16,
            final(self).card.bochs@[VBE_DISPI_INDEX_XRES as int] == width as u16,
            final(self).card.bochs@[VBE_DISPI_INDEX_YRES as int] == height as u16,
            final(self).card.bochs@[VBE_DISPI_INDEX_BPP as int] == VBE_DISPI_BPP_8,
            final(self).card.bochs@[VBE_DISPI_INDEX_ENABLE as int] == (VBE_DISPI_ENABLED
                | VBE_DISPI_NOCLEARMEM | VBE_DISPI_LFB_ENABLED),
            forall|i: int|
                0 <= i < 16 && !(1 <= i <= 4) ==> final(self).card.bochs@[i]
                    == old(self).card.bochs@[i],
    {
        proof {
            assert((0x20u8 | 0x10) == 0x30 && (0x30u8 & 0x1F) == 0x10 && (0x40u8 | 0x01) == 0x41
                && (0x05u8 & 0x0F) == 0x05 && (0x06u8 & 0x0F) == 0x06 && (0x00u8 | 0x01) == 0x01
                && (0x01u8 & 0x07) == 0x01 && (0x04u8 & 0x07) == 0x04) by (bit_vector);
            assert((0x00u8 & 0x1F) == 0x00 && (0x01u8 & 0x1F) == 0x01 && (0x02u8 & 0x1F) == 0x02
                && (0x03u8 & 0x1F) == 0x03 && (0x04u8 & 0x1F) == 0x04 && (0x05u8 & 0x1F) == 0x05
                && (0x06u8 & 0x1F) == 0x06 && (0x07u8 & 0x1F) == 0x07 && (0x08u8 & 0x1F) == 0x08
                && (0x09u8 & 0x1F) == 0x09 && (0x10u8 & 0x1F) == 0x10 && (0x11u8 & 0x1F) == 0x11
                && (0x12u8 & 0x1F) == 0x12 && (0x13u8 & 0x1F) == 0x13 && (0x14u8 & 0x1F) == 0x14
                && (0x15u8 & 0x1F) == 0x15 && (0x16u8 & 0x1F) == 0x16 && (0x17u8 & 0x1F) == 0x17)
                by (bit_vector);
        }
        // Route the CRTC at 0x3D4 and the status port at 0x3DA, and
        // select the color clock.
        self.set_register(MISC_OUTPUT_PORT, 0, 1);
        // 256-color graphics operation in the attribute controller,
        // with the Palette Address Source bit held on the index.
        self.set_register(
            ATTRIBUTE_PORT,
            PALETTE_ADDRESS_SOURCE | ATTR_MODE_CONTROL_INDEX,
            ATTRIBUTE_8BIT | ATTRIBUTE_ATGE,
        );
        self.set_register(GRAPHICS_PORT, GRAPHICS_MODE_INDEX, GRAPHICS_SHIFT256);
        self.set_register(
            GRAPHICS_PORT,
            MISC_GRAPHICS_INDEX,
            GRAPHICS_MEM_MAP_128K | GRAPHICS_ALPHA_DISABLE,
        );
        // 8 pixels per character clock.
        self.set_register(SEQUENCER_PORT, CLOCK_MODE_INDEX, 0x01);
        // Chain-4 addressing.
        self.set_register(SEQUENCER_PORT, SEQUENCER_MEMORY_MODE_INDEX, 0x08);
        // The CRTC timing table.
        self.set_register(CRTC_PORT, CRTC_HORIZONTAL_TOTAL, 0x5F);
        self.set_register(CRTC_PORT, CRTC_HORIZONTAL_DISPLAY_END, 0x4F);
        self.set_register(CRTC_PORT, CRTC_HORIZONTAL_BLANK_START, 0x50);
        self.set_register(CRTC_PORT, CRTC_HORIZONTAL_BLANK_END, 0x82);
        self.set_register(CRTC_PORT, CRTC_HORIZONTAL_RETRACE_START, 0x54);
        self.set_register(CRTC_PORT, CRTC_HORIZONTAL_RETRACE_END, 0x80);
        self.set_register(CRTC_PORT, CRTC_VERTICAL_TOTAL, 0x0D);
        self.set_register(CRTC_PORT, CRTC_OVERFLOW, 0x3E);
        self.set_register(CRTC_PORT, CRTC_PRESET_ROW_SCAN, 0x00);
        self.set_register(CRTC_PORT, CRTC_MAXIMUM_SCAN_LINE, 0x41);
        self.set_register(CRTC_PORT, CRTC_VERTICAL_RETRACE_START, 0xEA);
        self.set_register(CRTC_PORT, CRTC_VERTICAL_RETRACE_END, 0xAC);
        self.set_register(CRTC_PORT, CRTC_VERTICAL_DISPLAY_END, 0xDF);
        self.set_register(CRTC_PORT, CRTC_LOGICAL_WIDTH, 0x28);
        self.set_register(CRTC_PORT, CRTC_UNDERLINE_LOCATION, 0x00);
        self.set_register(CRTC_PORT, CRTC_VERTICAL_BLANK_START, 0xE7);
        self.set_register(CRTC_PORT, CRTC_VERTICAL_BLANK_END, 0x06);
        self.set_register(CRTC_PORT, CRTC_MODE_CONTROL, 0xE3);
        // Bochs DISPI bring-up: disable, program the resolution and
        // depth, re-enable with the linear framebuffer and without
        // clearing video memory.
        self.write_bochs_reg(VBE_DISPI_INDEX_ENABLE, VBE_DISPI_DISABLED);
        self.write_bochs_reg(VBE_DISPI_INDEX_XRES, width as u16);
        self.write_bochs_reg(VBE_DISPI_INDEX_YRES, height as u16);
        self.write_bochs_reg(VBE_DISPI_INDEX_BPP, VBE_DISPI_BPP_8);
        self.write_bochs_reg(
            VBE_DISPI_INDEX_ENABLE,
            VBE_DISPI_ENABLED | VBE_DISPI_NOCLEARMEM | VBE_DISPI_LFB_ENABLED,
        );
    }
}

/// The CRTC file after the mode table has been written over `c`.
pub open spec fn mode_x_crtc(c: Seq<u8>) -> Seq<u8> {
    c.update(0x00, 0x5Fu8).update(0x01, 0x4Fu8).update(0x02, 0x50u8).update(0x03, 0x82u8).update(
        0x04,
        0x54u8,
    ).update(0x05, 0x80u8).update(0x06, 0x0Du8).update(0x07, 0x3Eu8).update(0x08, 0x00u8).update(
        0x09,
        0x41u8,
    ).update(0x10, 0xEAu8).update(0x11, 0xACu8).update(0x12, 0xDFu8).update(0x13, 0x28u8).update(
        0x14,
        0x00u8,
    ).update(0x15, 0xE7u8).update(0x16, 0x06u8).update(0x17, 0xE3u8)
}

/// A vector of `n` zero bytes.
fn zero_bytes(n: usize) -> (r: Vec<u8>)
    ensures
        r@.len() == n,
        forall|i: int| 0 <= i < n ==> r@[i] == 0,
{
    let mut v: Vec<u8> = Vec::new();
    let mut i: usize = 0;
    while i < n
        invariant
            i <= n,
            v@.len() == i,
            forall|j: int| 0 <= j < i ==> v@[j] == 0,
        decreases n - i,
    {
        v.push(0);
        i = i + 1;
    }
    v
}

/// A vector of `n` zero words.
fn zero_words(n: usize) -> (r: Vec<u16>)
    ensures
        r@.len() == n,
        forall|i: int| 0 <= i < n ==> r@[i] == 0,
{
    let mut v: Vec<u16> = Vec::new();
    let mut i: usize = 0;
    while i < n
        invariant
            i <= n,
            v@.len() == i,
            forall|j: int| 0 <= j < i ==> v@[j] == 0,
        decreases n - i,
    {
        v.push(0);
        i = i + 1;
    }
    v
}

} // verus!
