//! Ports, register indexes and field bits of the VGA register files
//! and the Bochs DISPI extension.

use vstd::prelude::*;

verus! {

/// CRTC index port (data at the next port up).
pub const CRTC_PORT: u16 = 0x3D4;

/// Sequencer index port.
pub const SEQUENCER_PORT: u16 = 0x3C4;

/// Graphics controller index port.
pub const GRAPHICS_PORT: u16 = 0x3CE;

/// Attribute controller port (index and data share it).
pub const ATTRIBUTE_PORT: u16 = 0x3C0;

/// Miscellaneous output register (write port; read at 0x3CC).
pub const MISC_OUTPUT_PORT: u16 = 0x3C2;

// CRTC register indexes.
pub const CRTC_HORIZONTAL_TOTAL: u8 = 0x00;
pub const CRTC_HORIZONTAL_DISPLAY_END: u8 = 0x01;
pub const CRTC_HORIZONTAL_BLANK_START: u8 = 0x02;
pub const CRTC_HORIZONTAL_BLANK_END: u8 = 0x03;
pub const CRTC_HORIZONTAL_RETRACE_START: u8 = 0x04;
pub const CRTC_HORIZONTAL_RETRACE_END: u8 = 0x05;
pub const CRTC_VERTICAL_TOTAL: u8 = 0x06;
pub const CRTC_OVERFLOW: u8 = 0x07;
pub const CRTC_PRESET_ROW_SCAN: u8 = 0x08;
pub const CRTC_MAXIMUM_SCAN_LINE: u8 = 0x09;
pub const CRTC_VERTICAL_RETRACE_START: u8 = 0x10;
pub const CRTC_VERTICAL_RETRACE_END: u8 = 0x11;
pub const CRTC_VERTICAL_DISPLAY_END: u8 = 0x12;
pub const CRTC_LOGICAL_WIDTH: u8 = 0x13;
pub const CRTC_UNDERLINE_LOCATION: u8 = 0x14;
pub const CRTC_VERTICAL_BLANK_START: u8 = 0x15;
pub const CRTC_VERTICAL_BLANK_END: u8 = 0x16;
pub const CRTC_MODE_CONTROL: u8 = 0x17;

// Graphics controller register indexes.
pub const GRAPHICS_MODE_INDEX: u8 = 0x05;
pub const MISC_GRAPHICS_INDEX: u8 = 0x06;

// Sequencer register indexes.
pub const CLOCK_MODE_INDEX: u8 = 0x01;
pub const SEQUENCER_MEMORY_MODE_INDEX: u8 = 0x04;

/// Attribute address bit that selects normal operation rather than
/// palette loading; it must be set on every index used at mode-set.
pub const PALETTE_ADDRESS_SOURCE: u8 = 0x20;

/// Attribute mode control register index (with the Palette Address
/// Source bit folded in).
pub const ATTR_MODE_CONTROL_INDEX: u8 = 0x10;

// Attribute mode control bits.
pub const ATTRIBUTE_8BIT: u8 = 0x40;
pub const ATTRIBUTE_ATGE: u8 = 0x01;

// Graphics mode / miscellaneous bits.
pub const GRAPHICS_SHIFT256: u8 = 0x40;
pub const GRAPHICS_MEM_MAP_128K: u8 = 0x00;
pub const GRAPHICS_ALPHA_DISABLE: u8 = 0x01;

// Bochs DISPI register indexes.
pub const VBE_DISPI_INDEX_ID: u8 = 0x0;
pub const VBE_DISPI_INDEX_XRES: u8 = 0x1;
pub const VBE_DISPI_INDEX_YRES: u8 = 0x2;
pub const VBE_DISPI_INDEX_BPP: u8 = 0x3;
pub const VBE_DISPI_INDEX_ENABLE: u8 = 0x4;
pub const VBE_DISPI_INDEX_BANK: u8 = 0x5;
pub const VBE_DISPI_INDEX_VIRT_WIDTH: u8 = 0x6;
pub const VBE_DISPI_INDEX_VIRT_HEIGHT: u8 = 0x7;
pub const VBE_DISPI_INDEX_X_OFFSET: u8 = 0x8;
pub const VBE_DISPI_INDEX_Y_OFFSET: u8 = 0x9;

// Bochs DISPI enable-register flags and BPP value.
pub const VBE_DISPI_DISABLED: u16 = 0x00;
pub const VBE_DISPI_ENABLED: u16 = 0x01;
pub const VBE_DISPI_LFB_ENABLED: u16 = 0x40;
pub const VBE_DISPI_NOCLEARMEM: u16 = 0x80;
pub const VBE_DISPI_BPP_8: u16 = 0x08;

} // verus!
