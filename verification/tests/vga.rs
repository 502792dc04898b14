use rvkern::pci::{PCIError, PciConfig};
use rvkern::vga::{palette_entry, VgaCard, VGA};

/// The fixed 256-entry boot palette as 0xRRGGBB values: the 16
/// standard colors, a 6x6x6 cube, and reserved zero entries.
const PALETTE: [u32; 256] = [
    0x000000, 0x0000AA, 0x00AA00, 0x00AAAA, 0xAA0000, 0xAA00AA, 0xAA5500, 0xAAAAAA,
    0x555555, 0x5555FF, 0x55FF55, 0x55FFFF, 0xFF5555, 0xFF55FF, 0xFFFF55, 0xFFFFFF,
    0x000000, 0x330000, 0x660000, 0x990000, 0xCC0000, 0xFF0000, 0x003300, 0x333300,
    0x663300, 0x993300, 0xCC3300, 0xFF3300, 0x006600, 0x336600, 0x666600, 0x996600,
    0xCC6600, 0xFF6600, 0x009900, 0x339900, 0x669900, 0x999900, 0xCC9900, 0xFF9900,
    0x00CC00, 0x33CC00, 0x66CC00, 0x99CC00, 0xCCCC00, 0xFFCC00, 0x00FF00, 0x33FF00,
    0x66FF00, 0x99FF00, 0xCCFF00, 0xFFFF00, 0x000033, 0x330033, 0x660033, 0x990033,
    0xCC0033, 0xFF0033, 0x003333, 0x333333, 0x663333, 0x993333, 0xCC3333, 0xFF3333,
    0x006633, 0x336633, 0x666633, 0x996633, 0xCC6633, 0xFF6633, 0x009933, 0x339933,
    0x669933, 0x999933, 0xCC9933, 0xFF9933, 0x00CC33, 0x33CC33, 0x66CC33, 0x99CC33,
    0xCCCC33, 0xFFCC33, 0x00FF33, 0x33FF33, 0x66FF33, 0x99FF33, 0xCCFF33, 0xFFFF33,
    0x000066, 0x330066, 0x660066, 0x990066, 0xCC0066, 0xFF0066, 0x003366, 0x333366,
    0x663366, 0x993366, 0xCC3366, 0xFF3366, 0x006666, 0x336666, 0x666666, 0x996666,
    0xCC6666, 0xFF6666, 0x009966, 0x339966, 0x669966, 0x999966, 0xCC9966, 0xFF9966,
    0x00CC66, 0x33CC66, 0x66CC66, 0x99CC66, 0xCCCC66, 0xFFCC66, 0x00FF66, 0x33FF66,
    0x66FF66, 0x99FF66, 0xCCFF66, 0xFFFF66, 0x000099, 0x330099, 0x660099, 0x990099,
    0xCC0099, 0xFF0099, 0x003399, 0x333399, 0x663399, 0x993399, 0xCC3399, 0xFF3399,
    0x006699, 0x336699, 0x666699, 0x996699, 0xCC6699, 0xFF6699, 0x009999, 0x339999,
    0x669999, 0x999999, 0xCC9999, 0xFF9999, 0x00CC99, 0x33CC99, 0x66CC99, 0x99CC99,
    0xCCCC99, 0xFFCC99, 0x00FF99, 0x33FF99, 0x66FF99, 0x99FF99, 0xCCFF99, 0xFFFF99,
    0x0000CC, 0x3300CC, 0x6600CC, 0x9900CC, 0xCC00CC, 0xFF00CC, 0x0033CC, 0x3333CC,
    0x6633CC, 0x9933CC, 0xCC33CC, 0xFF33CC, 0x0066CC, 0x3366CC, 0x6666CC, 0x9966CC,
    0xCC66CC, 0xFF66CC, 0x0099CC, 0x3399CC, 0x6699CC, 0x9999CC, 0xCC99CC, 0xFF99CC,
    0x00CCCC, 0x33CCCC, 0x66CCCC, 0x99CCCC, 0xCCCCCC, 0xFFCCCC, 0x00FFCC, 0x33FFCC,
    0x66FFCC, 0x99FFCC, 0xCCFFCC, 0xFFFFCC, 0x0000FF, 0x3300FF, 0x6600FF, 0x9900FF,
    0xCC00FF, 0xFF00FF, 0x0033FF, 0x3333FF, 0x6633FF, 0x9933FF, 0xCC33FF, 0xFF33FF,
    0x0066FF, 0x3366FF, 0x6666FF, 0x9966FF, 0xCC66FF, 0xFF66FF, 0x0099FF, 0x3399FF,
    0x6699FF, 0x9999FF, 0xCC99FF, 0xFF99FF, 0x00CCFF, 0x33CCFF, 0x66CCFF, 0x99CCFF,
    0xCCCCFF, 0xFFCCFF, 0x00FFFF, 0x33FFFF, 0x66FFFF, 0x99FFFF, 0xCCFFFF, 0xFFFFFF,
    0x000000, 0x000000, 0x000000, 0x000000, 0x000000, 0x000000, 0x000000, 0x000000,
    0x000000, 0x000000, 0x000000, 0x000000, 0x000000, 0x000000, 0x000000, 0x000000,
    0x000000, 0x000000, 0x000000, 0x000000, 0x000000, 0x000000, 0x000000, 0x000000,
];

fn display_cfg(class_dword: u32) -> PciConfig {
    let mut regs = vec![0u32; 64];
    regs[0] = (0x1111u32 << 16) | 0x1234;
    regs[2] = class_dword;
    regs[4] = 0x4000_0008;
    regs[6] = 0x0000_0008;
    let masks = vec![0xFF00_0000, 0, 0xFFFF_F000, 0, 0, 0];
    let flags = vec![8, 0, 8, 0, 0, 0];
    PciConfig::new(regs, masks, flags)
}

fn attach() -> VGA {
    let cfg = display_cfg(0x0300_0000);
    let card = VgaCard::new(0x0100_0000);
    match VGA::new(0, 1, 0x4000_0000, cfg, card) {
        Ok(v) => v,
        Err(_) => panic!("attach failed"),
    }
}

#[test]
fn class_guard_rejects_non_display_devices() {
    let cfg = display_cfg(0x0200_0000);
    let card = VgaCard::new(0x1000);
    match VGA::new(0, 1, 0x4000_0000, cfg, card) {
        Ok(_) => panic!("a network-class device must be rejected"),
        Err(e) => {
            assert_eq!(e.error, PCIError::InvalidDevice);
            // The framebuffer and I/O BARs are untouched.
            assert_eq!(e.pci.bar_read(0), 0x4000_0008);
            assert_eq!(e.pci.bar_read(2), 0x0000_0008);
        }
    }
}

#[test]
fn aperture_guard_rejects_bad_window_bases() {
    let cfg = display_cfg(0x0300_0000);
    let card = VgaCard::new(0x1000);
    match VGA::new(0, 1, 0x1000, cfg, card) {
        Ok(_) => panic!("a base below the aperture must be rejected"),
        Err(e) => {
            assert_eq!(e.error, PCIError::InvalidAddress);
            assert_eq!(e.pci.bar_read(0), 0x4000_0008);
        }
    }
}

#[test]
fn attach_assigns_windows_and_enables_memory_space() {
    let v = attach();
    assert_eq!(v.fb, 0x4000_0000);
    assert_eq!(v.fb_size, 0x0100_0000);
    assert_eq!(v.io, 0x4100_0000);
    assert_eq!(v.io_size, 0x1000);
    assert_eq!(v.vga_port, 0x4100_0000 + 0x40);
    assert_eq!(v.pci.bar_read(0), 0x4000_0008);
    assert_eq!(v.pci.bar_read(2), 0x4100_0008);
    assert!(v.pci.header.command.memory_space());
}

#[test]
fn attach_loads_the_fixed_palette() {
    let v = attach();
    assert_eq!(v.card.dac.len(), 768);
    for e in 0..256 {
        let rgb = PALETTE[e];
        assert_eq!(v.card.dac[3 * e], (rgb >> 16) as u8, "red of entry {}", e);
        assert_eq!(v.card.dac[3 * e + 1], (rgb >> 8) as u8, "green of entry {}", e);
        assert_eq!(v.card.dac[3 * e + 2], rgb as u8, "blue of entry {}", e);
    }
}

#[test]
fn palette_entries_match_the_table() {
    for e in 0..256 {
        assert_eq!(palette_entry(e), PALETTE[e], "entry {}", e);
    }
}

#[test]
fn indexed_register_round_trip() {
    let mut v = attach();
    v.set_register(0x3D4, 0x05, 0x42);
    assert_eq!(v.read_register(0x3D4, 0x05), 0x42);
    v.set_register(0x3C4, 0x01, 0x07);
    assert_eq!(v.read_register(0x3C4, 0x01), 0x07);
    v.set_register(0x3CE, 0x06, 0x0D);
    assert_eq!(v.read_register(0x3CE, 0x06), 0x0D);
}

#[test]
fn attribute_register_round_trip() {
    let mut v = attach();
    // Index 0x31: the Palette Address Source bit plus register 0x11.
    v.set_register(0x3C0, 0x31, 0x2A);
    assert_eq!(v.read_register(0x3C0, 0x31), 0x2A);
}

#[test]
fn misc_output_round_trip() {
    let mut v = attach();
    v.set_register(0x3C2, 0, 1);
    assert_eq!(v.read_register(0x3C2, 0), 1);
}

#[test]
fn bochs_registers_and_version() {
    let mut v = attach();
    assert_eq!(v.get_bochs_version(), 0);
    v.write_bochs_reg(0, 0xB0C5);
    assert_eq!(v.get_bochs_version(), 0xB0C5);
    assert_eq!(v.read_bochs_reg(0), 0xB0C5);
}

#[test]
fn dac_write_port_auto_increments_and_wraps() {
    let mut card = VgaCard::new(0x1000);
    card.port_write(0x3C8, 255);
    card.port_write(0x3C9, 1);
    card.port_write(0x3C9, 2);
    card.port_write(0x3C9, 3);
    assert_eq!(&card.dac[765..768], &[1, 2, 3]);
    // After a full triple the entry index wraps to 0.
    card.port_write(0x3C9, 9);
    assert_eq!(card.dac[0], 9);
}

#[test]
fn attribute_flip_flop_alternates_index_and_data() {
    let mut card = VgaCard::new(0x1000);
    let _ = card.port_read(0x3DA);
    card.port_write(0x3C0, 0x23); // index 3 with the address-source bit
    card.port_write(0x3C0, 0x55); // data
    assert_eq!(card.attr[3], 0x55);
    // Without a reset the next write is an index again.
    card.port_write(0x3C0, 0x24);
    card.port_write(0x3C0, 0x66);
    assert_eq!(card.attr[4], 0x66);
    assert_eq!(card.attr[3], 0x55);
}

#[test]
fn mode_set_programs_the_register_files() {
    let mut v = attach();
    v.set_resolution(640, 480);
    // Legacy files.
    assert_eq!(v.read_register(0x3C2, 0), 1);
    assert_eq!(v.read_register(0x3C0, 0x30), 0x41);
    assert_eq!(v.read_register(0x3CE, 0x05), 0x40);
    assert_eq!(v.read_register(0x3CE, 0x06), 0x01);
    assert_eq!(v.read_register(0x3C4, 0x01), 0x01);
    assert_eq!(v.read_register(0x3C4, 0x04), 0x08);
    // A few CRTC timing entries.
    assert_eq!(v.read_register(0x3D4, 0x00), 0x5F);
    assert_eq!(v.read_register(0x3D4, 0x01), 0x4F);
    assert_eq!(v.read_register(0x3D4, 0x09), 0x41);
    assert_eq!(v.read_register(0x3D4, 0x13), 0x28);
    assert_eq!(v.read_register(0x3D4, 0x17), 0xE3);
    // Bochs DISPI bring-up.
    assert_eq!(v.read_bochs_reg(1), 640);
    assert_eq!(v.read_bochs_reg(2), 480);
    assert_eq!(v.read_bochs_reg(3), 8);
    assert_eq!(v.read_bochs_reg(4), 0x01 | 0x80 | 0x40);
}
