use rvkern::display::{color_level, map_color, ModeXDisplay, Rgb};
use rvkern::pci::PciConfig;
use rvkern::vga::{VgaCard, VGA};

/// The quantisation table: each component value's level in the color
/// cube.
const LEVELS: [u8; 256] = [
    0, 0, 0, 0, 0, 0, 0, 0, 0, 0, 0, 0, 0, 0, 0, 0, 0, 0, 0, 0, 0, 0, 0, 0, 0, 0, 1, 1, 1, 1, 1,
    1, 1, 1, 1, 1, 1, 1, 1, 1, 1, 1, 1, 1, 1, 1, 1, 1, 1, 1, 1, 1, 1, 1, 1, 1, 1, 1, 1, 1, 1, 1,
    1, 1, 1, 1, 1, 1, 1, 1, 1, 1, 1, 1, 1, 1, 1, 2, 2, 2, 2, 2, 2, 2, 2, 2, 2, 2, 2, 2, 2, 2, 2,
    2, 2, 2, 2, 2, 2, 2, 2, 2, 2, 2, 2, 2, 2, 2, 2, 2, 2, 2, 2, 2, 2, 2, 2, 2, 2, 2, 2, 2, 2, 2,
    2, 2, 2, 2, 3, 3, 3, 3, 3, 3, 3, 3, 3, 3, 3, 3, 3, 3, 3, 3, 3, 3, 3, 3, 3, 3, 3, 3, 3, 3, 3,
    3, 3, 3, 3, 3, 3, 3, 3, 3, 3, 3, 3, 3, 3, 3, 3, 3, 3, 3, 3, 3, 3, 3, 3, 4, 4, 4, 4, 4, 4, 4,
    4, 4, 4, 4, 4, 4, 4, 4, 4, 4, 4, 4, 4, 4, 4, 4, 4, 4, 4, 4, 4, 4, 4, 4, 4, 4, 4, 4, 4, 4, 4,
    4, 4, 4, 4, 4, 4, 4, 4, 4, 4, 4, 4, 4, 5, 5, 5, 5, 5, 5, 5, 5, 5, 5, 5, 5, 5, 5, 5, 5, 5, 5,
    5, 5, 5, 5, 5, 5, 5, 5,
];

fn display(width: u32, height: u32) -> ModeXDisplay {
    let mut regs = vec![0u32; 64];
    regs[0] = (0x1111u32 << 16) | 0x1234;
    regs[2] = 0x0300_0000;
    let masks = vec![0xFF00_0000, 0, 0xFFFF_F000, 0, 0, 0];
    let flags = vec![8, 0, 8, 0, 0, 0];
    let cfg = PciConfig::new(regs, masks, flags);
    let card = VgaCard::new(0x0100_0000);
    let vga = match VGA::new(0, 1, 0x4000_0000, cfg, card) {
        Ok(v) => v,
        Err(_) => panic!("attach failed"),
    };
    ModeXDisplay::new(vga, width, height)
}

#[test]
fn quantisation_levels_match_the_table() {
    for c in 0..=255u8 {
        assert_eq!(color_level(c), LEVELS[c as usize], "component {}", c);
    }
}

#[test]
fn color_mapping_hits_the_cube_corners() {
    assert_eq!(map_color(Rgb { r: 0, g: 0, b: 0 }), 16);
    assert_eq!(map_color(Rgb { r: 255, g: 255, b: 255 }), 16 + 5 + 30 + 180);
    assert_eq!(map_color(Rgb { r: 255, g: 0, b: 0 }), 21);
    assert_eq!(map_color(Rgb { r: 0, g: 0, b: 255 }), 196);
}

#[test]
fn color_mapping_stays_in_the_cube() {
    let samples = [0u8, 1, 25, 26, 77, 128, 179, 229, 230, 255];
    for &r in samples.iter() {
        for &g in samples.iter() {
            for &b in samples.iter() {
                let i = map_color(Rgb { r, g, b });
                assert!((16..232).contains(&i));
            }
        }
    }
}

#[test]
fn mode_x_draw() {
    let mut d = display(320, 240);
    assert_eq!(d.set_pixel_index(0, 0, 7), Some(()));
    assert_eq!(d.set_pixel_index(319, 239, 12), Some(()));
    assert_eq!(d.fb_byte(0), 7);
    assert_eq!(d.fb_byte(239 * 320 + 319), 12);
    // A write one column past the right edge is silently dropped.
    let before = d.fb_byte(320);
    assert_eq!(d.set_pixel_index(320, 0, 99), None);
    assert_eq!(d.fb_byte(320), before);
}

#[test]
fn true_color_pixels_are_quantised() {
    let mut d = display(320, 240);
    assert_eq!(d.set_pixel(3, 2, Rgb { r: 255, g: 255, b: 255 }), Some(()));
    assert_eq!(d.fb_byte(2 * 320 + 3), 231);
    assert_eq!(d.set_pixel(-1, 0, Rgb { r: 255, g: 0, b: 0 }), None);
    assert_eq!(d.set_pixel(0, 240, Rgb { r: 255, g: 0, b: 0 }), None);
}

#[test]
fn block_fill_paints_exactly_the_block() {
    let mut d = display(320, 240);
    assert_eq!(d.set_region(8, 1, 16, 8, Rgb { r: 255, g: 255, b: 255 }), Some(()));
    for row in 1..9 {
        for col in 8..24 {
            assert_eq!(d.fb_byte(row * 320 + col), 231);
        }
    }
    // The byte just left of the block and just right of it are
    // untouched.
    assert_eq!(d.fb_byte(320 + 7), 0);
    assert_eq!(d.fb_byte(320 + 24), 0);
    assert_eq!(d.fb_byte(0), 0);
}

#[test]
fn block_fill_rejects_unaligned_blocks() {
    let mut d = display(320, 240);
    assert_eq!(d.set_region(0, 0, 12, 8, Rgb { r: 0, g: 0, b: 0 }), None);
    assert_eq!(d.set_region(0, 0, 8, 12, Rgb { r: 0, g: 0, b: 0 }), None);
    assert_eq!(d.set_region(4, 0, 8, 8, Rgb { r: 0, g: 0, b: 0 }), None);
    assert_eq!(d.set_region(320, 0, 8, 8, Rgb { r: 0, g: 0, b: 0 }), None);
    assert_eq!(d.set_region(0, 236, 8, 8, Rgb { r: 0, g: 0, b: 0 }), None);
    assert_eq!(d.fb_byte(0), 0);
}

#[test]
fn rectangle_uses_the_block_fill() {
    let mut d = display(320, 240);
    d.rectangle(0, 0, 256, 240, Rgb { r: 0, g: 0, b: 255 });
    let blue = map_color(Rgb { r: 0, g: 0, b: 255 });
    assert_eq!(d.fb_byte(0), blue);
    assert_eq!(d.fb_byte(239 * 320 + 255), blue);
    assert_eq!(d.fb_byte(256), 0);
}

#[test]
fn clear_blacks_out_the_surface() {
    let mut d = display(320, 240);
    assert_eq!(d.set_pixel_index(5, 5, 200), Some(()));
    d.clear();
    assert_eq!(d.fb_byte(0), 16);
    assert_eq!(d.fb_byte(5 * 320 + 5), 16);
    assert_eq!(d.fb_byte(239 * 320 + 319), 16);
}

#[test]
fn draw_pixels_consumes_a_rasterised_run() {
    let mut d = display(320, 240);
    let white = Rgb { r: 255, g: 255, b: 255 };
    let pts = vec![(0, 0, white), (1, 0, white), (-3, 7, white), (2, 1, white)];
    d.draw_pixels(&pts);
    assert_eq!(d.fb_byte(0), 231);
    assert_eq!(d.fb_byte(1), 231);
    assert_eq!(d.fb_byte(320 + 2), 231);
    assert_eq!(d.fb_byte(2), 0);
}

#[test]
fn text_cursor_chains_runs() {
    let mut d = display(320, 240);
    assert_eq!(d.next_print_origin(), (0, 10));
    assert_eq!(d.next_line_origin(), (0, 20));
    d.record_print(12, 30, 3);
    assert_eq!(d.next_print_origin(), (12 + 18, 30));
    assert_eq!(d.next_line_origin(), (0, 40));
}

#[test]
fn text_origins_wrap_onto_the_surface() {
    let d = display(320, 240);
    assert_eq!(d.wrap_coords(330, 250), (10, 10));
    assert_eq!(d.wrap_coords(5, 7), (5, 7));
}

#[test]
fn resize_reprograms_the_device() {
    let mut d = display(320, 240);
    d.resize(640, 480);
    assert_eq!(d.width, 640);
    assert_eq!(d.height, 480);
    assert_eq!(d.vga.read_bochs_reg(1), 640);
    assert_eq!(d.vga.read_bochs_reg(2), 480);
}
