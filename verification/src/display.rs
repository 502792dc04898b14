//! Linear 8-bit indexed-color display surface over an attached VGA
//! device, with true-color quantization into the fixed palette's
//! 6x6x6 cube.

use vstd::prelude::*;

use vstd::arithmetic::div_mod::{lemma_fundamental_div_mod, lemma_fundamental_div_mod_converse};

use crate::vga::{VgaCard, VGA};

verus! {

/// Every byte lane of a 64-bit store stays within byte range.
proof fn lemma_u64_byte_bounds()
    by (bit_vector)
    ensures
        forall|x: u64| #![auto] (x & 0xFF) < 0x100,
        forall|x: u64| #![auto] ((x >> 8) & 0xFF) < 0x100,
        forall|x: u64| #![auto] ((x >> 16) & 0xFF) < 0x100,
        forall|x: u64| #![auto] ((x >> 24) & 0xFF) < 0x100,
        forall|x: u64| #![auto] ((x >> 32) & 0xFF) < 0x100,
        forall|x: u64| #![auto] ((x >> 40) & 0xFF) < 0x100,
        forall|x: u64| #![auto] ((x >> 48) & 0xFF) < 0x100,
        forall|x: u64| #![auto] ((x >> 56) & 0xFF) < 0x100,
{
}

/// One 64-bit store into the framebuffer: eight bytes at once,
/// least-significant lane first.
fn store8(fb: &mut Vec<u8>, off: usize, v: u64)
    requires
        off + 8 <= old(fb)@.len(),
    ensures
        final(fb)@.len() == old(fb)@.len(),
        final(fb)@[off as int] == (v & 0xFF) as u8,
        final(fb)@[off + 1] == ((v >> 8) & 0xFF) as u8,
        final(fb)@[off + 2] == ((v >> 16) & 0xFF) as u8,
        final(fb)@[off + 3] == ((v >> 24) & 0xFF) as u8,
        final(fb)@[off + 4] == ((v >> 32) & 0xFF) as u8,
        final(fb)@[off + 5] == ((v >> 40) & 0xFF) as u8,
        final(fb)@[off + 6] == ((v >> 48) & 0xFF) as u8,
        final(fb)@[off + 7] == ((v >> 56) & 0xFF) as u8,
        forall|o: int|
            0 <= o < old(fb)@.len() && !(off <= o < off + 8) ==> final(fb)@[o] == old(fb)@[o],
{
    proof {
        lemma_u64_byte_bounds();
    }
    let _fb_len = fb.len();
    fb.set(off, (v & 0xFF) as u8);
    fb.set(off + 1, ((v >> 8) & 0xFF) as u8);
    fb.set(off + 2, ((v >> 16) & 0xFF) as u8);
    fb.set(off + 3, ((v >> 24) & 0xFF) as u8);
    fb.set(off + 4, ((v >> 32) & 0xFF) as u8);
    fb.set(off + 5, ((v >> 40) & 0xFF) as u8);
    fb.set(off + 6, ((v >> 48) & 0xFF) as u8);
    fb.set(off + 7, ((v >> 56) & 0xFF) as u8);
}

/// A true-color pixel value.
#[derive(Clone, Copy, Debug, PartialEq, Eq, Structural)]
pub struct Rgb {
    pub r: u8,
    pub g: u8,
    pub b: u8,
}

/// Quantisation level (0..=5) of one color component: the component
/// range is split at 26, 77, 128, 179 and 230.
pub open spec fn level_spec(c: u8) -> int {
    (c + 25) / 51
}

/// The palette index a true color is drawn with: an entry of the
/// 6x6x6 cube that starts at index 16, red varying fastest.
pub open spec fn map_color_spec(c: Rgb) -> u8 {
    (16 + level_spec(c.r) + 6 * level_spec(c.g) + 36 * level_spec(c.b)) as u8
}

/// Quantisation level of one color component.
pub fn color_level(c: u8) -> (r: u8)
    ensures
        r == level_spec(c),
        r <= 5,
{
    ((c as u32 + 25) / 51) as u8
}

/// Quantise a true color into the palette's color cube.  The result
/// always lies in the cube's index range `[16, 232)`.
pub fn map_color(c: Rgb) -> (r: u8)
    ensures
        r == map_color_spec(c),
        16 <= r < 232,
{
    let lr = color_level(c.r);
    let lg = color_level(c.g);
    let lb = color_level(c.b);
    16 + lr + 6 * lg + 36 * lb
}

/// The framebuffer after one pixel has been drawn at `(x, y)`:
/// out-of-bounds coordinates leave it untouched.
pub open spec fn paint(fb: Seq<u8>, width: int, height: int, x: int, y: int, c: Rgb) -> Seq<u8> {
    if 0 <= x < width && 0 <= y < height {
        fb.update(y * width + x, map_color_spec(c))
    } else {
        fb
    }
}

/// The framebuffer after a whole run of pixels has been drawn in
/// order.
pub open spec fn paint_all(fb: Seq<u8>, width: int, height: int, ps: Seq<(i32, i32, Rgb)>) -> Seq<
    u8,
>
    decreases ps.len(),
{
    if ps.len() == 0 {
        fb
    } else {
        paint_all(
            paint(fb, width, height, ps[0].0 as int, ps[0].1 as int, ps[0].2),
            width,
            height,
            ps.drop_first(),
        )
    }
}

/// Offset `o` of the framebuffer lies inside the block of `w` x `h`
/// pixels whose top-left corner is `(x, y)`, on a surface `width`
/// pixels wide.
pub open spec fn in_block(width: int, x: int, y: int, w: int, h: int, o: int) -> bool {
    y <= o / width < y + h && x <= o % width < x + w
}

/// Writing palette index `c` at an in-bounds `(x, y)` puts exactly
/// byte `c` at framebuffer offset `y * width + x`, so any subsequent
/// read of that offset returns `c`.
pub proof fn lemma_pixel_write_read(fb: Seq<u8>, width: int, x: int, y: int, c: u8)
    requires
        0 <= x < width,
        0 <= y,
        y * width + x < fb.len(),
    ensures
        fb.update(y * width + x, c)[y * width + x] == c,
{
}

/// A drawing surface over the linear framebuffer of an attached
/// display: pixels are single palette indexes at `y * width + x`.
/// The surface also keeps the small cursor state that chains text
/// output.
pub struct ModeXDisplay {
    pub vga: VGA,
    pub last_x: i32,
    pub last_y: i32,
    pub last_length: i32,
    pub width: u32,
    pub height: u32,
}

impl ModeXDisplay {
    pub open spec fn wf(self) -> bool {
        &&& self.vga.wf()
        &&& self.width % 8 == 0
        &&& 8 <= self.width <= 0xFFFF
        &&& 1 <= self.height <= 0xFFFF
        &&& self.width * self.height <= self.vga.card.fb@.len()
        &&& 0 <= self.last_x <= 0xFFFF
        &&& 0 <= self.last_y <= 0xFFFF
        &&& 0 <= self.last_length <= 0x60000
    }

    /// The framebuffer contents.
    pub open spec fn fb(self) -> Seq<u8> {
        self.vga.card.fb@
    }

    /// Bring the device to `width` x `height` and wrap it as a
    /// drawing surface, with the text cursor at its boot position.
    pub fn new(vga: VGA, width: u32, height: u32) -> (r: ModeXDisplay)
        requires
            vga.wf(),
            width % 8 == 0,
            8 <= width <= 0xFFFF,
            1 <= height <= 0xFFFF,
            width * height <= vga.card.fb@.len(),
        ensures
            r.wf(),
            r.width == width,
            r.height == height,
            r.last_x == 0,
            r.last_y == 10,
            r.last_length == 0,
            r.fb() == vga.card.fb@,
            r.vga.card.dac@ == vga.card.dac@,
            r.vga.pci == vga.pci,
            r.vga.fb == vga.fb,
            r.vga.fb_size == vga.fb_size,
            r.vga.io == vga.io,
            r.vga.io_size == vga.io_size,
            r.vga.vga_port == vga.vga_port,
            r.vga.card.bochs@[1] == width as u16,
            r.vga.card.bochs@[2] == height as u16,
            r.vga.card.bochs@[3] == 8,
            r.vga.card.bochs@[4] == 0xC1,
    {
        let mut vga = vga;
        vga.set_resolution(width, height);
        proof {
            assert((0x01u16 | 0x80 | 0x40) == 0xC1) by (bit_vector);
        }
        ModeXDisplay { vga, last_x: 0, last_y: 10, last_length: 0, width, height }
    }

    /// Byte `offset` of the framebuffer.
    pub fn fb_byte(&self, offset: usize) -> (r: u8)
        requires
            self.wf(),
            offset < self.fb().len(),
        ensures
            r == self.fb()[offset as int],
    {
        self.vga.card.fb[offset]
    }

    /// Number of bytes of video memory behind the surface.
    pub fn fb_len(&self) -> (r: usize)
        ensures
            r == self.fb().len(),
    {
        self.vga.card.fb.len()
    }

    /// Write palette index `index` at `(x, y)`.  Out-of-bounds
    /// coordinates are dropped: nothing is written and `None` says
    /// the pixel was not drawn.
    pub fn set_pixel_index(&mut self, x: i32, y: i32, index: u8) -> (r: Option<()>)
        requires
            old(self).wf(),
        ensures
            final(self).wf(),
            *final(self) == (ModeXDisplay { vga: final(self).vga, ..*old(self) }),
            final(self).vga == (VGA { card: final(self).vga.card, ..old(self).vga }),
            final(self).vga.card == (VgaCard { fb: final(self).vga.card.fb, ..old(self).vga.card }),
            r is Some <==> 0 <= x < old(self).width && 0 <= y < old(self).height,
            r is Some ==> final(self).fb() == old(self).fb().update(
                y * old(self).width + x,
                index,
            ),
            r is None ==> final(self).fb() == old(self).fb(),
    {
        if x >= 0 && x < self.width as i32 && y >= 0 && y < self.height as i32 {
            let _fb_len = self.vga.card.fb.len();
            proof {
                assert(y * self.width + x < self.width * self.height) by (nonlinear_arith)
                    requires
                        0 <= x < self.width,
                        0 <= y < self.height,
                ;
            }
            let off = x as usize + y as usize * self.width as usize;
            self.vga.card.fb.set(off, index);
            Some(())
        } else {
            None
        }
    }

    /// Draw a true color at `(x, y)` by its quantised palette index.
    /// Out-of-bounds coordinates are dropped.
    pub fn set_pixel(&mut self, x: i32, y: i32, color: Rgb) -> (r: Option<()>)
        requires
            old(self).wf(),
        ensures
            final(self).wf(),
            *final(self) == (ModeXDisplay { vga: final(self).vga, ..*old(self) }),
            final(self).vga == (VGA { card: final(self).vga.card, ..old(self).vga }),
            final(self).vga.card == (VgaCard { fb: final(self).vga.card.fb, ..old(self).vga.card }),
            r is Some <==> 0 <= x < old(self).width && 0 <= y < old(self).height,
            final(self).fb() == paint(
                old(self).fb(),
                old(self).width as int,
                old(self).height as int,
                x as int,
                y as int,
                color,
            ),
    {
        let c = map_color(color);
        self.set_pixel_index(x, y, c)
    }

    /// Draw a run of rasterised pixels in order, dropping the
    /// out-of-bounds ones.
    pub fn draw_pixels(&mut self, pixels: &Vec<(i32, i32, Rgb)>)
        requires
            old(self).wf(),
        ensures
            final(self).wf(),
            *final(self) == (ModeXDisplay { vga: final(self).vga, ..*old(self) }),
            final(self).vga == (VGA { card: final(self).vga.card, ..old(self).vga }),
            final(self).vga.card == (VgaCard { fb: final(self).vga.card.fb, ..old(self).vga.card }),
            final(self).fb() == paint_all(
                old(self).fb(),
                old(self).width as int,
                old(self).height as int,
                pixels@,
            ),
    {
        let ghost w = self.width as int;
        let ghost h = self.height as int;
        let ghost fb0 = self.fb();
        proof {
            assert(pixels@.skip(0) =~= pixels@);
        }
        let mut k: usize = 0;
        while k < pixels.len()
            invariant
                old(self).wf(),
                self.wf(),
                k <= pixels@.len(),
                w == old(self).width as int,
                h == old(self).height as int,
                fb0 == old(self).fb(),
                *self == (ModeXDisplay { vga: self.vga, ..*old(self) }),
                self.vga == (VGA { card: self.vga.card, ..old(self).vga }),
                self.vga.card == (VgaCard { fb: self.vga.card.fb, ..old(self).vga.card }),
                paint_all(fb0, w, h, pixels@) == paint_all(self.fb(), w, h, pixels@.skip(k as int)),
            decreases pixels@.len() - k,
        {
            let (x, y, c) = pixels[k];
            proof {
                assert(pixels@.skip(k as int)[0] == pixels@[k as int]);
                assert(pixels@.skip(k as int).drop_first() =~= pixels@.skip(k as int + 1));
            }
            self.set_pixel(x, y, c);
            k = k + 1;
        }
        proof {
            assert(pixels@.skip(pixels@.len() as int) =~= Seq::<(i32, i32, Rgb)>::empty());
        }
    }
}

/// The block a `set_region` call paints is accepted: origin and size
/// multiples of 8 pixels, and the whole block inside the surface.
pub open spec fn region_ok(d: ModeXDisplay, x: int, y: int, w: int, h: int) -> bool {
    &&& w % 8 == 0
    &&& h % 8 == 0
    &&& x % 8 == 0
    &&& 0 <= x
    &&& 0 <= y
    &&& x + w <= d.width
    &&& y + h <= d.height
}

impl ModeXDisplay {
    /// Fast block fill: paint the `w` x `h` block at `(x, y)` with a
    /// quantised true color, eight pixels per 64-bit store.  A block
    /// whose origin or size is not a multiple of 8 pixels, or which
    /// does not lie wholly on the surface, is dropped with `None`.
    pub fn set_region(&mut self, x: i32, y: i32, w: u32, h: u32, color: Rgb) -> (r: Option<()>)
        requires
            old(self).wf(),
        ensures
            final(self).wf(),
            *final(self) == (ModeXDisplay { vga: final(self).vga, ..*old(self) }),
            final(self).vga == (VGA { card: final(self).vga.card, ..old(self).vga }),
            final(self).vga.card == (VgaCard { fb: final(self).vga.card.fb, ..old(self).vga.card }),
            final(self).fb().len() == old(self).fb().len(),
            r is Some <==> region_ok(*old(self), x as int, y as int, w as int, h as int),
            r is Some ==> forall|o: int|
                0 <= o < final(self).fb().len() && in_block(
                    old(self).width as int,
                    x as int,
                    y as int,
                    w as int,
                    h as int,
                    o,
                ) ==> final(self).fb()[o] == map_color_spec(color),
            r is Some ==> forall|o: int|
                0 <= o < final(self).fb().len() && !in_block(
                    old(self).width as int,
                    x as int,
                    y as int,
                    w as int,
                    h as int,
                    o,
                ) ==> final(self).fb()[o] == old(self).fb()[o],
            r is None ==> final(self).fb() == old(self).fb(),
    {
        if !(w % 8 == 0 && h % 8 == 0) {
            return None;
        }
        if !(x >= 0 && x % 8 == 0 && y >= 0) {
            return None;
        }
        if !((x as u64) + (w as u64) <= self.width as u64 && (y as u64) + (h as u64)
            <= self.height as u64) {
            return None;
        }
        let ci = map_color(color);
        let cu = ci as u64;
        let c64 = cu << 56 | cu << 48 | cu << 40 | cu << 32 | cu << 24 | cu << 16 | cu << 8 | cu;
        proof {
            assert((cu << 56 | cu << 48 | cu << 40 | cu << 32 | cu << 24 | cu << 16 | cu << 8
                | cu) & 0xFF == cu && ((cu << 56 | cu << 48 | cu << 40 | cu << 32 | cu << 24 | cu
                << 16 | cu << 8 | cu) >> 8) & 0xFF == cu && ((cu << 56 | cu << 48 | cu << 40 | cu
                << 32 | cu << 24 | cu << 16 | cu << 8 | cu) >> 16) & 0xFF == cu && ((cu << 56 | cu
                << 48 | cu << 40 | cu << 32 | cu << 24 | cu << 16 | cu << 8 | cu) >> 24) & 0xFF
                == cu && ((cu << 56 | cu << 48 | cu << 40 | cu << 32 | cu << 24 | cu << 16 | cu
                << 8 | cu) >> 32) & 0xFF == cu && ((cu << 56 | cu << 48 | cu << 40 | cu << 32 | cu
                << 24 | cu << 16 | cu << 8 | cu) >> 40) & 0xFF == cu && ((cu << 56 | cu << 48 | cu
                << 40 | cu << 32 | cu << 24 | cu << 16 | cu << 8 | cu) >> 48) & 0xFF == cu && ((cu
                << 56 | cu << 48 | cu << 40 | cu << 32 | cu << 24 | cu << 16 | cu << 8 | cu)
                >> 56) & 0xFF == cu) by (bit_vector)
                requires
                    cu < 0x100,
            ;
        }
        let x0 = x as usize;
        let y0 = y as usize;
        let wu = w as usize;
        let hu = h as usize;
        let width = self.width as usize;
        let ghost wd = self.width as int;
        let ghost len = self.fb().len() as int;
        let ghost fb0 = self.fb();
        let _fb_len = self.vga.card.fb.len();
        proof {
            assert(self.width * self.height == self.height * self.width) by (nonlinear_arith);
        }
        let mut i: usize = 0;
        while i < hu
            invariant
                self.wf(),
                *self == (ModeXDisplay { vga: self.vga, ..*old(self) }),
                self.vga == (VGA { card: self.vga.card, ..old(self).vga }),
                self.vga.card == (VgaCard { fb: self.vga.card.fb, ..old(self).vga.card }),
                i <= hu,
                x0 == x as int,
                y0 == y as int,
                wu == w as int,
                hu == h as int,
                width == self.width,
                wd == self.width as int,
                x0 + wu <= width,
                y0 + hu <= self.height,
                wu % 8 == 0,
                8 <= width,
                self.height >= 1,
                len == self.fb().len() as int,
                fb0 == old(self).fb(),
                fb0.len() == len,
                self.width * self.height <= len,
                self.height * self.width <= len,
                len <= usize::MAX as int,
                cu == map_color_spec(color),
                (c64 & 0xFF) as u8 == map_color_spec(color),
                ((c64 >> 8) & 0xFF) as u8 == map_color_spec(color),
                ((c64 >> 16) & 0xFF) as u8 == map_color_spec(color),
                ((c64 >> 24) & 0xFF) as u8 == map_color_spec(color),
                ((c64 >> 32) & 0xFF) as u8 == map_color_spec(color),
                ((c64 >> 40) & 0xFF) as u8 == map_color_spec(color),
                ((c64 >> 48) & 0xFF) as u8 == map_color_spec(color),
                ((c64 >> 56) & 0xFF) as u8 == map_color_spec(color),
                forall|o: int|
                    0 <= o < len && in_block(wd, x as int, y as int, w as int, i as int, o)
                        ==> self.fb()[o] == map_color_spec(color),
                forall|o: int|
                    0 <= o < len && !in_block(wd, x as int, y as int, w as int, h as int, o)
                        ==> self.fb()[o] == fb0[o],
            decreases hu - i,
        {
            let row = y0 + i;
            let mut j: usize = 0;
            while j < wu
                invariant
                    self.wf(),
                    *self == (ModeXDisplay { vga: self.vga, ..*old(self) }),
                    self.vga == (VGA { card: self.vga.card, ..old(self).vga }),
                    self.vga.card == (VgaCard { fb: self.vga.card.fb, ..old(self).vga.card }),
                    i < hu,
                    j <= wu,
                    j % 8 == 0,
                    row == y0 + i,
                    x0 == x as int,
                    y0 == y as int,
                    wu == w as int,
                    hu == h as int,
                    width == self.width,
                    wd == self.width as int,
                    x0 + wu <= width,
                    y0 + hu <= self.height,
                    wu % 8 == 0,
                    8 <= width,
                    self.height >= 1,
                    len == self.fb().len() as int,
                    fb0 == old(self).fb(),
                    fb0.len() == len,
                    self.width * self.height <= len,
                    self.height * self.width <= len,
                    len <= usize::MAX as int,
                    cu == map_color_spec(color),
                    (c64 & 0xFF) as u8 == map_color_spec(color),
                    ((c64 >> 8) & 0xFF) as u8 == map_color_spec(color),
                    ((c64 >> 16) & 0xFF) as u8 == map_color_spec(color),
                    ((c64 >> 24) & 0xFF) as u8 == map_color_spec(color),
                    ((c64 >> 32) & 0xFF) as u8 == map_color_spec(color),
                    ((c64 >> 40) & 0xFF) as u8 == map_color_spec(color),
                    ((c64 >> 48) & 0xFF) as u8 == map_color_spec(color),
                    ((c64 >> 56) & 0xFF) as u8 == map_color_spec(color),
                    forall|o: int|
                        0 <= o < len && in_block(wd, x as int, y as int, w as int, i as int, o)
                            ==> self.fb()[o] == map_color_spec(color),
                    forall|o: int|
                        0 <= o < len && !in_block(wd, x as int, y as int, w as int, h as int, o)
                            ==> self.fb()[o] == fb0[o],
                    forall|o: int|
                        0 <= o < len && o / wd == y0 + i && x as int <= o % wd < x0 + j
                            ==> self.fb()[o] == map_color_spec(color),
                decreases wu - j,
            {
                proof {
                    assert(j + 8 <= wu) by (nonlinear_arith)
                        requires
                            j < wu,
                            j % 8 == 0,
                            wu % 8 == 0,
                            0 <= j,
                            0 <= wu,
                    ;
                    assert((y0 + i) * wd + (x0 + j) + 8 <= (y0 + i + 1) * wd) by (nonlinear_arith)
                        requires
                            x0 + j + 8 <= wd,
                            0 <= y0 + i,
                    ;
                    assert((y0 + i + 1) * wd <= self.height * wd) by (nonlinear_arith)
                        requires
                            y0 + i + 1 <= self.height,
                            0 < wd,
                    ;
                    assert(self.height * wd == self.height * self.width);
                }
                let off = row * width + (x0 + j);
                store8(&mut self.vga.card.fb, off, c64);
                proof {
                    let xi = x as int;
                    let yi = y as int;
                    let offi = off as int;
                    assert forall|o: int| offi <= o < offi + 8 implies #[trigger] (o / wd) == y0
                        + i && xi <= o % wd < x0 + j + 8 by {
                        lemma_fundamental_div_mod_converse(o, wd, y0 + i, o - (y0 + i) * wd);
                    }
                    assert forall|o: int|
                        0 <= o < len && o / wd == y0 + i && xi <= o % wd < x0 + j
                            + 8 implies self.fb()[o] == map_color_spec(color) by {
                        lemma_fundamental_div_mod(o, wd);
                        if o % wd < x0 + j {
                            assert(o < offi);
                        } else {
                            assert(offi <= o < offi + 8);
                            let d = o - offi;
                            assert(o == offi + d && 0 <= d < 8);
                        }
                    }
                    assert forall|o: int|
                        0 <= o < len && !in_block(wd, xi, yi, w as int, h as int, o) implies
                        self.fb()[o] == fb0[o] by {
                        if offi <= o < offi + 8 {
                            assert(in_block(wd, xi, yi, w as int, h as int, o));
                        }
                    }
                    assert forall|o: int|
                        0 <= o < len && in_block(wd, xi, yi, w as int, i as int, o) implies
                        self.fb()[o] == map_color_spec(color) by {
                        if offi <= o < offi + 8 {
                        }
                    }
                }
                j = j + 8;
            }
            proof {
                let xi = x as int;
                let yi = y as int;
                assert forall|o: int|
                    0 <= o < len && in_block(wd, xi, yi, w as int, (i + 1) as int, o) implies
                    self.fb()[o] == map_color_spec(color) by {
                    if o / wd == y0 + i {
                    }
                }
            }
            i = i + 1;
        }
        Some(())
    }

    /// Paint a rectangle with a true color through the fast block
    /// fill, silently dropping a block the fill does not accept.
    pub fn rectangle(&mut self, x: i32, y: i32, width: u32, height: u32, color: Rgb)
        requires
            old(self).wf(),
        ensures
            final(self).wf(),
            *final(self) == (ModeXDisplay { vga: final(self).vga, ..*old(self) }),
            final(self).vga == (VGA { card: final(self).vga.card, ..old(self).vga }),
            final(self).vga.card == (VgaCard { fb: final(self).vga.card.fb, ..old(self).vga.card }),
            final(self).fb().len() == old(self).fb().len(),
            region_ok(*old(self), x as int, y as int, width as int, height as int)
                ==> (forall|o: int|
                0 <= o < final(self).fb().len() && in_block(
                    old(self).width as int,
                    x as int,
                    y as int,
                    width as int,
                    height as int,
                    o,
                ) ==> final(self).fb()[o] == map_color_spec(color)),
            region_ok(*old(self), x as int, y as int, width as int, height as int)
                ==> (forall|o: int|
                0 <= o < final(self).fb().len() && !in_block(
                    old(self).width as int,
                    x as int,
                    y as int,
                    width as int,
                    height as int,
                    o,
                ) ==> final(self).fb()[o] == old(self).fb()[o]),
            !region_ok(*old(self), x as int, y as int, width as int, height as int)
                ==> final(self).fb() == old(self).fb(),
    {
        let _ = self.set_region(x, y, width, height, color);
    }

    /// Clear the visible surface to black (palette index 16, the
    /// cube's origin).
    pub fn clear(&mut self)
        requires
            old(self).wf(),
        ensures
            final(self).wf(),
            *final(self) == (ModeXDisplay { vga: final(self).vga, ..*old(self) }),
            final(self).vga == (VGA { card: final(self).vga.card, ..old(self).vga }),
            final(self).vga.card == (VgaCard { fb: final(self).vga.card.fb, ..old(self).vga.card }),
            final(self).fb().len() == old(self).fb().len(),
            forall|o: int|
                0 <= o < old(self).width * old(self).height ==> final(self).fb()[o] == 16,
            forall|o: int|
                old(self).width * old(self).height <= o < old(self).fb().len()
                    ==> final(self).fb()[o] == old(self).fb()[o],
    {
        let _fb_len = self.vga.card.fb.len();
        let n = self.width as usize * self.height as usize;
        let ghost fb0 = self.fb();
        let mut o: usize = 0;
        while o < n
            invariant
                self.wf(),
                *self == (ModeXDisplay { vga: self.vga, ..*old(self) }),
                self.vga == (VGA { card: self.vga.card, ..old(self).vga }),
                self.vga.card == (VgaCard { fb: self.vga.card.fb, ..old(self).vga.card }),
                o <= n,
                n == old(self).width * old(self).height,
                n <= self.fb().len(),
                fb0 == old(self).fb(),
                self.fb().len() == fb0.len(),
                forall|k: int| 0 <= k < o ==> self.fb()[k] == 16,
                forall|k: int| o <= k < fb0.len() ==> self.fb()[k] == fb0[k],
            decreases n - o,
        {
            self.vga.card.fb.set(o, 16);
            o = o + 1;
        }
    }

    /// Re-program the device to a new resolution and adopt it as the
    /// surface's dimensions.
    pub fn resize(&mut self, width: u32, height: u32)
        requires
            old(self).wf(),
            width % 8 == 0,
            8 <= width <= 0xFFFF,
            1 <= height <= 0xFFFF,
            width * height <= old(self).fb().len(),
        ensures
            final(self).wf(),
            final(self).width == width,
            final(self).height == height,
            final(self).last_x == old(self).last_x,
            final(self).last_y == old(self).last_y,
            final(self).last_length == old(self).last_length,
            final(self).fb() == old(self).fb(),
            final(self).vga.card.dac@ == old(self).vga.card.dac@,
            final(self).vga.pci == old(self).vga.pci,
            final(self).vga.card.bochs@[1] == width as u16,
            final(self).vga.card.bochs@[2] == height as u16,
            final(self).vga.card.bochs@[3] == 8,
            final(self).vga.card.bochs@[4] == 0xC1,
    {
        self.vga.set_resolution(width, height);
        self.width = width;
        self.height = height;
        proof {
            assert((0x01u16 | 0x80 | 0x40) == 0xC1) by (bit_vector);
        }
    }

    /// Record where a run of text was just drawn, so that later calls
    /// can chain after it; glyphs are 6 pixels wide.
    pub fn record_print(&mut self, x: i32, y: i32, text_len: usize)
        requires
            old(self).wf(),
            0 <= x <= 0xFFFF,
            0 <= y <= 0xFFFF,
            text_len <= 0x10000,
        ensures
            final(self).wf(),
            *final(self) == (ModeXDisplay {
                last_x: x,
                last_y: y,
                last_length: (6 * text_len) as i32,
                ..*old(self)
            }),
    {
        self.last_x = x;
        self.last_y = y;
        self.last_length = 6 * (text_len as i32);
    }

    /// Where text chained after the last run starts.
    pub fn next_print_origin(&self) -> (r: (i32, i32))
        requires
            self.wf(),
        ensures
            r.0 == self.last_x + self.last_length,
            r.1 == self.last_y,
    {
        (self.last_x + self.last_length, self.last_y)
    }

    /// Where the next line of text starts: at the left edge, one
    /// 10-pixel line below the last run.
    pub fn next_line_origin(&self) -> (r: (i32, i32))
        requires
            self.wf(),
        ensures
            r.0 == 0,
            r.1 == self.last_y + 10,
    {
        (0, self.last_y + 10)
    }

    /// Fold a text origin into the surface, coordinate by coordinate.
    pub fn wrap_coords(&self, x: i32, y: i32) -> (r: (i32, i32))
        requires
            self.wf(),
            x >= 0,
            y >= 0,
        ensures
            r.0 == x as int % self.width as int,
            r.1 == y as int % self.height as int,
            0 <= r.0 < self.width,
            0 <= r.1 < self.height,
    {
        (((x as u32) % self.width) as i32, ((y as u32) % self.height) as i32)
    }
}

} // verus!
