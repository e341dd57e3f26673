//! Aura: the framebuffer display. Drawing happens in a word-per-pixel copy of
//! the linear framebuffer; the caller copies it to video memory.
pub mod ambient_ui;
pub mod aura;
pub mod engine;

use vstd::prelude::*;

verus! {

/// Framebuffer geometry/location.
#[derive(Debug, Clone, Copy, PartialEq, Eq, Structural)]
pub struct Framebuffer {
    /// Physical/mapped address of the linear framebuffer.
    pub address: u64,
    /// Bytes per scanline.
    pub pitch: u64,
    /// Width in pixels.
    pub width: u64,
    /// Height in pixels.
    pub height: u64,
    /// Bits per pixel (expected 32).
    pub bpp: u8,
}

/// Words (32-bit pixels) per scanline.
pub open spec fn row_words(fb: Framebuffer) -> int {
    fb.pitch as int / 4
}

/// Words in the whole framebuffer.
pub open spec fn total_words(fb: Framebuffer) -> int {
    (fb.pitch * fb.height) as int / 4
}

/// Column of the pixel stored in word `k`.
pub open spec fn col_of(fb: Framebuffer, k: int) -> int {
    k % row_words(fb)
}

/// Row of the pixel stored in word `k`.
pub open spec fn row_of(fb: Framebuffer, k: int) -> int {
    k / row_words(fb)
}

/// Word `k` holds a pixel on the visible screen.
pub open spec fn on_screen(fb: Framebuffer, k: int) -> bool {
    row_words(fb) > 0 && col_of(fb, k) < fb.width && row_of(fb, k) < fb.height
}

/// A geometry the display can draw into: whole rows of pixels fit in a
/// scanline and the buffer size fits in memory.
pub open spec fn geometry_ok(fb: Framebuffer) -> bool {
    &&& fb.width * 4 <= fb.pitch
    &&& fb.pitch * fb.height <= u64::MAX
    &&& (fb.pitch * fb.height) / 4 <= usize::MAX
    &&& fb.width < 0x8000_0000_0000_0000
    &&& fb.height < 0x8000_0000_0000_0000
}

/// The packed 0xAARRGGBB value of a color.
pub open spec fn pack_spec(c: Color) -> u32 {
    ((c.a as u32) * 0x100_0000 + (c.r as u32) * 0x1_0000 + (c.g as u32) * 0x100 + (c.b as u32)) as u32
}

/// Deep charcoal black (#0A0C10).
pub open spec fn black_spec() -> Color {
    Color { r: 10, g: 12, b: 16, a: 255 }
}

/// Muted cyan (#00BCD4).
pub open spec fn cyan_spec() -> Color {
    Color { r: 0, g: 188, b: 212, a: 255 }
}

/// A simple RGBA color.
#[derive(Debug, Clone, Copy, PartialEq, Eq, Structural)]
pub struct Color {
    /// Red component.
    pub r: u8,
    /// Green component.
    pub g: u8,
    /// Blue component.
    pub b: u8,
    /// Alpha component.
    pub a: u8,
}

impl Color {
    /// Deep charcoal black (#0A0C10).
    pub fn black() -> (c: Self)
        ensures
            c == (Color { r: 10, g: 12, b: 16, a: 255 }),
    {
        Self { r: 10, g: 12, b: 16, a: 255 }
    }

    /// Pure white.
    pub fn white() -> (c: Self)
        ensures
            c == (Color { r: 255, g: 255, b: 255, a: 255 }),
    {
        Self { r: 255, g: 255, b: 255, a: 255 }
    }

    /// Muted cyan accent.
    pub fn cyan() -> (c: Self)
        ensures
            c == (Color { r: 0, g: 188, b: 212, a: 255 }),
    {
        Self { r: 0, g: 188, b: 212, a: 255 }
    }

    /// Pack color into a `u32` for the framebuffer: alpha, red, green, blue from
    /// the high byte down.
    pub fn pack(self) -> (p: u32)
        ensures
            p == pack_spec(self),
    {
        let (a, r, g, b) = (self.a as u32, self.r as u32, self.g as u32, self.b as u32);
        assert((a << 24u32) | (r << 16u32) | (g << 8u32) | b == a * 0x100_0000 + r * 0x1_0000 + g
            * 0x100 + b) by (bit_vector)
            requires
                a < 256,
                r < 256,
                g < 256,
                b < 256,
        ;
        (a << 24u32) | (r << 16u32) | (g << 8u32) | b
    }
}

/// Packing loses nothing: each component can be read back from the packed word.
pub proof fn lemma_pack_components(c: Color)
    ensures
        pack_spec(c) / 0x100_0000 == c.a,
        (pack_spec(c) / 0x1_0000) % 256 == c.r,
        (pack_spec(c) / 0x100) % 256 == c.g,
        pack_spec(c) % 256 == c.b,
{
    let (a, r, g, b) = (c.a as int, c.r as int, c.g as int, c.b as int);
    let p = pack_spec(c) as int;
    assert(p == a * 0x100_0000 + r * 0x1_0000 + g * 0x100 + b);
    assert(p / 0x100_0000 == a) by (nonlinear_arith)
        requires
            p == a * 0x100_0000 + r * 0x1_0000 + g * 0x100 + b,
            0 <= r < 256,
            0 <= g < 256,
            0 <= b < 256,
    ;
    assert((p / 0x1_0000) % 256 == r) by (nonlinear_arith)
        requires
            p == a * 0x100_0000 + r * 0x1_0000 + g * 0x100 + b,
            0 <= a < 256,
            0 <= r < 256,
            0 <= g < 256,
            0 <= b < 256,
    ;
    assert((p / 0x100) % 256 == g) by (nonlinear_arith)
        requires
            p == a * 0x100_0000 + r * 0x1_0000 + g * 0x100 + b,
            0 <= a < 256,
            0 <= r < 256,
            0 <= g < 256,
            0 <= b < 256,
    ;
    assert(p % 256 == b) by (nonlinear_arith)
        requires
            p == a * 0x100_0000 + r * 0x1_0000 + g * 0x100 + b,
            0 <= b < 256,
    ;
}

/// Word `y * row + x` holds the pixel at column `x`, row `y`.
proof fn lemma_decode(fb: Framebuffer, x: int, y: int)
    requires
        row_words(fb) > 0,
        0 <= x < row_words(fb),
        0 <= y,
    ensures
        col_of(fb, y * row_words(fb) + x) == x,
        row_of(fb, y * row_words(fb) + x) == y,
{
    vstd::arithmetic::div_mod::lemma_fundamental_div_mod_converse(
        y * row_words(fb) + x,
        row_words(fb),
        y,
        x,
    );
}

/// Every on-screen word lies inside the buffer, and the word of an on-screen
/// pixel is `y * row + x`.
proof fn lemma_index_in_buffer(fb: Framebuffer, x: int, y: int)
    requires
        geometry_ok(fb),
        0 <= x < fb.width,
        0 <= y < fb.height,
    ensures
        row_words(fb) > 0,
        y * row_words(fb) + x < total_words(fb),
        y * row_words(fb) + x <= u64::MAX,
{
    let rw = row_words(fb);
    let p = fb.pitch as int;
    let h = fb.height as int;
    assert(rw * 4 <= p) by (nonlinear_arith)
        requires
            rw == p / 4,
            p >= 0,
    ;
    assert(y * rw + x < (y + 1) * rw) by (nonlinear_arith)
        requires
            x < rw,
    ;
    assert((y + 1) * rw <= h * rw) by (nonlinear_arith)
        requires
            y + 1 <= h,
            rw >= 0,
    ;
    assert(h * rw <= (p * h) / 4) by (nonlinear_arith)
        requires
            rw * 4 <= p,
            h >= 0,
            rw >= 0,
    ;
}

/// The buffer after painting `color` on every on-screen pixel satisfying `inside`.
pub open spec fn painted(
    fb: Framebuffer,
    old_px: Seq<u32>,
    new_px: Seq<u32>,
    color: u32,
    inside: spec_fn(int, int) -> bool,
) -> bool {
    &&& new_px.len() == old_px.len()
    &&& forall|k: int|
        0 <= k < new_px.len() ==> #[trigger] new_px[k] == if on_screen(fb, k) && inside(
            col_of(fb, k),
            row_of(fb, k),
        ) {
            color
        } else {
            old_px[k]
        }
}

/// Handle for the Aura display system.
pub struct AuraDisplay {
    framebuffer: Framebuffer,
    overlay_active: bool,
    pixels: Vec<u32>,
}

impl AuraDisplay {
    /// The framebuffer geometry.
    pub closed spec fn fb(&self) -> Framebuffer {
        self.framebuffer
    }

    /// Whether the ghost overlay is shown.
    pub closed spec fn overlay(&self) -> bool {
        self.overlay_active
    }

    /// The framebuffer contents, one word per pixel, row by row.
    pub closed spec fn pixels(&self) -> Seq<u32> {
        self.pixels@
    }

    /// The buffer matches the geometry.
    pub open spec fn wf(&self) -> bool {
        &&& geometry_ok(self.fb())
        &&& self.pixels().len() == total_words(self.fb())
    }

    /// Create a new Aura display instance (overlay off, buffer zeroed).
    pub fn new(fb: Framebuffer) -> (d: Self)
        requires
            geometry_ok(fb),
        ensures
            d.wf(),
            d.fb() == fb,
            !d.overlay(),
            forall|k: int| 0 <= k < d.pixels().len() ==> #[trigger] d.pixels()[k] == 0,
    {
        let n = ((fb.pitch * fb.height) / 4) as usize;
        let mut pixels: Vec<u32> = Vec::with_capacity(n);
        let mut i: usize = 0;
        while i < n
            invariant
                i <= n,
                pixels@.len() == i,
                forall|k: int| 0 <= k < i ==> #[trigger] pixels@[k] == 0,
            decreases n - i,
        {
            pixels.push(0);
            i += 1;
        }
        Self { framebuffer: fb, overlay_active: false, pixels }
    }

    /// The framebuffer geometry.
    pub fn framebuffer(&self) -> (fb: Framebuffer)
        ensures
            fb == self.fb(),
    {
        self.framebuffer
    }

    /// The framebuffer contents, one word per pixel, row by row.
    pub fn pixel_words(&self) -> (p: &[u32])
        ensures
            p@ == self.pixels(),
    {
        self.pixels.as_slice()
    }

    /// Clear the screen with a specific color: every word of the buffer.
    pub fn clear(&mut self, color: Color)
        requires
            old(self).wf(),
        ensures
            final(self).wf(),
            final(self).fb() == old(self).fb(),
            final(self).overlay() == old(self).overlay(),
            final(self).pixels().len() == old(self).pixels().len(),
            forall|k: int|
                0 <= k < final(self).pixels().len() ==> #[trigger] final(self).pixels()[k]
                    == pack_spec(color),
    {
        let raw = color.pack();
        let n = self.pixels.len();
        let mut i: usize = 0;
        while i < n
            invariant
                n == self.pixels@.len(),
                self.framebuffer == old(self).framebuffer,
                self.overlay_active == old(self).overlay_active,
                i <= n,
                forall|k: int| 0 <= k < i ==> #[trigger] self.pixels@[k] == raw,
            decreases n - i,
        {
            self.pixels.set(i, raw);
            i += 1;
        }
    }

    /// Draw a filled rectangle: columns `x..x + width`, rows `y..y + height`,
    /// which must lie within the buffer's scanlines.
    pub fn draw_rect(&mut self, x: u64, y: u64, width: u64, height: u64, color: Color)
        requires
            old(self).wf(),
            x + width <= row_words(old(self).fb()),
            y + height <= old(self).fb().height,
        ensures
            final(self).wf(),
            final(self).fb() == old(self).fb(),
            final(self).overlay() == old(self).overlay(),
            final(self).pixels().len() == old(self).pixels().len(),
            forall|k: int|
                0 <= k < final(self).pixels().len() ==> #[trigger] final(self).pixels()[k] == if x
                    <= col_of(old(self).fb(), k) < x + width && y <= row_of(old(self).fb(), k) < y
                    + height {
                    pack_spec(color)
                } else {
                    old(self).pixels()[k]
                },
    {
        let ghost fb = self.framebuffer;
        let rw = self.framebuffer.pitch / 4;
        let raw = color.pack();
        let mut cy = y;
        while cy < y + height
            invariant
                self.framebuffer == fb,
                self.overlay_active == old(self).overlay_active,
                old(self).wf(),
                fb == old(self).fb(),
                rw == row_words(fb),
                x + width <= rw,
                y + height <= fb.height,
                y <= cy <= y + height,
                self.pixels@.len() == old(self).pixels@.len(),
                forall|k: int|
                    0 <= k < self.pixels@.len() ==> #[trigger] self.pixels@[k] == if x <= col_of(
                        fb,
                        k,
                    ) < x + width && y <= row_of(fb, k) < cy {
                        raw
                    } else {
                        old(self).pixels@[k]
                    },
            decreases y + height - cy,
        {
            let mut cx = x;
            while cx < x + width
                invariant
                    self.framebuffer == fb,
                    self.overlay_active == old(self).overlay_active,
                    old(self).wf(),
                    fb == old(self).fb(),
                    rw == row_words(fb),
                    x + width <= rw,
                    y + height <= fb.height,
                    y <= cy < y + height,
                    x <= cx <= x + width,
                    self.pixels@.len() == old(self).pixels@.len(),
                    forall|k: int|
                        0 <= k < self.pixels@.len() ==> #[trigger] self.pixels@[k] == if (x
                            <= col_of(fb, k) < x + width && y <= row_of(fb, k) < cy) || (x
                            <= col_of(fb, k) < cx && row_of(fb, k) == cy) {
                            raw
                        } else {
                            old(self).pixels@[k]
                        },
                decreases x + width - cx,
            {
                proof {
                    lemma_rect_index(fb, cx as int, cy as int);
                    lemma_decode(fb, cx as int, cy as int);
                }
                let idx = cy * rw + cx;
                let ghost before = self.pixels@;
                self.pixels.set(idx as usize, raw);
                proof {
                    assert forall|k: int| 0 <= k < self.pixels@.len() && k != idx implies (col_of(
                        fb,
                        k,
                    ) != cx || row_of(fb, k) != cy) by {
                        if col_of(fb, k) == cx && row_of(fb, k) == cy {
                            vstd::arithmetic::div_mod::lemma_fundamental_div_mod(k, rw as int);
                            assert(k == rw * cy + cx);
                            assert(rw * cy == cy * rw) by (nonlinear_arith);
                        }
                    }
                }
                cx = cx + 1;
            }
            cy = cy + 1;
        }
    }

    /// Write a single pixel; coordinates off the screen are ignored.
    pub fn put_pixel(&mut self, x: u64, y: u64, color: Color)
        requires
            old(self).wf(),
        ensures
            final(self).wf(),
            final(self).fb() == old(self).fb(),
            final(self).overlay() == old(self).overlay(),
            x < old(self).fb().width && y < old(self).fb().height ==> final(self).pixels()
                == old(self).pixels().update(y * row_words(old(self).fb()) + x, pack_spec(color)),
            !(x < old(self).fb().width && y < old(self).fb().height) ==> final(self).pixels()
                == old(self).pixels(),
    {
        if x >= self.framebuffer.width || y >= self.framebuffer.height {
            return;
        }
        proof {
            lemma_index_in_buffer(self.framebuffer, x as int, y as int);
        }
        let rw = self.framebuffer.pitch / 4;
        let raw = color.pack();
        self.pixels.set((y * rw + x) as usize, raw);
    }
    /// Plot one pixel of drawn text or shapes: points with a negative
    /// coordinate are dropped, the others are written opaque.
    pub fn plot(&mut self, x: i32, y: i32, r: u8, g: u8, b: u8)
        requires
            old(self).wf(),
        ensures
            final(self).wf(),
            final(self).fb() == old(self).fb(),
            final(self).overlay() == old(self).overlay(),
            (x >= 0 && y >= 0 && x < old(self).fb().width && y < old(self).fb().height)
                ==> final(self).pixels() == old(self).pixels().update(
                y * row_words(old(self).fb()) + x,
                pack_spec(Color { r, g, b, a: 255 }),
            ),
            !(x >= 0 && y >= 0 && x < old(self).fb().width && y < old(self).fb().height)
                ==> final(self).pixels() == old(self).pixels(),
    {
        if x < 0 || y < 0 {
            return;
        }
        self.put_pixel(x as u64, y as u64, Color { r, g, b, a: 255 });
    }

    /// Fill the horizontal span of pixels from `x0` to `x1` inclusive on row
    /// `y`; parts off the screen (negative coordinates among them) are skipped.
    pub fn fill_span(&mut self, x0: i64, x1: i64, y: i64, color: Color)
        requires
            old(self).wf(),
            x1 < i64::MAX,
        ensures
            final(self).wf(),
            final(self).fb() == old(self).fb(),
            final(self).overlay() == old(self).overlay(),
            painted(
                old(self).fb(),
                old(self).pixels(),
                final(self).pixels(),
                pack_spec(color),
                |px: int, py: int| py == y && x0 <= px <= x1,
            ),
    {
        let ghost fb = self.framebuffer;
        if y < 0 {
            proof {
                assert forall|k: int| 0 <= k < self.pixels@.len() implies #[trigger] self.pixels@[k]
                    == if on_screen(fb, k) && (|px: int, py: int| py == y && x0 <= px <= x1)(
                    col_of(fb, k),
                    row_of(fb, k),
                ) {
                    pack_spec(color)
                } else {
                    old(self).pixels@[k]
                } by {
                    if on_screen(fb, k) {
                        assert(row_of(fb, k) >= 0) by {
                            vstd::arithmetic::div_mod::lemma_div_pos_is_pos(k, row_words(fb));
                        }
                    }
                }
            }
            return;
        }
        let start: i64 = if x0 > 0 {
            x0
        } else {
            0
        };
        let mut x: i64 = start;
        while x <= x1
            invariant
                old(self).wf(),
                self.wf(),
                fb == old(self).fb(),
                self.framebuffer == fb,
                self.overlay_active == old(self).overlay_active,
                0 <= y,
                x1 < i64::MAX,
                start == if x0 > 0 { x0 } else { 0 },
                start <= x <= if x1 + 1 > start { x1 + 1 } else { start as int },
                painted(
                    fb,
                    old(self).pixels(),
                    self.pixels@,
                    pack_spec(color),
                    |px: int, py: int| py == y && start <= px < x,
                ),
            decreases x1 + 1 - x,
        {
            let ghost before = self.pixels@;
            self.put_pixel(x as u64, y as u64, color);
            proof {
                assert forall|k: int| 0 <= k < self.pixels@.len() implies #[trigger] self.pixels@[k]
                    == if on_screen(fb, k) && (|px: int, py: int| py == y && start <= px < x + 1)(
                    col_of(fb, k),
                    row_of(fb, k),
                ) {
                    pack_spec(color)
                } else {
                    old(self).pixels@[k]
                } by {
                    assert(before[k] == if on_screen(fb, k) && (|px: int, py: int|
                        py == y && start <= px < x)(col_of(fb, k), row_of(fb, k)) {
                        pack_spec(color)
                    } else {
                        old(self).pixels@[k]
                    });
                    if (x as u64) < fb.width && (y as u64) < fb.height {
                        lemma_index_in_buffer(fb, x as int, y as int);
                        lemma_decode(fb, x as int, y as int);
                        if col_of(fb, k) == x && row_of(fb, k) == y {
                            vstd::arithmetic::div_mod::lemma_fundamental_div_mod(
                                k,
                                row_words(fb),
                            );
                            assert(k == y * row_words(fb) + x) by (nonlinear_arith)
                                requires
                                    k == row_words(fb) * row_of(fb, k) + col_of(fb, k),
                                    col_of(fb, k) == x,
                                    row_of(fb, k) == y,
                            ;
                        }
                    }
                }
            }
            x = x + 1;
        }
        proof {
            assert forall|k: int| 0 <= k < self.pixels@.len() implies #[trigger] self.pixels@[k]
                == if on_screen(fb, k) && (|px: int, py: int| py == y && x0 <= px <= x1)(
                col_of(fb, k),
                row_of(fb, k),
            ) {
                pack_spec(color)
            } else {
                old(self).pixels@[k]
            } by {
                if on_screen(fb, k) {
                    assert(col_of(fb, k) >= 0) by {
                        vstd::arithmetic::div_mod::lemma_mod_pos_bound(k, row_words(fb));
                    }
                }
            }
        }
    }

    /// Fill a circle of `radius` around (`cx`, `cy`) with the integer
    /// midpoint algorithm, drawing four symmetric horizontal spans per step.
    pub fn fill_circle(&mut self, cx: u64, cy: u64, radius: u64, color: Color)
        requires
            old(self).wf(),
            radius <= MAX_RADIUS,
            cx + radius < i64::MAX,
            cy + radius < i64::MAX,
        ensures
            final(self).wf(),
            final(self).fb() == old(self).fb(),
            final(self).overlay() == old(self).overlay(),
            painted(
                old(self).fb(),
                old(self).pixels(),
                final(self).pixels(),
                pack_spec(color),
                |px: int, py: int| circle_covers(radius as int, cx as int, cy as int, px, py),
            ),
    {
        let ghost fb = self.framebuffer;
        let ghost r = radius as int;
        let ghost cxi = cx as int;
        let ghost cyi = cy as int;
        let cx = cx as i64;
        let cy = cy as i64;
        let mut x = radius as i64;
        let mut y: i64 = 0;
        let mut err: i64 = 0;
        let ghost mut n: nat = 0;
        while x >= y
            invariant
                old(self).wf(),
                self.wf(),
                fb == old(self).fb(),
                self.framebuffer == fb,
                self.overlay_active == old(self).overlay_active,
                r == radius,
                0 <= r <= MAX_RADIUS,
                cxi == cx,
                cyi == cy,
                cxi + r < i64::MAX,
                cyi + r < i64::MAX,
                0 <= cxi,
                0 <= cyi,
                (x as int, y as int, err as int) == circle_state(r, n),
                circle_runs(r, n),
                -1 <= x <= r,
                0 <= y <= r + 1,
                painted(
                    fb,
                    old(self).pixels(),
                    self.pixels@,
                    pack_spec(color),
                    |px: int, py: int| covered_so_far(r, cxi, cyi, n, px, py),
                ),
            decreases x - y + 2,
        {
            proof {
                lemma_circle_bounds(r, n);
            }
            let ghost s0 = self.pixels@;
            self.fill_span(cx - x, cx + x, cy + y, color);
            let ghost s1 = self.pixels@;
            self.fill_span(cx - x, cx + x, cy - y, color);
            let ghost s2 = self.pixels@;
            self.fill_span(cx - y, cx + y, cy + x, color);
            let ghost s3 = self.pixels@;
            self.fill_span(cx - y, cx + y, cy - x, color);
            proof {
                let c = pack_spec(color);
                let xi = x as int;
                let yi = y as int;
                assert forall|k: int| 0 <= k < self.pixels@.len() implies #[trigger] self.pixels@[k]
                    == if on_screen(fb, k) && (|px: int, py: int|
                    covered_so_far(r, cxi, cyi, n + 1, px, py))(col_of(fb, k), row_of(fb, k)) {
                    c
                } else {
                    old(self).pixels@[k]
                } by {
                    let px = col_of(fb, k);
                    let py = row_of(fb, k);
                    assert(s1[k] == if on_screen(fb, k) && (|px: int, py: int|
                        py == cyi + yi && cxi - xi <= px <= cxi + xi)(px, py) {
                        c
                    } else {
                        s0[k]
                    });
                    assert(s2[k] == if on_screen(fb, k) && (|px: int, py: int|
                        py == cyi - yi && cxi - xi <= px <= cxi + xi)(px, py) {
                        c
                    } else {
                        s1[k]
                    });
                    assert(s3[k] == if on_screen(fb, k) && (|px: int, py: int|
                        py == cyi + xi && cxi - yi <= px <= cxi + yi)(px, py) {
                        c
                    } else {
                        s2[k]
                    });
                    assert(self.pixels@[k] == if on_screen(fb, k) && (|px: int, py: int|
                        py == cyi - xi && cxi - yi <= px <= cxi + yi)(px, py) {
                        c
                    } else {
                        s3[k]
                    });
                    assert(s0[k] == if on_screen(fb, k) && (|px: int, py: int|
                        covered_so_far(r, cxi, cyi, n, px, py))(px, py) {
                        c
                    } else {
                        old(self).pixels@[k]
                    });
                    lemma_covered_step(r, cxi, cyi, n, px, py);
                }
            }
            y = y + 1;
            err = err + 1 + 2 * y;
            if 2 * (err - x) + 1 > 0 {
                x = x - 1;
                err = err + 1 - 2 * x;
            }
            proof {
                lemma_runs_extend(r, n);
                n = n + 1;
                lemma_circle_bounds_after(r, n);
            }
        }
        proof {
            assert forall|k: int| 0 <= k < self.pixels@.len() implies #[trigger] self.pixels@[k]
                == if on_screen(fb, k) && (|px: int, py: int|
                circle_covers(radius as int, cxi, cyi, px, py))(col_of(fb, k), row_of(fb, k)) {
                pack_spec(color)
            } else {
                old(self).pixels@[k]
            } by {
                lemma_covered_final(r, cxi, cyi, n, col_of(fb, k), row_of(fb, k));
            }
        }
    }

    /// Toggles the "Ghost" overlay: a 5-pixel border across the top, cyan when
    /// shown and black when removed.
    pub fn toggle_overlay(&mut self)
        requires
            old(self).wf(),
            old(self).fb().height >= 5,
        ensures
            final(self).wf(),
            final(self).fb() == old(self).fb(),
            final(self).overlay() == !old(self).overlay(),
            forall|k: int|
                0 <= k < final(self).pixels().len() ==> #[trigger] final(self).pixels()[k] == if 0 <= col_of(
                    old(self).fb(),
                    k,
                ) < old(self).fb().width && 0 <= row_of(old(self).fb(), k) < 5 {
                    pack_spec(if final(self).overlay() { cyan_spec() } else { black_spec() })
                } else {
                    old(self).pixels()[k]
                },
    {
        proof {
            assert(self.framebuffer.width <= row_words(self.framebuffer)) by (nonlinear_arith)
                requires
                    self.framebuffer.width * 4 <= self.framebuffer.pitch,
            ;
        }
        self.overlay_active = !self.overlay_active;
        let w = self.framebuffer.width;
        if self.overlay_active {
            self.draw_rect(0, 0, w, 5, Color::cyan());
        } else {
            self.draw_rect(0, 0, w, 5, Color::black());
        }
    }
}

/// The largest radius `fill_circle` accepts, keeping its error term well inside `i64`.
pub const MAX_RADIUS: u64 = 0x4000_0000;

/// The (x, y, error) state of the midpoint circle algorithm for radius `r`
/// after `n` steps: y advances by one per step, and x steps inward whenever
/// the error term says the point has left the circle.
pub open spec fn circle_state(r: int, n: nat) -> (int, int, int)
    decreases n,
{
    if n == 0 {
        (r, 0, 0)
    } else {
        let (x, y, err) = circle_state(r, (n - 1) as nat);
        let y2 = y + 1;
        let e2 = err + 1 + 2 * y2;
        if 2 * (e2 - x) + 1 > 0 {
            (x - 1, y2, e2 + 1 - 2 * (x - 1))
        } else {
            (x, y2, e2)
        }
    }
}

/// The algorithm performs its first `n` steps: x had not fallen below y at any of them.
pub open spec fn circle_runs(r: int, n: nat) -> bool {
    forall|m: nat| m < n ==> #[trigger] circle_state(r, m).0 >= circle_state(r, m).1
}

/// The four spans drawn at a step cover pixel (`px`, `py`).
pub open spec fn step_covers(cx: int, cy: int, s: (int, int, int), px: int, py: int) -> bool {
    let (x, y, e) = s;
    ||| (py == cy + y || py == cy - y) && cx - x <= px <= cx + x
    ||| (py == cy + x || py == cy - x) && cx - y <= px <= cx + y
}

/// Pixel (`px`, `py`) lies in the filled midpoint circle of radius `r` around (`cx`, `cy`).
pub open spec fn circle_covers(r: int, cx: int, cy: int, px: int, py: int) -> bool {
    exists|m: nat| circle_runs(r, m + 1) && #[trigger] step_covers(cx, cy, circle_state(r, m), px, py)
}

/// Pixel (`px`, `py`) is covered by one of the first `n` steps.
pub open spec fn covered_so_far(r: int, cx: int, cy: int, n: nat, px: int, py: int) -> bool {
    exists|m: nat| m < n && #[trigger] step_covers(cx, cy, circle_state(r, m), px, py)
}

proof fn lemma_covered_step(r: int, cx: int, cy: int, n: nat, px: int, py: int)
    ensures
        covered_so_far(r, cx, cy, n + 1, px, py) == (covered_so_far(r, cx, cy, n, px, py)
            || step_covers(cx, cy, circle_state(r, n), px, py)),
{
    if covered_so_far(r, cx, cy, n + 1, px, py) {
        let m = choose|m: nat| m < n + 1 && #[trigger] step_covers(cx, cy, circle_state(r, m), px, py);
        if m < n {
            assert(covered_so_far(r, cx, cy, n, px, py));
        }
    }
    if covered_so_far(r, cx, cy, n, px, py) {
        let m = choose|m: nat| m < n && #[trigger] step_covers(cx, cy, circle_state(r, m), px, py);
        assert(m < n + 1);
    }
    if step_covers(cx, cy, circle_state(r, n), px, py) {
        assert(n < n + 1);
    }
}

proof fn lemma_runs_extend(r: int, n: nat)
    requires
        circle_runs(r, n),
        circle_state(r, n).0 >= circle_state(r, n).1,
    ensures
        circle_runs(r, n + 1),
{
    assert forall|m: nat| m < n + 1 implies #[trigger] circle_state(r, m).0 >= circle_state(r, m).1 by {
        if m < n {
            assert(circle_runs(r, n));
        }
    }
}

proof fn lemma_covered_final(r: int, cx: int, cy: int, n: nat, px: int, py: int)
    requires
        circle_runs(r, n),
        circle_state(r, n).0 < circle_state(r, n).1,
    ensures
        covered_so_far(r, cx, cy, n, px, py) == circle_covers(r, cx, cy, px, py),
{
    if circle_covers(r, cx, cy, px, py) {
        let m = choose|m: nat| circle_runs(r, m + 1) && #[trigger] step_covers(cx, cy, circle_state(r, m), px, py);
        if m >= n {
            assert(circle_state(r, n).0 >= circle_state(r, n).1);
        }
        assert(covered_so_far(r, cx, cy, n, px, py));
    }
    if covered_so_far(r, cx, cy, n, px, py) {
        let m = choose|m: nat| m < n && #[trigger] step_covers(cx, cy, circle_state(r, m), px, py);
        assert(circle_runs(r, m + 1)) by {
            assert forall|j: nat| j < m + 1 implies #[trigger] circle_state(r, j).0 >= circle_state(r, j).1 by {
                assert(j < n);
            }
        }
        assert(circle_covers(r, cx, cy, px, py));
    }
}

/// The error term of the midpoint algorithm tracks the squares exactly, and y counts the steps.
proof fn lemma_circle_identity(r: int, n: nat)
    ensures
        ({
            let (x, y, err) = circle_state(r, n);
            err == y * y + 2 * y + x * x - r * r + 2 * r - 2 * x
        }),
        circle_state(r, n).1 == n,
        circle_state(r, n).0 <= r,
    decreases n,
{
    if n > 0 {
        lemma_circle_identity(r, (n - 1) as nat);
        let (x, y, err) = circle_state(r, (n - 1) as nat);
        let y2 = y + 1;
        let e2 = err + 1 + 2 * y2;
        assert(e2 == y2 * y2 + 2 * y2 + x * x - r * r + 2 * r - 2 * x) by (nonlinear_arith)
            requires
                err == y * y + 2 * y + x * x - r * r + 2 * r - 2 * x,
                y2 == y + 1,
                e2 == err + 1 + 2 * y2,
        ;
        if 2 * (e2 - x) + 1 > 0 {
            let x2 = x - 1;
            assert(e2 + 1 - 2 * x2 == y2 * y2 + 2 * y2 + x2 * x2 - r * r + 2 * r - 2 * x2)
                by (nonlinear_arith)
                requires
                    e2 == y2 * y2 + 2 * y2 + x * x - r * r + 2 * r - 2 * x,
                    x2 == x - 1,
            ;
            assert(circle_state(r, n) == (x2, y2, e2 + 1 - 2 * x2));
        } else {
            assert(circle_state(r, n) == (x, y2, e2));
        }
    } else {
        assert(circle_state(r, n) == (r, 0int, 0int));
        assert(0 == 0 * 0 + 2 * 0 + r * r - r * r + 2 * r - 2 * r) by (nonlinear_arith);
    }
}

/// While the algorithm runs, its coordinates and error term stay small.
proof fn lemma_circle_bounds(r: int, n: nat)
    requires
        0 <= r <= MAX_RADIUS,
        circle_state(r, n).0 >= circle_state(r, n).1,
    ensures
        ({
            let (x, y, err) = circle_state(r, n);
            &&& 0 <= y <= x <= r
            &&& -0x3000_0000_0000_0000 <= err <= 0x3000_0000_0000_0000
        }),
{
    lemma_circle_identity(r, n);
    let (x, y, err) = circle_state(r, n);
    assert(0 <= y * y <= r * r) by (nonlinear_arith)
        requires
            0 <= y <= r,
    ;
    assert(0 <= x * x <= r * r) by (nonlinear_arith)
        requires
            0 <= x <= r,
    ;
    assert(r * r <= 0x1000_0000_0000_0000) by (nonlinear_arith)
        requires
            0 <= r <= 0x4000_0000,
    ;
}

/// After a step the state keeps its bounds.
proof fn lemma_circle_bounds_after(r: int, n: nat)
    requires
        0 <= r <= MAX_RADIUS,
        n > 0,
        circle_runs(r, n),
    ensures
        -1 <= circle_state(r, n).0 <= r,
        0 <= circle_state(r, n).1 <= r + 1,
{
    lemma_circle_identity(r, n);
    lemma_circle_identity(r, (n - 1) as nat);
    assert(circle_state(r, (n - 1) as nat).0 >= circle_state(r, (n - 1) as nat).1);
}

/// A filled circle always covers its centre.
pub proof fn lemma_circle_covers_center(r: int, cx: int, cy: int)
    requires
        r >= 0,
    ensures
        circle_covers(r, cx, cy, cx, cy),
{
    assert(circle_state(r, 0) == (r, 0int, 0int));
    assert(circle_runs(r, 1)) by {
        assert forall|m: nat| m < 1 implies #[trigger] circle_state(r, m).0 >= circle_state(r, m).1 by {
            assert(m == 0);
        }
    }
    assert(step_covers(cx, cy, circle_state(r, 0), cx, cy));
}

/// A filled circle of radius `r` stays inside the square of side `2r + 1`
/// around its centre.
pub proof fn lemma_circle_covers_bounded(r: int, cx: int, cy: int, px: int, py: int)
    requires
        r >= 0,
        circle_covers(r, cx, cy, px, py),
    ensures
        cx - r <= px <= cx + r,
        cy - r <= py <= cy + r,
{
    let m = choose|m: nat| circle_runs(r, m + 1) && #[trigger] step_covers(cx, cy, circle_state(r, m), px, py);
    assert(circle_state(r, m).0 >= circle_state(r, m).1);
    lemma_circle_identity(r, m);
}

/// Each step keeps x or moves it one inward, and y counts the steps.
proof fn lemma_circle_step(r: int, n: nat)
    requires
        n > 0,
    ensures
        circle_state(r, n).0 == circle_state(r, (n - 1) as nat).0 || circle_state(r, n).0
            == circle_state(r, (n - 1) as nat).0 - 1,
{
}

/// While the algorithm runs its state stays close to the true circle: the
/// error term is at least `1 - x`, and the point one column further out,
/// `(x + 1, y)`, lies strictly outside the circle of radius `r - 1`.
proof fn lemma_circle_outside(r: int, n: nat)
    requires
        r >= 1,
        circle_runs(r, n),
    ensures
        circle_state(r, n).2 + circle_state(r, n).0 >= 1,
        circle_state(r, n).2 + 4 * circle_state(r, n).0 - 2 * circle_state(r, n).1 > 0,
        ({
            let (x, y, e) = circle_state(r, n);
            (x + 1) * (x + 1) + y * y > (r - 1) * (r - 1)
        }),
    decreases n,
{
    if n > 0 {
        let p = (n - 1) as nat;
        assert(circle_runs(r, p));
        assert(circle_state(r, p).0 >= circle_state(r, p).1);
        lemma_circle_outside(r, p);
        lemma_circle_identity(r, p);
    }
    lemma_circle_identity(r, n);
    let (x, y, e) = circle_state(r, n);
    assert((x + 1) * (x + 1) + y * y - (r - 1) * (r - 1) == e + 4 * x - 2 * y) by (nonlinear_arith)
        requires
            e == y * y + 2 * y + x * x - r * r + 2 * r - 2 * x,
    ;
}

/// The algorithm stops: some step `N` has `x < y` after every earlier step ran.
proof fn lemma_circle_stops(r: int, n: nat) -> (stop: nat)
    requires
        r >= 0,
        circle_runs(r, n),
        n <= r + 1,
    ensures
        n <= stop,
        circle_runs(r, stop),
        circle_state(r, stop).0 < circle_state(r, stop).1,
    decreases r + 1 - n,
{
    lemma_circle_identity(r, n);
    if circle_state(r, n).0 < circle_state(r, n).1 {
        n
    } else {
        lemma_runs_extend(r, n);
        lemma_circle_stops(r, n + 1)
    }
}

/// Going from x = r down past `b`, the steps pass through x == b and then
/// x == b - 1 one step later.
proof fn lemma_circle_crosses(r: int, b: int, n: nat) -> (m: nat)
    requires
        b < r,
        circle_state(r, n).0 < b,
    ensures
        m < n,
        circle_state(r, m).0 == b,
        circle_state(r, m + 1).0 == b - 1,
    decreases n,
{
    if n == 0 {
        assert(circle_state(r, 0).0 == r);
        0
    } else {
        let p = (n - 1) as nat;
        lemma_circle_step(r, n);
        if circle_state(r, p).0 >= b {
            p
        } else {
            lemma_circle_crosses(r, b, p)
        }
    }
}

/// A filled circle of radius `r` paints the whole disc of radius `r - 1`
/// around its centre: every pixel at distance at most `r - 1` is covered.
pub proof fn lemma_circle_covers_disc(r: int, cx: int, cy: int, px: int, py: int)
    requires
        r >= 1,
        (px - cx) * (px - cx) + (py - cy) * (py - cy) <= (r - 1) * (r - 1),
    ensures
        circle_covers(r, cx, cy, px, py),
{
    let a: int = if px >= cx { px - cx } else { cx - px };
    let b: int = if py >= cy { py - cy } else { cy - py };
    assert(a * a == (px - cx) * (px - cx)) by (nonlinear_arith)
        requires
            a == px - cx || a == cx - px,
    ;
    assert(b * b == (py - cy) * (py - cy)) by (nonlinear_arith)
        requires
            b == py - cy || b == cy - py,
    ;
    assert(b <= r - 1) by (nonlinear_arith)
        requires
            a * a + b * b <= (r - 1) * (r - 1),
            b >= 0,
            r >= 1,
    ;
    assert(circle_runs(r, 0));
    let stop = lemma_circle_stops(r, 0);
    lemma_circle_identity(r, stop);
    if b < stop {
        let m = b as nat;
        assert(circle_runs(r, m + 1)) by {
            assert forall|j: nat| j < m + 1 implies #[trigger] circle_state(r, j).0 >= circle_state(r, j).1 by {
                assert(j < stop);
            }
        }
        assert(circle_runs(r, m)) by {
            assert forall|j: nat| j < m implies #[trigger] circle_state(r, j).0 >= circle_state(r, j).1 by {
                assert(j < stop);
            }
        }
        lemma_circle_outside(r, m);
        lemma_circle_identity(r, m);
        let x = circle_state(r, m).0;
        assert(a <= x) by (nonlinear_arith)
            requires
                (x + 1) * (x + 1) + b * b > (r - 1) * (r - 1),
                a * a + b * b <= (r - 1) * (r - 1),
                a >= 0,
                x >= 0,
        ;
        assert(step_covers(cx, cy, circle_state(r, m), px, py));
    } else {
        let m = lemma_circle_crosses(r, b, stop);
        assert(circle_runs(r, m + 1)) by {
            assert forall|j: nat| j < m + 1 implies #[trigger] circle_state(r, j).0 >= circle_state(r, j).1 by {
                assert(j < stop);
            }
        }
        lemma_circle_outside(r, m + 1);
        lemma_circle_identity(r, m + 1);
        lemma_circle_identity(r, m);
        let y1 = circle_state(r, m + 1).1;
        assert(a <= m) by (nonlinear_arith)
            requires
                b * b + y1 * y1 > (r - 1) * (r - 1),
                a * a + b * b <= (r - 1) * (r - 1),
                y1 == m + 1,
                a >= 0,
        ;
        assert(step_covers(cx, cy, circle_state(r, m), px, py));
    }
}

/// A filled circle reaches its radius along both axes: the points `r` to the
/// left, right, above and below the centre are covered.
pub proof fn lemma_circle_covers_axis_points(r: int, cx: int, cy: int)
    requires
        r >= 0,
    ensures
        circle_covers(r, cx, cy, cx - r, cy),
        circle_covers(r, cx, cy, cx + r, cy),
        circle_covers(r, cx, cy, cx, cy - r),
        circle_covers(r, cx, cy, cx, cy + r),
{
    assert(circle_state(r, 0) == (r, 0int, 0int));
    assert(circle_runs(r, 1)) by {
        assert forall|m: nat| m < 1 implies #[trigger] circle_state(r, m).0 >= circle_state(r, m).1 by {
            assert(m == 0);
        }
    }
    assert(step_covers(cx, cy, circle_state(r, 0), cx - r, cy));
    assert(step_covers(cx, cy, circle_state(r, 0), cx + r, cy));
    assert(step_covers(cx, cy, circle_state(r, 0), cx, cy - r));
    assert(step_covers(cx, cy, circle_state(r, 0), cx, cy + r));
}

/// Each row of a filled circle is one unbroken span: a pixel between two
/// covered pixels of the same row is covered too.
pub proof fn lemma_circle_rows_contiguous(r: int, cx: int, cy: int, x1: int, x2: int, px: int, py: int)
    requires
        circle_covers(r, cx, cy, x1, py),
        circle_covers(r, cx, cy, x2, py),
        x1 <= px <= x2,
    ensures
        circle_covers(r, cx, cy, px, py),
{
    let m1 = choose|m: nat| circle_runs(r, m + 1) && #[trigger] step_covers(cx, cy, circle_state(r, m), x1, py);
    let m2 = choose|m: nat| circle_runs(r, m + 1) && #[trigger] step_covers(cx, cy, circle_state(r, m), x2, py);
    let far1 = if x1 <= cx { cx - x1 } else { x1 - cx };
    let far2 = if x2 <= cx { cx - x2 } else { x2 - cx };
    if far1 >= far2 {
        assert(step_covers(cx, cy, circle_state(r, m1), px, py));
    } else {
        assert(step_covers(cx, cy, circle_state(r, m2), px, py));
    }
}

/// A filled circle is symmetric about the vertical and the horizontal line
/// through its centre.
pub proof fn lemma_circle_covers_symmetric(r: int, cx: int, cy: int, px: int, py: int)
    ensures
        circle_covers(r, cx, cy, px, py) == circle_covers(r, cx, cy, 2 * cx - px, py),
        circle_covers(r, cx, cy, px, py) == circle_covers(r, cx, cy, px, 2 * cy - py),
{
    if circle_covers(r, cx, cy, px, py) {
        let m = choose|m: nat| circle_runs(r, m + 1) && #[trigger] step_covers(cx, cy, circle_state(r, m), px, py);
        assert(step_covers(cx, cy, circle_state(r, m), 2 * cx - px, py));
        assert(step_covers(cx, cy, circle_state(r, m), px, 2 * cy - py));
    }
    if circle_covers(r, cx, cy, 2 * cx - px, py) {
        let m = choose|m: nat| circle_runs(r, m + 1) && #[trigger] step_covers(cx, cy, circle_state(r, m), 2 * cx - px, py);
        assert(step_covers(cx, cy, circle_state(r, m), px, py));
    }
    if circle_covers(r, cx, cy, px, 2 * cy - py) {
        let m = choose|m: nat| circle_runs(r, m + 1) && #[trigger] step_covers(cx, cy, circle_state(r, m), px, 2 * cy - py);
        assert(step_covers(cx, cy, circle_state(r, m), px, py));
    }
}

/// Initialize the Aura display: clear to black and draw the emblem, a 20x20
/// cyan square centred on the screen.
pub fn init(fb: Framebuffer) -> (d: AuraDisplay)
    requires
        geometry_ok(fb),
        fb.width >= 20,
        fb.height >= 20,
    ensures
        d.wf(),
        d.fb() == fb,
        !d.overlay(),
        forall|k: int|
            0 <= k < d.pixels().len() ==> #[trigger] d.pixels()[k] == if fb.width / 2 - 10
                <= col_of(fb, k) < fb.width / 2 + 10 && fb.height / 2 - 10 <= row_of(fb, k)
                < fb.height / 2 + 10 {
                pack_spec(cyan_spec())
            } else {
                pack_spec(black_spec())
            },
{
    let mut aura = AuraDisplay::new(fb);
    aura.clear(Color::black());
    let center_x = fb.width / 2;
    let center_y = fb.height / 2;
    proof {
        assert(fb.width <= row_words(fb)) by (nonlinear_arith)
            requires
                fb.width * 4 <= fb.pitch,
        ;
    }
    aura.draw_rect(center_x - 10, center_y - 10, 20, 20, Color::cyan());
    aura
}

/// Toggle the ghost shell on the display, when there is one.
pub fn toggle_ghost_shell(display: &mut Option<AuraDisplay>)
    requires
        *old(display) matches Some(d) ==> d.wf() && d.fb().height >= 5,
    ensures
        *old(display) is None ==> *final(display) is None,
        *old(display) matches Some(d) ==> (*final(display) matches Some(e) && e.wf() && e.fb() == d.fb()
            && e.overlay() == !d.overlay()),
{
    match display {
        Some(aura) => aura.toggle_overlay(),
        None => {},
    }
}

proof fn lemma_rect_index(fb: Framebuffer, x: int, y: int)
    requires
        geometry_ok(fb),
        0 <= x < row_words(fb),
        0 <= y < fb.height,
    ensures
        y * row_words(fb) + x < total_words(fb),
        y * row_words(fb) + x <= u64::MAX,
{
    let rw = row_words(fb);
    let p = fb.pitch as int;
    let h = fb.height as int;
    assert(rw * 4 <= p) by (nonlinear_arith)
        requires
            rw == p / 4,
            p >= 0,
    ;
    assert(y * rw + x < (y + 1) * rw) by (nonlinear_arith)
        requires
            x < rw,
    ;
    assert((y + 1) * rw <= h * rw) by (nonlinear_arith)
        requires
            y + 1 <= h,
            rw >= 0,
    ;
    assert(h * rw <= (p * h) / 4) by (nonlinear_arith)
        requires
            rw * 4 <= p,
            h >= 0,
            rw >= 0,
    ;
}

} // verus!
