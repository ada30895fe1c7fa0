//! The drawing surface the midend paints on: its pixels, palette, status text,
//! clip rectangles, and the blitters that save and restore parts of it.
use vstd::prelude::*;
use raqote::DrawTarget;
use crate::layout::{as_i32, as_u32, bar_rows, window_size};
use crate::surface::{
    argb, clear_target, clipped_span, copy_region, copy_region_result, fits_i32, imin, in_clip, meet, new_target, pop_clip,
    popped_clips, push_clip, pushed_clips, target_clip_stack, target_clips, target_data, target_height,
    target_pixels, target_plain, target_sized, target_wf, target_width,
};

verus! {

/// Height in pixels of the status bar drawn along the bottom of the window.
pub const STATUS_BAR_HEIGHT: i32 = 30;

/// One palette entry, as the midend's colour scaled to bytes.
#[derive(Debug, Clone, Copy, PartialEq, Eq, Structural)]
pub struct PuzColor {
    pub r: u8,
    pub g: u8,
    pub b: u8,
}

/// A saved rectangle of pixels.
pub struct Blitter {
    target: DrawTarget,
    width: i32,
    height: i32,
}

impl Blitter {
    pub closed spec fn spec_width(&self) -> int {
        self.width as int
    }

    pub closed spec fn spec_height(&self) -> int {
        self.height as int
    }

    /// The saved pixels, row by row.
    pub closed spec fn spec_pixels(&self) -> Seq<u32> {
        target_pixels(self.target)
    }

    /// The buffer holds `width * height` pixels.
    pub closed spec fn wf(&self) -> bool {
        &&& target_sized(self.target)
        &&& target_width(self.target) == self.width as int
        &&& target_height(self.target) == self.height as int
    }

    /// The width it was made with.
    pub fn width(&self) -> (w: i32)
        ensures
            w as int == self.spec_width(),
    {
        self.width
    }

    /// The height it was made with.
    pub fn height(&self) -> (h: i32)
        ensures
            h as int == self.spec_height(),
    {
        self.height
    }

    /// The saved pixels.
    pub fn pixels(&self) -> (p: &[u32])
        ensures
            p@ == self.spec_pixels(),
    {
        target_data(&self.target)
    }
}

/// The surface the midend draws on.
pub struct Drawing {
    target: DrawTarget,
    colours: Vec<PuzColor>,
    status_text: Option<String>,
    width: u32,
    height: u32,
}

/// How many pixels raqote gives a drawing of `width` by `height`: it reads each
/// size as an `i32` and multiplies them.
pub open spec fn surface_pixels(width: u32, height: u32) -> int {
    if width <= i32::MAX && height <= i32::MAX {
        width * height
    } else {
        as_i32(width) * as_i32(height)
    }
}

/// What the blitter holds after saving the `bw` by `bh` rectangle at `(x, y)`
/// of a `w` by `h` drawing whose pixels are `drawing`.
pub open spec fn saved_pixels(
    blitter: Seq<u32>,
    bw: int,
    bh: int,
    drawing: Seq<u32>,
    w: int,
    h: int,
    x: int,
    y: int,
) -> Seq<u32> {
    copy_region_result(blitter, bw, bh, drawing, w, h, x, y, x + bw, y + bh, 0, 0)
}

/// What a `w` by `h` drawing whose pixels are `drawing` holds after a `bw` by
/// `bh` blitter is loaded back at `(x, y)`.
pub open spec fn loaded_pixels(
    drawing: Seq<u32>,
    w: int,
    h: int,
    blitter: Seq<u32>,
    bw: int,
    bh: int,
    x: int,
    y: int,
) -> Seq<u32> {
    copy_region_result(drawing, w, h, blitter, bw, bh, 0, 0, bw, bh, x, y)
}

/// Whether pixel `i` of a drawing `w` pixels wide lies in the `bw` by `bh`
/// rectangle at `(x, y)`.
pub open spec fn in_rect(i: int, w: int, x: int, y: int, bw: int, bh: int) -> bool {
    x <= i % w < x + bw && y <= i / w < y + bh
}

impl Drawing {
    pub closed spec fn spec_width(&self) -> int {
        self.width as int
    }

    pub closed spec fn spec_height(&self) -> int {
        self.height as int
    }

    /// The width of the surface: the drawing's width read as an `i32`.
    pub closed spec fn spec_surface_width(&self) -> int {
        as_i32(self.width)
    }

    /// The height of the surface: the drawing's height read as an `i32`.
    pub closed spec fn spec_surface_height(&self) -> int {
        as_i32(self.height)
    }

    /// The pixels, row by row, each as `0xAARRGGBB`.
    pub closed spec fn spec_pixels(&self) -> Seq<u32> {
        target_pixels(self.target)
    }

    /// The surface itself.
    pub closed spec fn spec_target(&self) -> DrawTarget {
        self.target
    }

    /// How many clip rectangles are in force.
    pub closed spec fn spec_clips(&self) -> nat {
        target_clips(self.target)
    }

    /// The clip rectangles, bottom first, each as `(x0, y0, x1, y1)` cut to the
    /// one below it; drawing is confined to the last.
    pub closed spec fn spec_clip_rects(&self) -> Seq<(int, int, int, int)> {
        target_clip_stack(self.target)
    }

    /// The palette.
    pub closed spec fn spec_colours(&self) -> Seq<PuzColor> {
        self.colours@
    }

    /// The text of the status bar, once the midend has set one.
    pub closed spec fn spec_status(&self) -> Option<Seq<char>> {
        match self.status_text {
            Some(s) => Some(s@),
            None => None,
        }
    }

    /// The surface's size is the drawing's, each read as an `i32`; its buffer
    /// holds the product of the two; and it has no layer and no clip by a path.
    pub closed spec fn wf(&self) -> bool {
        &&& target_sized(self.target)
        &&& target_plain(self.target)
        &&& target_width(self.target) == as_i32(self.width)
        &&& target_height(self.target) == as_i32(self.height)
    }

    /// A `width` by `height` drawing, all pixels zero, with an empty palette and
    /// no status text. The surface is made with each size read as an `i32`, and
    /// holds the product of the two.
    pub fn new(width: u32, height: u32) -> (d: Drawing)
        requires
            0 <= surface_pixels(width, height) <= i32::MAX,
        ensures
            d.wf(),
            d.spec_width() == width,
            d.spec_height() == height,
            d.spec_pixels() == Seq::new((surface_pixels(width, height)) as nat, |i: int| 0u32),
            d.spec_clips() == 0,
            d.spec_colours().len() == 0,
            d.spec_status().is_none(),
    {
        Drawing {
            target: new_target(signed(width), signed(height)),
            colours: Vec::new(),
            status_text: None,
            width,
            height,
        }
    }

    /// Replaces the surface with a fresh `width` by `height` one, all pixels
    /// zero and no clip; palette and status text are kept. As in `new`, the
    /// surface holds the product of the sizes read as `i32`s.
    pub fn set_size(&mut self, width: u32, height: u32)
        requires
            0 <= surface_pixels(width, height) <= i32::MAX,
        ensures
            final(self).wf(),
            final(self).spec_width() == width,
            final(self).spec_height() == height,
            final(self).spec_pixels() == Seq::new((surface_pixels(width, height)) as nat, |i: int| 0u32),
            final(self).spec_clips() == 0,
            final(self).spec_colours() == old(self).spec_colours(),
            final(self).spec_status() == old(self).spec_status(),
    {
        self.width = width;
        self.height = height;
        self.target = new_target(signed(width), signed(height));
    }

    /// Resizes the drawing to hold the puzzle area `(x, y)` that the midend
    /// settled on, with the status bar's rows below it when there is one, and
    /// fills it with the background colour, palette entry 0. Returns the new
    /// size of the drawing; the surface holds `x` times the rows pixels.
    pub fn fit_puzzle(&mut self, x: i32, y: i32, status_bar: bool) -> (size: (u32, u32))
        requires
            old(self).spec_colours().len() > 0,
            y + bar_rows(status_bar) <= i32::MAX,
            0 <= x * (y + bar_rows(status_bar)) <= i32::MAX,
        ensures
            size.0 == as_u32(x),
            size.1 == as_u32((y + bar_rows(status_bar)) as i32),
            final(self).wf(),
            final(self).spec_width() == size.0,
            final(self).spec_height() == size.1,
            final(self).spec_clips() == 0,
            final(self).spec_colours() == old(self).spec_colours(),
            final(self).spec_status() == old(self).spec_status(),
            ({
                let c = old(self).spec_colours()[0];
                final(self).spec_pixels() == Seq::new(
                    (x * (y + bar_rows(status_bar))) as nat,
                    |i: int| argb(0xff, c.r, c.g, c.b),
                )
            }),
    {
        let (w, h) = window_size(x, y, status_bar);
        self.set_size(w, h);
        self.clear();
        (w, h)
    }

    /// The width in pixels.
    pub fn width(&self) -> (w: u32)
        ensures
            w == self.spec_width(),
    {
        self.width
    }

    /// The height in pixels.
    pub fn height(&self) -> (h: u32)
        ensures
            h == self.spec_height(),
    {
        self.height
    }

    /// The underlying pixels.
    pub fn frame(&self) -> (f: &[u32])
        ensures
            f@ == self.spec_pixels(),
    {
        target_data(&self.target)
    }

    /// The surface itself, for the painting operations that work in floating
    /// point; everything else about the drawing stays as it was.
    pub fn target_mut(&mut self) -> (t: &mut DrawTarget)
        ensures
            *t == old(self).spec_target(),
            final(self).spec_target() == *final(t),
            final(self).spec_colours() == old(self).spec_colours(),
            final(self).spec_status() == old(self).spec_status(),
            final(self).spec_width() == old(self).spec_width(),
            final(self).spec_height() == old(self).spec_height(),
    {
        &mut self.target
    }

    /// Installs the palette.
    pub fn set_colours(&mut self, colours: Vec<PuzColor>)
        ensures
            final(self).spec_colours() == colours@,
            final(self).spec_pixels() == old(self).spec_pixels(),
            final(self).spec_clip_rects() == old(self).spec_clip_rects(),
            final(self).spec_clips() == old(self).spec_clips(),
            final(self).spec_width() == old(self).spec_width(),
            final(self).spec_height() == old(self).spec_height(),
            final(self).spec_status() == old(self).spec_status(),
            old(self).wf() ==> final(self).wf(),
    {
        self.colours = colours;
    }

    /// The number of palette entries.
    pub fn num_colours(&self) -> (n: usize)
        ensures
            n == self.spec_colours().len(),
    {
        self.colours.len()
    }

    /// Palette entry `index`; the midend only uses indices it was given.
    pub fn colour(&self, index: i32) -> (c: PuzColor)
        requires
            0 <= index < self.spec_colours().len(),
        ensures
            c == self.spec_colours()[index as int],
    {
        self.colours[index as usize]
    }

    /// Fills the drawing with palette entry 0, fully opaque. With no clip in
    /// force every pixel takes that colour; under a clip the pixels outside the
    /// last clip rectangle are kept and each pixel inside it takes that colour.
    /// raqote fills under a clip through a fixed-point rasterizer, which fails
    /// on a drawing of `2^29` rows or columns: under a clip the drawing must
    /// have no rows, or at most `0x7fff` of each.
    pub fn clear(&mut self)
        requires
            old(self).wf(),
            old(self).spec_colours().len() > 0,
            old(self).spec_clips() > 0 ==> old(self).spec_height() == 0 || old(self).spec_width() <= 0x7fff
                && old(self).spec_height() <= 0x7fff,
        ensures
            final(self).wf(),
            final(self).spec_width() == old(self).spec_width(),
            final(self).spec_height() == old(self).spec_height(),
            final(self).spec_clip_rects() == old(self).spec_clip_rects(),
            final(self).spec_clips() == old(self).spec_clips(),
            final(self).spec_colours() == old(self).spec_colours(),
            final(self).spec_status() == old(self).spec_status(),
            final(self).spec_pixels().len() == old(self).spec_pixels().len(),
            old(self).spec_clips() == 0 ==> ({
                let c = old(self).spec_colours()[0];
                final(self).spec_pixels() == Seq::new(
                    old(self).spec_pixels().len(),
                    |i: int| argb(0xff, c.r, c.g, c.b),
                )
            }),
            old(self).spec_clips() > 0 ==> forall|i: int|
                0 <= i < old(self).spec_pixels().len() && !in_clip(
                    old(self).spec_clip_rects().last(),
                    i % old(self).spec_width(),
                    i / old(self).spec_width(),
                ) ==> #[trigger] final(self).spec_pixels()[i] == old(self).spec_pixels()[i],
            old(self).spec_clips() > 0 ==> ({
                let c = old(self).spec_colours()[0];
                forall|i: int|
                    0 <= i < old(self).spec_pixels().len() && in_clip(
                        old(self).spec_clip_rects().last(),
                        i % old(self).spec_width(),
                        i / old(self).spec_width(),
                    ) ==> #[trigger] final(self).spec_pixels()[i] == argb(0xff, c.r, c.g, c.b)
            }),
    {
        proof {
            if self.height == 0 {
                // a drawing with no rows holds no pixels
                let n = target_pixels(self.target).len();
                let w = target_width(self.target);
                let h = target_height(self.target);
                assert(n == 0) by (nonlinear_arith)
                    requires
                        n == w * h,
                        h == 0,
                ;
            }
        }
        let c = self.colours[0];
        clear_target(&mut self.target, 0xff, c.r, c.g, c.b);
    }

    /// Restricts drawing to the `w` by `h` rectangle at `(x, y)`.
    pub fn clip(&mut self, x: i32, y: i32, w: i32, h: i32)
        requires
            old(self).wf(),
            fits_i32(x + w),
            fits_i32(y + h),
        ensures
            final(self).wf(),
            final(self).spec_pixels() == old(self).spec_pixels(),
            final(self).spec_clip_rects() == pushed_clips(
                old(self).spec_clip_rects(),
                (x as int, y as int, x + w, y + h),
            ),
            final(self).spec_clips() == old(self).spec_clips() + 1,
            final(self).spec_width() == old(self).spec_width(),
            final(self).spec_height() == old(self).spec_height(),
            final(self).spec_colours() == old(self).spec_colours(),
            final(self).spec_status() == old(self).spec_status(),
    {
        push_clip(&mut self.target, x, y, x + w, y + h);
    }

    /// Lifts the last clip, if any.
    pub fn unclip(&mut self)
        requires
            old(self).wf(),
        ensures
            final(self).wf(),
            final(self).spec_pixels() == old(self).spec_pixels(),
            final(self).spec_clip_rects() == popped_clips(old(self).spec_clip_rects()),
            final(self).spec_clips() == if old(self).spec_clips() > 0 {
                (old(self).spec_clips() - 1) as nat
            } else {
                0
            },
            final(self).spec_width() == old(self).spec_width(),
            final(self).spec_height() == old(self).spec_height(),
            final(self).spec_colours() == old(self).spec_colours(),
            final(self).spec_status() == old(self).spec_status(),
    {
        pop_clip(&mut self.target);
    }

    /// Sets the text shown in the status bar.
    pub fn set_status_text(&mut self, text: String)
        ensures
            final(self).spec_status() == Some(text@),
            final(self).spec_pixels() == old(self).spec_pixels(),
            final(self).spec_clip_rects() == old(self).spec_clip_rects(),
            final(self).spec_clips() == old(self).spec_clips(),
            final(self).spec_width() == old(self).spec_width(),
            final(self).spec_height() == old(self).spec_height(),
            final(self).spec_colours() == old(self).spec_colours(),
            old(self).wf() ==> final(self).wf(),
    {
        self.status_text = Some(text);
    }

    /// The text of the status bar, if the midend has set one.
    pub fn status_text(&self) -> (t: Option<&String>)
        ensures
            match t {
                Some(s) => self.spec_status() == Some(s@),
                None => self.spec_status().is_none(),
            },
    {
        match &self.status_text {
            Some(s) => Some(s),
            None => None,
        }
    }

    /// The row at which the status bar starts: its height above the bottom edge.
    pub fn status_bar_top(&self) -> (top: i32)
        requires
            self.spec_surface_height() - STATUS_BAR_HEIGHT >= i32::MIN,
        ensures
            top == self.spec_surface_height() - STATUS_BAR_HEIGHT,
    {
        signed(self.height) - STATUS_BAR_HEIGHT
    }

    /// A blitter able to hold a `w` by `h` rectangle, all pixels zero. Both
    /// sizes may be negative, which gives a blitter that holds nothing.
    pub fn blitter_new(&mut self, w: i32, h: i32) -> (b: Blitter)
        requires
            0 <= w * h <= i32::MAX,
        ensures
            b.wf(),
            b.spec_width() == w,
            b.spec_height() == h,
            b.spec_pixels() == Seq::new((w * h) as nat, |i: int| 0u32),
            *final(self) == *old(self),
    {
        Blitter { target: new_target(w, h), width: w, height: h }
    }

    /// Saves into `blitter` the rectangle of its size whose top left corner is
    /// `(x, y)`; the drawing is not changed.
    pub fn blitter_save(&mut self, blitter: &mut Blitter, x: i32, y: i32)
        requires
            old(self).wf(),
            old(blitter).wf(),
            fits_i32(x + old(blitter).spec_width()),
            fits_i32(y + old(blitter).spec_height()),
        ensures
            *final(self) == *old(self),
            final(blitter).wf(),
            final(blitter).spec_width() == old(blitter).spec_width(),
            final(blitter).spec_height() == old(blitter).spec_height(),
            final(blitter).spec_pixels() == saved_pixels(
                old(blitter).spec_pixels(),
                old(blitter).spec_width(),
                old(blitter).spec_height(),
                old(self).spec_pixels(),
                old(self).spec_surface_width(),
                old(self).spec_surface_height(),
                x as int,
                y as int,
            ),
    {
        let x1 = x + blitter.width;
        let y1 = y + blitter.height;
        copy_region(&mut blitter.target, &self.target, x, y, x1, y1, 0, 0);
    }

    /// Draws `blitter` back with its top left corner at `(x, y)`; the blitter
    /// is not changed.
    pub fn blitter_load(&mut self, blitter: &mut Blitter, x: i32, y: i32)
        requires
            old(self).wf(),
            old(blitter).wf(),
            x > i32::MIN,
            y > i32::MIN,
            fits_i32(x + old(blitter).spec_width()),
            fits_i32(y + old(blitter).spec_height()),
            fits_i32(imin(old(self).spec_surface_width(), old(blitter).spec_width() + x) - x),
            fits_i32(imin(old(self).spec_surface_height(), old(blitter).spec_height() + y) - y),
        ensures
            *final(blitter) == *old(blitter),
            final(self).wf(),
            final(self).spec_width() == old(self).spec_width(),
            final(self).spec_height() == old(self).spec_height(),
            final(self).spec_clip_rects() == old(self).spec_clip_rects(),
            final(self).spec_clips() == old(self).spec_clips(),
            final(self).spec_colours() == old(self).spec_colours(),
            final(self).spec_status() == old(self).spec_status(),
            final(self).spec_pixels() == loaded_pixels(
                old(self).spec_pixels(),
                old(self).spec_surface_width(),
                old(self).spec_surface_height(),
                old(blitter).spec_pixels(),
                old(blitter).spec_width(),
                old(blitter).spec_height(),
                x as int,
                y as int,
            ),
    {
        copy_region(&mut self.target, &blitter.target, 0, 0, blitter.width, blitter.height, x, y);
    }
}

/// Clipping and then lifting that clip gives back the clip rectangles that were
/// in force before, so drawing is confined as it was.
pub proof fn lemma_clip_then_unclip(rects: Seq<(int, int, int, int)>, r: (int, int, int, int))
    ensures
        popped_clips(pushed_clips(rects, r)) == rects,
        pushed_clips(rects, r).len() == rects.len() + 1,
        rects.len() > 0 ==> pushed_clips(rects, r).last() == meet(rects.last(), r),
{
    if rects.len() == 0 {
        assert(popped_clips(pushed_clips(rects, r)) =~= rects);
    } else {
        assert(pushed_clips(rects, r).drop_last() =~= rects);
    }
}

/// `v` read as an `i32`, as `v as i32` does.
fn signed(v: u32) -> (r: i32)
    ensures
        r as int == as_i32(v),
{
    let r = v as i32;
    assert(r as int == as_i32(v)) by (bit_vector)
        requires
            r == v as i32,
    ;
    r
}

/// Pixel `i` of a `w` by `h` grid sits at column `i % w` and row `i / w`.
proof fn lemma_grid_split(i: int, w: int, h: int)
    requires
        0 < w,
        0 <= h,
        0 <= i < w * h,
    ensures
        0 <= i % w < w,
        0 <= i / w < h,
        i == i % w + (i / w) * w,
{
    vstd::arithmetic::div_mod::lemma_fundamental_div_mod(i, w);
    vstd::arithmetic::div_mod::lemma_mod_bound(i, w);
    let q = i / w;
    let r = i % w;
    assert(i == w * q + r);
    assert(w * q == q * w) by (nonlinear_arith);
    assert(0 <= q) by (nonlinear_arith)
        requires
            i == w * q + r,
            0 <= r < w,
            0 <= i,
            0 < w,
    ;
    assert(q < h) by (nonlinear_arith)
        requires
            i == w * q + r,
            0 <= r,
            i < w * h,
            0 < w,
    ;
}

/// Column `c` of row `r` of a `w` by `h` grid is pixel `c + r * w`.
proof fn lemma_grid_join(c: int, r: int, w: int, h: int)
    requires
        0 <= c < w,
        0 <= r < h,
    ensures
        0 <= c + r * w < w * h,
        (c + r * w) % w == c,
        (c + r * w) / w == r,
{
    assert(0 <= c + r * w < w * h) by (nonlinear_arith)
        requires
            0 <= c < w,
            0 <= r < h,
    ;
    vstd::arithmetic::div_mod::lemma_fundamental_div_mod_converse(c + r * w, w, r, c);
}

/// Saving a `bw` by `bh` rectangle that lies inside a `w` by `h` drawing at
/// `(x, y)` into a blitter of its size, and loading that blitter back at the
/// same place after any drawing in between, leaves every pixel outside the
/// rectangle as drawn in between, and restores each pixel of the rectangle whose
/// column is below `bw` and whose row is below `bh` to what it was when saved.
/// The other pixels of the rectangle get what the blitter held before: raqote
/// cuts the saved rectangle to the blitter's own extent measured from the
/// drawing's origin, so only a rectangle at the origin comes back whole.
pub proof fn lemma_blitter_round_trip(
    at_save: Seq<u32>,
    at_load: Seq<u32>,
    w: int,
    h: int,
    blitter: Seq<u32>,
    bw: int,
    bh: int,
    x: int,
    y: int,
)
    requires
        0 <= bw,
        0 <= bh,
        0 <= x,
        x + bw <= w,
        0 <= y,
        y + bh <= h,
        at_save.len() == w * h,
        at_load.len() == w * h,
        blitter.len() == bw * bh,
    ensures
        ({
            let saved = saved_pixels(blitter, bw, bh, at_save, w, h, x, y);
            let restored = loaded_pixels(at_load, w, h, saved, bw, bh, x, y);
            &&& restored.len() == w * h
            &&& forall|i: int|
                0 <= i < w * h ==> #[trigger] restored[i] == if in_rect(i, w, x, y, bw, bh) {
                    if i % w < bw && i / w < bh {
                        at_save[i]
                    } else {
                        blitter[(i % w - x) + (i / w - y) * bw]
                    }
                } else {
                    at_load[i]
                }
        }),
{
    let saved = saved_pixels(blitter, bw, bh, at_save, w, h, x, y);
    let restored = loaded_pixels(at_load, w, h, saved, bw, bh, x, y);
    // the saved part of the drawing: columns [x, bw), rows [y, bh)
    assert(clipped_span(x, x + bw, w, 0, bw) == (x, bw));
    assert(clipped_span(y, y + bh, h, 0, bh) == (y, bh));
    // the loaded part: the whole blitter, placed at (x, y)
    assert(clipped_span(0, bw, bw, x, w) == (0int, bw));
    assert(clipped_span(0, bh, bh, y, h) == (0int, bh));
    assert forall|j: int| 0 <= j < bw * bh implies #[trigger] saved[j] == if j % bw < bw - x && j / bw < bh - y {
        at_save[(x + j % bw) + (y + j / bw) * w]
    } else {
        blitter[j]
    } by {
        assert(0 < bw && 0 < bh) by (nonlinear_arith)
            requires
                0 <= j < bw * bh,
                0 <= bw,
                0 <= bh,
        ;
        lemma_grid_split(j, bw, bh);
    }
    assert(saved.len() == bw * bh);
    if bw > 0 && bh > 0 {
        assert(w > 0);
        assert forall|i: int| 0 <= i < w * h implies #[trigger] restored[i] == if in_rect(i, w, x, y, bw, bh) {
            if i % w < bw && i / w < bh {
                at_save[i]
            } else {
                blitter[(i % w - x) + (i / w - y) * bw]
            }
        } else {
            at_load[i]
        } by {
            lemma_grid_split(i, w, h);
            if in_rect(i, w, x, y, bw, bh) {
                let c = i % w - x;
                let r = i / w - y;
                lemma_grid_join(c, r, bw, bh);
                assert(restored[i] == saved[c + r * bw]);
            }
        }
    } else {
        assert forall|i: int| 0 <= i < w * h implies !in_rect(i, w, x, y, bw, bh) by {}
    }
}

/// A rectangle saved at the drawing's origin comes back whole: loading the
/// blitter there restores every pixel of the rectangle to what it was when
/// saved, and leaves the rest as drawn in between.
pub proof fn lemma_blitter_round_trip_at_origin(
    at_save: Seq<u32>,
    at_load: Seq<u32>,
    w: int,
    h: int,
    blitter: Seq<u32>,
    bw: int,
    bh: int,
)
    requires
        0 <= bw <= w,
        0 <= bh <= h,
        at_save.len() == w * h,
        at_load.len() == w * h,
        blitter.len() == bw * bh,
    ensures
        ({
            let saved = saved_pixels(blitter, bw, bh, at_save, w, h, 0, 0);
            let restored = loaded_pixels(at_load, w, h, saved, bw, bh, 0, 0);
            &&& restored.len() == w * h
            &&& forall|i: int|
                0 <= i < w * h ==> #[trigger] restored[i] == if in_rect(i, w, 0, 0, bw, bh) {
                    at_save[i]
                } else {
                    at_load[i]
                }
        }),
{
    lemma_blitter_round_trip(at_save, at_load, w, h, blitter, bw, bh, 0, 0);
}

} // verus!
