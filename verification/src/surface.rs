//! The pixel surface that puzzles are drawn on: raqote's `DrawTarget`, seen by
//! the verified code through the contents of its pixel buffer and its layout.
use vstd::prelude::*;
use raqote::DrawTarget;
use raqote::IntPoint;
use raqote::IntRect;
use raqote::SolidSource;

verus! {

#[verifier::external_type_specification]
#[verifier::external_body]
#[verifier::reject_recursive_types(Backing)]
pub struct ExDrawTarget<Backing>(DrawTarget<Backing>);

/// The pixels that a draw target holds, row by row, each as `0xAARRGGBB`.
pub uninterp spec fn target_pixels(dt: DrawTarget) -> Seq<u32>;

/// The width and height that a draw target was made with; the clip rectangles
/// pushed on it, bottom first, each as `(x0, y0, x1, y1)` and as it is in force,
/// that is cut to the one below it; and whether the target is plain: no layer
/// is pushed on it and no clip by a path.
pub uninterp spec fn target_layout(dt: DrawTarget) -> (int, int, Seq<(int, int, int, int)>, bool);

pub open spec fn target_width(dt: DrawTarget) -> int {
    target_layout(dt).0
}

pub open spec fn target_height(dt: DrawTarget) -> int {
    target_layout(dt).1
}

/// The clip rectangles in force, bottom first.
pub open spec fn target_clip_stack(dt: DrawTarget) -> Seq<(int, int, int, int)> {
    target_layout(dt).2
}

pub open spec fn target_clips(dt: DrawTarget) -> nat {
    target_clip_stack(dt).len()
}

pub open spec fn target_plain(dt: DrawTarget) -> bool {
    target_layout(dt).3
}

/// The overlap of two rectangles `(x0, y0, x1, y1)`; it may be empty.
pub open spec fn meet(a: (int, int, int, int), b: (int, int, int, int)) -> (int, int, int, int) {
    (imax(a.0, b.0), imax(a.1, b.1), imin(a.2, b.2), imin(a.3, b.3))
}

/// The clip stack after the rectangle `r` is pushed on `stack`: it is cut to the
/// rectangle in force before, if there is one.
pub open spec fn pushed_clips(stack: Seq<(int, int, int, int)>, r: (int, int, int, int)) -> Seq<(int, int, int, int)> {
    if stack.len() == 0 {
        seq![r]
    } else {
        stack.push(meet(stack.last(), r))
    }
}

/// The clip stack after its last rectangle, if any, is dropped.
pub open spec fn popped_clips(stack: Seq<(int, int, int, int)>) -> Seq<(int, int, int, int)> {
    if stack.len() == 0 {
        stack
    } else {
        stack.drop_last()
    }
}

/// Whether the point `(px, py)` lies in the rectangle `r`.
pub open spec fn in_clip(r: (int, int, int, int), px: int, py: int) -> bool {
    r.0 <= px < r.2 && r.1 <= py < r.3
}

/// A draw target whose buffer holds exactly `width * height` pixels.
pub open spec fn target_sized(dt: DrawTarget) -> bool {
    target_pixels(dt).len() == target_width(dt) * target_height(dt)
}

/// A draw target of a size no less than zero whose buffer holds exactly
/// `width * height` pixels.
pub open spec fn target_wf(dt: DrawTarget) -> bool {
    &&& 0 <= target_width(dt)
    &&& 0 <= target_height(dt)
    &&& target_sized(dt)
}

pub open spec fn imax(a: int, b: int) -> int {
    if a >= b { a } else { b }
}

pub open spec fn imin(a: int, b: int) -> int {
    if a <= b { a } else { b }
}

pub open spec fn clamp(v: int, lo: int, hi: int) -> int {
    imin(imax(v, lo), hi)
}

/// Whether an `i32` can hold `v`.
pub open spec fn fits_i32(v: int) -> bool {
    i32::MIN <= v <= i32::MAX
}

/// The packed `0xAARRGGBB` value of a colour.
pub open spec fn argb(a: u8, r: u8, g: u8, b: u8) -> u32 {
    (a as int * 0x1000000 + r as int * 0x10000 + g as int * 0x100 + b as int) as u32
}

/// Along one axis: the span `[lo, hi)` of the source, cut to the source's extent
/// `[0, src_limit)`, then to the part that lands inside `[0, dst_limit)` when moved
/// by `by`; given back in source coordinates.
pub open spec fn clipped_span(lo: int, hi: int, src_limit: int, by: int, dst_limit: int) -> (int, int) {
    let a0 = imax(lo, 0);
    let a1 = imin(hi, src_limit);
    (imax(a0 + by, 0) - by, imin(a1 + by, dst_limit) - by)
}

/// The pixels of a `dw` by `dh` target `dst` after the rectangle
/// `[x0, x1) x [y0, y1)` of the `sw` by `sh` target `src` is copied to it at
/// `(to_x, to_y)`: the rectangle is cut to `src` and to what lands inside `dst`,
/// and the remaining part is written with its top left corner at `(to_x, to_y)`
/// pushed inside `dst`.
pub open spec fn copy_region_result(
    dst: Seq<u32>,
    dw: int,
    dh: int,
    src: Seq<u32>,
    sw: int,
    sh: int,
    x0: int,
    y0: int,
    x1: int,
    y1: int,
    to_x: int,
    to_y: int,
) -> Seq<u32> {
    let (s0, s1) = clipped_span(x0, x1, sw, to_x, dw);
    let (t0, t1) = clipped_span(y0, y1, sh, to_y, dh);
    let cx = clamp(to_x, 0, dw);
    let cy = clamp(to_y, 0, dh);
    if s1 <= s0 || t1 <= t0 {
        dst
    } else {
        Seq::new(
            dst.len(),
            |i: int|
                {
                    let px = i % dw;
                    let py = i / dw;
                    if cx <= px < cx + (s1 - s0) && cy <= py < cy + (t1 - t0) {
                        src[(s0 + px - cx) + (t0 + py - cy) * sw]
                    } else {
                        dst[i]
                    }
                },
        )
    }
}

/// Calls `DrawTarget::new`: a `width` by `height` target whose pixels are all
/// zero, plain, with no clip pushed. raqote computes `width * height` in `i32`
/// and allocates that many pixels, so the product must fit and be no less than
/// zero (both sizes may be negative).
#[verifier::external_body]
pub(crate) fn new_target(width: i32, height: i32) -> (dt: DrawTarget)
    requires
        0 <= width * height <= i32::MAX,
    ensures
        target_layout(dt) == (width as int, height as int, Seq::<(int, int, int, int)>::empty(), true),
        target_pixels(dt) == Seq::new((width * height) as nat, |i: int| 0u32),
{
    DrawTarget::new(width, height)
}

/// Calls `DrawTarget::get_data`: the target's pixel buffer.
#[verifier::external_body]
pub(crate) fn target_data(dt: &DrawTarget) -> (data: &[u32])
    ensures
        data@ == target_pixels(*dt),
{
    dt.get_data()
}

/// Calls `DrawTarget::copy_surface` with the rectangle `[x0, x1) x [y0, y1)` of
/// `src` and the destination point `(to_x, to_y)`; the effect on the pixels is
/// `copy_region_result`, and the layout of `dst` is kept. raqote moves the
/// clipped rectangle by the destination point and back in `i32`, so those sums
/// must fit, also where the far edge is cut to a destination of negative size.
/// Both buffers must hold `width * height` pixels, as raqote indexes their rows
/// by its own width.
#[verifier::external_body]
pub(crate) fn copy_region(
    dst: &mut DrawTarget,
    src: &DrawTarget,
    x0: i32,
    y0: i32,
    x1: i32,
    y1: i32,
    to_x: i32,
    to_y: i32,
)
    requires
        target_sized(*old(dst)),
        target_sized(*src),
        to_x > i32::MIN,
        to_y > i32::MIN,
        fits_i32(imax(x0 as int, 0) + to_x),
        fits_i32(imin(x1 as int, target_width(*src)) + to_x),
        fits_i32(imax(y0 as int, 0) + to_y),
        fits_i32(imin(y1 as int, target_height(*src)) + to_y),
        fits_i32(imin(target_width(*old(dst)), imin(x1 as int, target_width(*src)) + to_x) - to_x),
        fits_i32(imin(target_height(*old(dst)), imin(y1 as int, target_height(*src)) + to_y) - to_y),
    ensures
        target_layout(*final(dst)) == target_layout(*old(dst)),
        target_pixels(*final(dst)) == copy_region_result(
            target_pixels(*old(dst)),
            target_width(*old(dst)),
            target_height(*old(dst)),
            target_pixels(*src),
            target_width(*src),
            target_height(*src),
            x0 as int,
            y0 as int,
            x1 as int,
            y1 as int,
            to_x as int,
            to_y as int,
        ),
{
    dst.copy_surface(src, IntRect::new(IntPoint::new(x0, y0), IntPoint::new(x1, y1)), IntPoint::new(to_x, to_y))
}

/// Calls `DrawTarget::clear` with the colour `a, r, g, b` (taken as already
/// premultiplied); the layout is kept. With no clip pushed every pixel becomes
/// `argb(a, r, g, b)`. Under a clip raqote fills the rectangle `(0, 0, width,
/// height)` through its rasterizer with the `Src` blend: no pixel outside the
/// clip rectangle in force is written. The rasterizer holds sizes in 30.2 and
/// 16.16 fixed point in `i32`; at a height or width of `2^29` it wraps and then
/// fails an overflow check or a debug assertion, and a negative height makes
/// its reset slice out of bounds. So under a clip the target must be empty in
/// height or at most `0x7fff` in each size, where the edges fit its fixed
/// point. There the rasterizer covers each pixel of that rectangle fully, so on
/// a plain target each pixel inside the clip becomes `argb(a, r, g, b)`; on a
/// target with a layer or a path clip what those pixels then hold is left
/// unsaid.
#[verifier::external_body]
pub(crate) fn clear_target(dt: &mut DrawTarget, a: u8, r: u8, g: u8, b: u8)
    requires
        target_clips(*old(dt)) > 0 ==> target_height(*old(dt)) == 0 || 0 <= target_width(*old(dt)) <= 0x7fff
            && 0 <= target_height(*old(dt)) <= 0x7fff,
    ensures
        target_layout(*final(dt)) == target_layout(*old(dt)),
        target_pixels(*final(dt)).len() == target_pixels(*old(dt)).len(),
        target_clips(*old(dt)) == 0 ==> target_pixels(*final(dt)) == Seq::new(
            target_pixels(*old(dt)).len(),
            |i: int| argb(a, r, g, b),
        ),
        target_clips(*old(dt)) > 0 && target_wf(*old(dt)) ==> forall|i: int|
            0 <= i < target_pixels(*old(dt)).len() && !in_clip(
                target_clip_stack(*old(dt)).last(),
                i % target_width(*old(dt)),
                i / target_width(*old(dt)),
            ) ==> #[trigger] target_pixels(*final(dt))[i] == target_pixels(*old(dt))[i],
        target_clips(*old(dt)) > 0 && target_wf(*old(dt)) && target_plain(*old(dt)) ==> forall|i: int|
            0 <= i < target_pixels(*old(dt)).len() && in_clip(
                target_clip_stack(*old(dt)).last(),
                i % target_width(*old(dt)),
                i / target_width(*old(dt)),
            ) ==> #[trigger] target_pixels(*final(dt))[i] == argb(a, r, g, b),
{
    dt.clear(SolidSource { r, g, b, a })
}

/// Calls `DrawTarget::push_clip_rect` with `[x0, x1) x [y0, y1)`: the rectangle,
/// cut to the clip in force before, is pushed; the pixels, the size and
/// plainness are kept.
#[verifier::external_body]
pub(crate) fn push_clip(dt: &mut DrawTarget, x0: i32, y0: i32, x1: i32, y1: i32)
    ensures
        target_pixels(*final(dt)) == target_pixels(*old(dt)),
        target_layout(*final(dt)) == (
            target_width(*old(dt)),
            target_height(*old(dt)),
            pushed_clips(target_clip_stack(*old(dt)), (x0 as int, y0 as int, x1 as int, y1 as int)),
            target_plain(*old(dt)),
        ),
{
    dt.push_clip_rect(IntRect::new(IntPoint::new(x0, y0), IntPoint::new(x1, y1)))
}

/// Calls `DrawTarget::pop_clip`: the last clip is dropped, if there is one; the
/// pixels and the size are kept, and a plain target stays plain.
#[verifier::external_body]
pub(crate) fn pop_clip(dt: &mut DrawTarget)
    ensures
        target_pixels(*final(dt)) == target_pixels(*old(dt)),
        target_width(*final(dt)) == target_width(*old(dt)),
        target_height(*final(dt)) == target_height(*old(dt)),
        target_clip_stack(*final(dt)) == popped_clips(target_clip_stack(*old(dt))),
        target_plain(*old(dt)) ==> target_plain(*final(dt)),
{
    dt.pop_clip()
}

} // verus!
