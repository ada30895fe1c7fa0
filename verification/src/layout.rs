//! Geometry the front end works out for the midend: how text is anchored, the
//! outline of a polygon, whether a shape is filled, and how the window's size
//! relates to the puzzle's.
use vstd::prelude::*;
use crate::drawing::STATUS_BAR_HEIGHT;

verus! {

/// Alignment flag: centre the text vertically on the given point.
pub const ALIGN_VCENTRE: i32 = 0x100;

/// Alignment flag: centre the text horizontally on the given point.
pub const ALIGN_HCENTRE: i32 = 0x001;

/// Alignment flag: end the text at the given point.
pub const ALIGN_HRIGHT: i32 = 0x002;

/// The colour index the midend passes when a shape has no fill.
pub const NO_FILL: i32 = -1;

/// Where text starts horizontally relative to its anchor point.
#[derive(Debug, Clone, Copy, PartialEq, Eq, Structural)]
pub enum HAlign {
    Left,
    Centre,
    Right,
}

/// Where text sits vertically relative to its anchor point.
#[derive(Debug, Clone, Copy, PartialEq, Eq, Structural)]
pub enum VAlign {
    Baseline,
    Centre,
}

pub open spec fn has_flag(align: i32, flag: i32) -> bool {
    align & flag != 0
}

/// The alignment the midend's flags ask for: horizontal centring wins over
/// right alignment, and text is left aligned on its baseline otherwise.
pub fn text_alignment(align: i32) -> (a: (HAlign, VAlign))
    ensures
        a.0 == (if has_flag(align, ALIGN_HCENTRE) {
            HAlign::Centre
        } else if has_flag(align, ALIGN_HRIGHT) {
            HAlign::Right
        } else {
            HAlign::Left
        }),
        a.1 == (if has_flag(align, ALIGN_VCENTRE) {
            VAlign::Centre
        } else {
            VAlign::Baseline
        }),
        (a.1 == VAlign::Centre) <==> (align & 0x100 != 0),
        (a.0 == HAlign::Centre) <==> (align & 0x001 != 0),
        (a.0 == HAlign::Right) <==> (align & 0x001 == 0 && align & 0x002 != 0),
        (a.0 == HAlign::Left) <==> (align & 0x003 == 0),
{
    let h = if align & ALIGN_HCENTRE != 0 {
        HAlign::Centre
    } else if align & ALIGN_HRIGHT != 0 {
        HAlign::Right
    } else {
        HAlign::Left
    };
    assert(align & 0x003 == 0 <==> (align & 0x001 == 0 && align & 0x002 == 0)) by (bit_vector);
    let v = if align & ALIGN_VCENTRE != 0 {
        VAlign::Centre
    } else {
        VAlign::Baseline
    };
    (h, v)
}

/// A flag is set in `align` exactly when its bit is: vertical centring by
/// `0x100`, horizontal centring by `0x001` and right alignment by `0x002`,
/// whatever the other bits hold.
pub proof fn lemma_alignment_flags(align: i32)
    ensures
        has_flag(align, ALIGN_VCENTRE) <==> align & 0x100 != 0,
        has_flag(align, ALIGN_HCENTRE) <==> align & 0x001 != 0,
        has_flag(align, ALIGN_HRIGHT) <==> align & 0x002 != 0,
        align & 0x100 != 0 <==> (align | 0x003) & 0x100 != 0,
{
    assert(align & 0x100 != 0 <==> (align | 0x003) & 0x100 != 0) by (bit_vector);
}

/// Whether a shape drawn with fill colour `fillcolour` is filled.
pub fn is_filled(fillcolour: i32) -> (b: bool)
    ensures
        b == (fillcolour != NO_FILL),
{
    fillcolour != NO_FILL
}

/// The number of corners read from the midend for a polygon of `npoints`
/// points: the first corner is always read.
pub open spec fn corners(npoints: i32) -> int {
    if npoints >= 1 { npoints as int } else { 1 }
}

/// A polygon of `npoints` corners has them all read, and one at least.
pub proof fn lemma_corners(npoints: i32)
    ensures
        npoints >= 1 ==> corners(npoints) == npoints,
        npoints < 1 ==> corners(npoints) == 1,
        corners(npoints) >= 1,
{
}

/// The closed outline of the polygon whose corners are the pairs
/// `(coords[2k], coords[2k + 1])`: each corner in order, then the first again.
pub fn polygon_outline(coords: &[i32], npoints: i32) -> (path: Vec<(i32, i32)>)
    requires
        coords@.len() >= 2 * corners(npoints),
    ensures
        path@.len() == corners(npoints) + 1,
        forall|k: int| 0 <= k < corners(npoints) ==> #[trigger] path@[k] == (coords@[2 * k], coords@[2 * k + 1]),
        path@[corners(npoints)] == (coords@[0], coords@[1]),
        npoints >= 1 ==> path@.len() == npoints + 1,
        npoints >= 1 ==> forall|k: int| 0 <= k < npoints ==> #[trigger] path@[k] == (coords@[2 * k], coords@[2 * k + 1]),
        npoints >= 1 ==> path@[npoints as int] == path@[0],
        npoints < 1 ==> path@ == seq![(coords@[0], coords@[1]), (coords@[0], coords@[1])],
{
    let mut path: Vec<(i32, i32)> = Vec::new();
    let start = (coords[0], coords[1]);
    path.push(start);
    let mut i: i32 = 1;
    while i < npoints
        invariant
            1 <= i,
            i <= corners(npoints),
            coords@.len() >= 2 * corners(npoints),
            start == (coords@[0], coords@[1]),
            path@.len() == i,
            forall|k: int| 0 <= k < i ==> #[trigger] path@[k] == (coords@[2 * k], coords@[2 * k + 1]),
        decreases npoints - i,
    {
        let k = i as usize;
        path.push((coords[2 * k], coords[2 * k + 1]));
        i = i + 1;
    }
    path.push(start);
    path
}

/// `v` read as an `i32`, as `v as i32` does.
pub open spec fn as_i32(v: u32) -> int {
    if v <= i32::MAX { v as int } else { v - 0x1_0000_0000 }
}

/// `v` read as a `u32`, as `v as u32` does.
pub open spec fn as_u32(v: i32) -> int {
    if v >= 0 { v as int } else { v + 0x1_0000_0000 }
}

/// The rows the status bar takes, if there is one.
pub open spec fn bar_rows(status_bar: bool) -> int {
    if status_bar { STATUS_BAR_HEIGHT as int } else { 0 }
}

/// The size offered to the midend for a `width` by `height` window: the
/// status bar's rows, when the puzzle has a status bar, are not the puzzle's.
pub fn puzzle_area(width: u32, height: u32, status_bar: bool) -> (area: (i32, i32))
    requires
        as_i32(height) - bar_rows(status_bar) >= i32::MIN,
    ensures
        area.0 == as_i32(width),
        area.1 == as_i32(height) - bar_rows(status_bar),
{
    let x = width as i32;
    let mut y = height as i32;
    assert(x as int == as_i32(width)) by (bit_vector)
        requires
            x == width as i32,
    ;
    assert(y as int == as_i32(height)) by (bit_vector)
        requires
            y == height as i32,
    ;
    if status_bar {
        y = y - STATUS_BAR_HEIGHT;
    }
    (x, y)
}

/// The window size for the puzzle area `(x, y)` the midend settled on: the
/// status bar's rows are added back below the puzzle.
pub fn window_size(x: i32, y: i32, status_bar: bool) -> (size: (u32, u32))
    requires
        y + bar_rows(status_bar) <= i32::MAX,
    ensures
        size.0 == as_u32(x),
        size.1 == as_u32((y + bar_rows(status_bar)) as i32),
{
    let mut y = y;
    if status_bar {
        y = y + STATUS_BAR_HEIGHT;
    }
    let w = x as u32;
    let h = y as u32;
    assert(w as int == as_u32(x)) by (bit_vector)
        requires
            w == x as u32,
    ;
    assert(h as int == as_u32(y)) by (bit_vector)
        requires
            h == y as u32,
    ;
    (w, h)
}

/// Offering the midend the area of a window and adding the status bar back
/// to the area it settles on gives the window's size again, when the midend
/// keeps the area it was offered.
pub proof fn lemma_size_round_trip(width: u32, height: u32, status_bar: bool)
    requires
        width <= i32::MAX,
        height <= i32::MAX,
    ensures
        ({
            let x = as_i32(width);
            let y = as_i32(height) - bar_rows(status_bar);
            &&& y >= i32::MIN
            &&& y + bar_rows(status_bar) <= i32::MAX
            &&& as_u32(x as i32) == width
            &&& as_u32((y + bar_rows(status_bar)) as i32) == height
        }),
{
}

} // verus!
