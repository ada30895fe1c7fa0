//! Conversion of the drawing's pixels into the byte layout of the window's
//! frame buffer.
use vstd::prelude::*;
use crate::drawing::PuzColor;
use crate::surface::argb;

verus! {

/// The bytes red, green, blue, alpha of an `0xAARRGGBB` pixel.
pub open spec fn rgba_bytes(p: u32) -> Seq<u8> {
    seq![(p / 0x10000 % 0x100) as u8, (p / 0x100 % 0x100) as u8, (p % 0x100) as u8, (p / 0x1000000) as u8]
}

/// How many pixels are copied: one per source pixel, as long as the frame
/// has room for all four bytes of it.
pub open spec fn copied_pixels(src_len: int, dst_len: int) -> int {
    if src_len <= dst_len / 4 { src_len } else { dst_len / 4 }
}

/// Writes the pixels of `src` (each `0xAARRGGBB`) into `dst` as bytes red,
/// green, blue, alpha, four bytes per pixel, for as many pixels as both hold;
/// the bytes after them are left as they were.
pub fn argb_to_rgba(src: &[u32], dst: &mut [u8])
    ensures
        final(dst)@.len() == old(dst)@.len(),
        forall|k: int, j: int|
            0 <= k < copied_pixels(src@.len() as int, old(dst)@.len() as int) && 0 <= j < 4 ==> #[trigger] final(dst)@[4 * k + j]
                == rgba_bytes(src@[k])[j],
        forall|i: int|
            4 * copied_pixels(src@.len() as int, old(dst)@.len() as int) <= i < old(dst)@.len() ==> #[trigger] final(dst)@[i]
                == old(dst)@[i],
{
    let n = if src.len() <= dst.len() / 4 { src.len() } else { dst.len() / 4 };
    let mut k: usize = 0;
    while k < n
        invariant
            n == copied_pixels(src@.len() as int, old(dst)@.len() as int),
            k <= n,
            dst@.len() == old(dst)@.len(),
            forall|k2: int, j: int| 0 <= k2 < k && 0 <= j < 4 ==> #[trigger] dst@[4 * k2 + j] == rgba_bytes(src@[k2])[j],
            forall|i: int| 4 * k <= i < dst@.len() ==> #[trigger] dst@[i] == old(dst)@[i],
        decreases n - k,
    {
        let p = src[k];
        let r = #[verifier::truncate] ((p >> 16) as u8);
        let g = #[verifier::truncate] ((p >> 8) as u8);
        let b = #[verifier::truncate] (p as u8);
        let a = #[verifier::truncate] ((p >> 24) as u8);
        assert(r == (p / 0x10000 % 0x100) as u8 && g == (p / 0x100 % 0x100) as u8 && b == (p % 0x100) as u8 && a
            == (p / 0x1000000) as u8) by (bit_vector)
            requires
                r == (p >> 16) as u8,
                g == (p >> 8) as u8,
                b == p as u8,
                a == (p >> 24) as u8,
        ;
        assert(4 * k + 3 < dst.len());
        dst[4 * k] = r;
        dst[4 * k + 1] = g;
        dst[4 * k + 2] = b;
        dst[4 * k + 3] = a;
        assert forall|k2: int, j: int| 0 <= k2 < k + 1 && 0 <= j < 4 implies #[trigger] dst@[4 * k2 + j] == rgba_bytes(
            src@[k2],
        )[j] by {
            if k2 == k {
                assert(0 <= j < 4);
            }
        }
        k = k + 1;
    }
}

/// A pixel painted fully opaque in palette colour `c` reaches the window as
/// the bytes of `c` followed by an opaque alpha.
pub proof fn lemma_opaque_colour_bytes(c: PuzColor)
    ensures
        rgba_bytes(argb(0xff, c.r, c.g, c.b)) == seq![c.r, c.g, c.b, 0xffu8],
{
    let r = c.r;
    let g = c.g;
    let b = c.b;
    let p = argb(0xff, r, g, b);
    assert(p == 0xff000000u32 + r as u32 * 0x10000u32 + g as u32 * 0x100u32 + b as u32);
    assert(p / 0x10000 % 0x100 == r && p / 0x100 % 0x100 == g && p % 0x100 == b && p / 0x1000000 == 0xff) by (bit_vector)
        requires
            p == 0xff000000u32 + r as u32 * 0x10000u32 + g as u32 * 0x100u32 + b as u32,
    ;
    assert(rgba_bytes(p) =~= seq![r, g, b, 0xffu8]);
}

} // verus!
