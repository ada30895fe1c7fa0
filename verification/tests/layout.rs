use rusty_puzzles::layout::{
    is_filled, polygon_outline, puzzle_area, text_alignment, window_size, HAlign, VAlign, ALIGN_HCENTRE,
    ALIGN_HRIGHT, ALIGN_VCENTRE, NO_FILL,
};

#[test]
fn alignment_flags() {
    assert_eq!(text_alignment(0), (HAlign::Left, VAlign::Baseline));
    assert_eq!(text_alignment(ALIGN_HCENTRE), (HAlign::Centre, VAlign::Baseline));
    assert_eq!(text_alignment(ALIGN_HRIGHT | ALIGN_VCENTRE), (HAlign::Right, VAlign::Centre));
    // centring wins over right alignment
    assert_eq!(text_alignment(ALIGN_HCENTRE | ALIGN_HRIGHT), (HAlign::Centre, VAlign::Baseline));
    assert_eq!(text_alignment(0x101), (HAlign::Centre, VAlign::Centre));
}

#[test]
fn fill_colour_minus_one_means_outline_only() {
    assert_eq!(NO_FILL, -1);
    assert!(!is_filled(-1));
    assert!(is_filled(0));
    assert!(is_filled(7));
}

#[test]
fn polygon_outline_closes_the_shape() {
    let coords = [0, 0, 10, 0, 10, 5];
    assert_eq!(polygon_outline(&coords, 3), vec![(0, 0), (10, 0), (10, 5), (0, 0)]);
}

#[test]
fn degenerate_polygon_still_reads_first_corner() {
    let coords = [4, 9];
    assert_eq!(polygon_outline(&coords, 0), vec![(4, 9), (4, 9)]);
    assert_eq!(polygon_outline(&coords, 1), vec![(4, 9), (4, 9)]);
}

#[test]
fn status_bar_rows_are_not_the_puzzles() {
    assert_eq!(puzzle_area(800, 800, true), (800, 770));
    assert_eq!(puzzle_area(800, 800, false), (800, 800));
    assert_eq!(window_size(640, 610, true), (640, 640));
    assert_eq!(window_size(640, 610, false), (640, 610));
}

#[test]
fn size_round_trip() {
    for (w, h) in [(800u32, 800u32), (1, 10), (300, 29)] {
        for bar in [true, false] {
            let (x, y) = puzzle_area(w, h, bar);
            assert_eq!(window_size(x, y, bar), (w, h));
        }
    }
}

#[test]
fn sizes_wrap_like_casts() {
    assert_eq!(puzzle_area(u32::MAX, 5, false), (-1, 5));
    assert_eq!(window_size(-1, -31, true), (u32::MAX, u32::MAX));
}
