use rusty_puzzles::drawing::{Drawing, PuzColor, STATUS_BAR_HEIGHT};
use raqote::{DrawOptions, SolidSource, Source};

fn numbered(w: u32, h: u32) -> Drawing {
    let mut d = Drawing::new(w, h);
    for (i, p) in d.target_mut().get_data_mut().iter_mut().enumerate() {
        *p = i as u32 + 1;
    }
    d
}

#[test]
fn new_drawing_is_blank() {
    let d = Drawing::new(3, 2);
    assert_eq!(d.frame(), &[0u32; 6][..]);
    assert_eq!((d.width(), d.height()), (3, 2));
    assert_eq!(d.num_colours(), 0);
    assert!(d.status_text().is_none());
}

#[test]
fn set_size_replaces_surface() {
    let mut d = numbered(2, 2);
    d.set_colours(vec![PuzColor { r: 1, g: 2, b: 3 }]);
    d.set_size(4, 1);
    assert_eq!(d.frame(), &[0u32; 4][..]);
    assert_eq!(d.num_colours(), 1);
}

#[test]
fn clear_fills_with_first_colour() {
    let mut d = numbered(2, 2);
    d.set_colours(vec![PuzColor { r: 0x10, g: 0x20, b: 0x30 }, PuzColor { r: 1, g: 1, b: 1 }]);
    d.clear();
    assert_eq!(d.frame(), &[0xff102030u32; 4][..]);
    assert_eq!(d.colour(1), PuzColor { r: 1, g: 1, b: 1 });
}

#[test]
fn clip_and_unclip_leave_pixels() {
    let mut d = numbered(3, 3);
    let before = d.frame().to_vec();
    d.clip(0, 0, 2, 2);
    d.unclip();
    d.unclip();
    assert_eq!(d.frame(), &before[..]);
}

#[test]
fn status_text_and_bar() {
    let mut d = Drawing::new(10, 100);
    d.set_status_text("Moves: 3".to_string());
    assert_eq!(d.status_text().map(|s| s.as_str()), Some("Moves: 3"));
    assert_eq!(d.status_bar_top(), 100 - STATUS_BAR_HEIGHT);
}

#[test]
fn blitter_round_trip_at_origin() {
    let mut d = numbered(4, 3);
    let before = d.frame().to_vec();
    let mut b = d.blitter_new(2, 2);
    assert_eq!(b.pixels(), &[0u32; 4][..]);
    d.blitter_save(&mut b, 0, 0);
    assert_eq!(b.pixels(), &[1u32, 2, 5, 6][..]);
    assert_eq!(d.frame(), &before[..]);
    for p in d.target_mut().get_data_mut().iter_mut() {
        *p = 0;
    }
    d.blitter_load(&mut b, 0, 0);
    assert_eq!(d.frame(), &[1u32, 2, 0, 0, 5, 6, 0, 0, 0, 0, 0, 0][..]);
    assert_eq!(b.pixels(), &[1u32, 2, 5, 6][..]);
}

#[test]
fn blitter_away_from_origin_saves_only_part() {
    // the saved rectangle is cut to the blitter's extent measured from the
    // drawing's origin: at (1, 0) only the first column is saved
    let mut d = numbered(4, 2);
    let mut b = d.blitter_new(2, 1);
    d.blitter_save(&mut b, 1, 0);
    assert_eq!(b.pixels(), &[2u32, 0][..]);
    for p in d.target_mut().get_data_mut().iter_mut() {
        *p = 9;
    }
    d.blitter_load(&mut b, 1, 0);
    assert_eq!(d.frame(), &[9u32, 2, 0, 9, 9, 9, 9, 9][..]);
}

#[test]
fn blitter_load_is_clipped_to_drawing() {
    let mut d = Drawing::new(3, 1);
    let mut src = numbered(2, 1);
    let mut b = src.blitter_new(2, 1);
    src.blitter_save(&mut b, 0, 0);
    d.blitter_load(&mut b, 2, 0);
    assert_eq!(d.frame(), &[0u32, 0, 1][..]);
    d.blitter_load(&mut b, -1, 0);
    assert_eq!(d.frame(), &[2u32, 0, 1][..]);
}

#[test]
fn fit_puzzle_gives_blank_background() {
    let mut d = numbered(2, 2);
    d.set_colours(vec![PuzColor { r: 0xe0, g: 0xe0, b: 0xe0 }]);
    assert_eq!(d.fit_puzzle(3, 1, true), (3, 31));
    assert_eq!((d.width(), d.height()), (3, 31));
    assert!(d.frame().iter().all(|&p| p == 0xffe0e0e0));
    assert_eq!(d.frame().len(), 93);
    assert_eq!(d.fit_puzzle(2, 2, false), (2, 2));
    assert_eq!(d.frame(), &[0xffe0e0e0u32; 4][..]);
}

#[test]
fn blitter_in_two_dimensions() {
    // 3 by 3 drawing numbered 1..=9, a 2 by 2 blitter saved at the origin
    let mut d = numbered(3, 3);
    let mut b = d.blitter_new(2, 2);
    d.blitter_save(&mut b, 0, 0);
    assert_eq!(b.pixels(), &[1u32, 2, 4, 5][..]);
    let mut e = Drawing::new(3, 3);
    e.blitter_load(&mut b, 1, 1);
    assert_eq!(e.frame(), &[0u32, 0, 0, 0, 1, 2, 0, 4, 5][..]);
    let mut f = Drawing::new(3, 3);
    f.blitter_load(&mut b, 0, -1);
    assert_eq!(f.frame(), &[4u32, 5, 0, 0, 0, 0, 0, 0, 0][..]);
    // saved at (0, 1): only the first row is cut to the blitter's height
    let mut c = d.blitter_new(2, 2);
    d.blitter_save(&mut c, 0, 1);
    assert_eq!(c.pixels(), &[4u32, 5, 0, 0][..]);
}

#[test]
fn clip_restricts_painting_until_lifted() {
    let mut d = Drawing::new(3, 3);
    let red = Source::Solid(SolidSource { r: 0xff, g: 0, b: 0, a: 0xff });
    d.clip(1, 1, 1, 1);
    d.target_mut().fill_rect(0., 0., 3., 3., &red, &DrawOptions::new());
    assert_eq!(d.frame(), &[0u32, 0, 0, 0, 0xffff0000, 0, 0, 0, 0][..]);
    d.unclip();
    d.target_mut().fill_rect(0., 0., 3., 3., &red, &DrawOptions::new());
    assert_eq!(d.frame(), &[0xffff0000u32; 9][..]);
}

#[test]
fn blitter_reports_its_size() {
    let mut d = Drawing::new(1, 1);
    let b = d.blitter_new(3, 4);
    assert_eq!((b.width(), b.height()), (3, 4));
    assert_eq!(b.pixels().len(), 12);
}

#[test]
fn clear_under_clip_fills_only_the_clip() {
    let mut d = numbered(4, 3);
    d.set_colours(vec![PuzColor { r: 0x10, g: 0x20, b: 0x30 }]);
    d.clip(1, 1, 2, 5);
    d.clear();
    let c = 0xff102030u32;
    assert_eq!(d.frame(), &[1, 2, 3, 4, 5, c, c, 8, 9, c, c, 12][..]);
    d.unclip();
    d.clear();
    assert_eq!(d.frame(), &[c; 12][..]);
}

#[test]
fn nested_clips_meet() {
    let mut d = numbered(4, 4);
    d.set_colours(vec![PuzColor { r: 0xff, g: 0, b: 0 }]);
    d.clip(0, 0, 3, 3);
    d.clip(2, 2, 2, 2);
    d.clear();
    let mut want: Vec<u32> = (1..=16).collect();
    want[2 + 2 * 4] = 0xffff0000;
    assert_eq!(d.frame(), &want[..]);
    d.unclip();
    d.clear();
    for y in 0..3 {
        for x in 0..3 {
            want[x + y * 4] = 0xffff0000;
        }
    }
    assert_eq!(d.frame(), &want[..]);
}

#[test]
fn clear_under_clip_outside_the_drawing_keeps_all() {
    let mut d = numbered(3, 2);
    let before = d.frame().to_vec();
    d.set_colours(vec![PuzColor { r: 1, g: 2, b: 3 }]);
    d.clip(5, 0, 2, 2);
    d.clear();
    assert_eq!(d.frame(), &before[..]);
}

#[test]
fn blitter_of_negative_size_holds_nothing() {
    let mut d = numbered(3, 3);
    let before = d.frame().to_vec();
    let mut b = d.blitter_new(-2, -3);
    assert_eq!((b.width(), b.height()), (-2, -3));
    assert_eq!(b.pixels().len(), 6);
    d.blitter_save(&mut b, 1, 1);
    assert_eq!(b.pixels(), &[0u32; 6][..]);
    d.blitter_load(&mut b, 1, 1);
    assert_eq!(d.frame(), &before[..]);
}

#[test]
fn sizes_are_read_as_i32() {
    let d = Drawing::new(0x8000_0005, 0);
    assert_eq!((d.width(), d.height()), (0x8000_0005, 0));
    assert!(d.frame().is_empty());
    let d = Drawing::new(u32::MAX, u32::MAX);
    assert_eq!(d.frame(), &[0u32][..]);
}

#[test]
fn fit_puzzle_reads_negative_sizes_as_raqote_does() {
    let mut d = Drawing::new(1, 1);
    d.set_colours(vec![PuzColor { r: 9, g: 8, b: 7 }]);
    assert_eq!(d.fit_puzzle(-1, -1, false), (u32::MAX, u32::MAX));
    assert_eq!(d.frame(), &[0xff090807u32][..]);
    assert_eq!(d.fit_puzzle(3, 2, false), (3, 2));
    assert_eq!(d.frame(), &[0xff090807u32; 6][..]);
}

#[test]
fn status_bar_top_of_short_drawing() {
    let d = Drawing::new(4, 10);
    assert_eq!(d.status_bar_top(), 10 - STATUS_BAR_HEIGHT);
}

#[test]
fn clear_under_clip_of_drawing_without_rows() {
    let mut d = Drawing::new(100_000, 0);
    d.set_colours(vec![PuzColor { r: 1, g: 2, b: 3 }]);
    d.clip(0, 0, 1, 1);
    d.clear();
    assert!(d.frame().is_empty());
}
