use rusty_puzzles::frame::argb_to_rgba;

#[test]
fn pixels_become_rgba_bytes() {
    let src = [0x11223344u32, 0xff000080];
    let mut dst = [0u8; 8];
    argb_to_rgba(&src, &mut dst);
    assert_eq!(dst, [0x22, 0x33, 0x44, 0x11, 0x00, 0x00, 0x80, 0xff]);
}

#[test]
fn short_frame_copies_what_fits() {
    let src = [0xaabbccddu32, 0x01020304, 0x05060708];
    let mut dst = [9u8; 7];
    argb_to_rgba(&src, &mut dst);
    assert_eq!(dst, [0xbb, 0xcc, 0xdd, 0xaa, 9, 9, 9]);
}

#[test]
fn long_frame_keeps_trailing_bytes() {
    let src = [0x80402010u32];
    let mut dst = [7u8; 9];
    argb_to_rgba(&src, &mut dst);
    assert_eq!(dst, [0x40, 0x20, 0x10, 0x80, 7, 7, 7, 7, 7]);
}

#[test]
fn empty_source_changes_nothing() {
    let mut dst = [5u8; 4];
    argb_to_rgba(&[], &mut dst);
    assert_eq!(dst, [5, 5, 5, 5]);
}

#[test]
fn background_colour_reaches_window_opaque() {
    use_drawing_background();
}

fn use_drawing_background() {
    let mut d = rusty_puzzles::drawing::Drawing::new(2, 1);
    d.set_colours(vec![rusty_puzzles::drawing::PuzColor { r: 0x12, g: 0x34, b: 0x56 }]);
    d.clear();
    let mut bytes = [0u8; 8];
    argb_to_rgba(d.frame(), &mut bytes);
    assert_eq!(bytes, [0x12, 0x34, 0x56, 0xff, 0x12, 0x34, 0x56, 0xff]);
}
