use pixel_demo::color::Rgba;
use pixel_demo::flag::{color_line, draw};
use pixel_demo::frame::Frame;

fn row_is(frame: &Frame, row: usize, c: [u8; 4]) -> bool {
    let w = frame.width() as usize;
    let p = frame.pixels();
    (0..w).all(|x| {
        let i = 4 * (x + w * row);
        p[i..i + 4] == c
    })
}

#[test]
fn flag_bands_for_480_rows() {
    let mut f = Frame::new(720, 480);
    draw(&mut f);
    let blue = [0x5b, 0xce, 0xfa, 255];
    let pink = [0xf5, 0xa9, 0xb8, 255];
    let white = [255, 255, 255, 255];
    for row in 0..480 {
        let expected = match row {
            0..=95 | 384..=479 => blue,
            96..=191 | 288..=383 => pink,
            _ => white,
        };
        assert!(row_is(&f, row, expected), "row {}", row);
    }
}

#[test]
fn flag_leaves_remainder_rows() {
    let mut f = Frame::new(3, 7);
    draw(&mut f);
    assert!(row_is(&f, 0, [0x5b, 0xce, 0xfa, 255]));
    assert!(row_is(&f, 2, [255, 255, 255, 255]));
    assert!(row_is(&f, 4, [0x5b, 0xce, 0xfa, 255]));
    assert!(row_is(&f, 5, [0, 0, 0, 0]));
    assert!(row_is(&f, 6, [0, 0, 0, 0]));
}

#[test]
fn color_line_fills_one_band() {
    let mut f = Frame::new(2, 10);
    color_line(&mut f, 4, Rgba::new(1, 2, 3, 4));
    for row in 0..10 {
        let expected = if (4..6).contains(&row) { [1, 2, 3, 4] } else { [0, 0, 0, 0] };
        assert!(row_is(&f, row, expected), "row {}", row);
    }
}
