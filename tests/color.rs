use pixel_demo::color::{Color, ColorErr, Grayscale, Rgba};

fn rgba(red: u8, green: u8, blue: u8, alpha: u8) -> Rgba {
    Rgba::new(red, green, blue, alpha)
}

#[test]
fn short_form_keeps_digit_values() {
    assert_eq!(Rgba::from_str("#fff"), Ok(rgba(15, 15, 15, 255)));
    assert_eq!(Rgba::from_str("#1a9"), Ok(rgba(1, 10, 9, 255)));
}

#[test]
fn six_digit_form() {
    assert_eq!(Rgba::from_str("#ffffff"), Ok(rgba(255, 255, 255, 255)));
    assert_eq!(Rgba::from_str("#5bcefa"), Ok(rgba(0x5b, 0xce, 0xfa, 255)));
    assert_eq!(Rgba::from_str("#F5A9B8"), Ok(rgba(0xf5, 0xa9, 0xb8, 255)));
}

#[test]
fn eight_digit_form_reads_alpha() {
    assert_eq!(Rgba::from_str("#ff000080"), Ok(rgba(255, 0, 0, 128)));
    assert_eq!(Rgba::from_str("#00000000"), Ok(rgba(0, 0, 0, 0)));
}

#[test]
fn malformed_alpha_is_opaque() {
    assert_eq!(Rgba::from_str("#102030zz"), Ok(rgba(0x10, 0x20, 0x30, 255)));
}

#[test]
fn wrong_length_is_format_error() {
    assert_eq!(Rgba::from_str("#12"), Err(ColorErr::Format));
    assert_eq!(Rgba::from_str(""), Err(ColorErr::Format));
    assert_eq!(Rgba::from_str("#12345"), Err(ColorErr::Format));
    assert_eq!(Rgba::from_str("#1234567890"), Err(ColorErr::Format));
}

#[test]
fn bad_digit_is_parse_error() {
    assert_eq!(Rgba::from_str("#zzzzzz"), Err(ColorErr::ParseIntErr));
    assert_eq!(Rgba::from_str("#ffg"), Err(ColorErr::ParseIntErr));
    assert_eq!(Rgba::from_str("#+fffff"), Err(ColorErr::ParseIntErr));
    assert_eq!(Rgba::from_str("#gg0000ff"), Err(ColorErr::ParseIntErr));
}

#[test]
fn parse_through_from_str_trait() {
    let c: Rgba = "#0a0b0c".parse().unwrap();
    assert_eq!(c, rgba(10, 11, 12, 255));
}

#[test]
fn channels_of_rgba_and_grayscale() {
    let c = rgba(1, 2, 3, 4);
    assert_eq!((c.red(), c.green(), c.blue(), c.alpha()), (1, 2, 3, 4));
    let g = Grayscale::new(77);
    assert_eq!((g.red(), g.green(), g.blue(), g.alpha()), (77, 77, 77, 255));
}
