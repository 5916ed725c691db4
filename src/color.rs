use vstd::prelude::*;
use vstd::string::StringSliceAdditionalSpecFns;

verus! {

/// A pixel colour with 8-bit red, green, blue and alpha channels.
pub trait Color {
    /// The four channels of this colour.
    spec fn channels(&self) -> Rgba;

    fn red(&self) -> (r: u8)
        ensures
            r == self.channels().red,
    ;

    fn green(&self) -> (r: u8)
        ensures
            r == self.channels().green,
    ;

    fn blue(&self) -> (r: u8)
        ensures
            r == self.channels().blue,
    ;

    fn alpha(&self) -> (r: u8)
        ensures
            r == self.channels().alpha,
    ;
}

/// An explicit red, green, blue, alpha colour.
#[derive(Clone, Copy, Debug, PartialEq, Eq, Structural)]
pub struct Rgba {
    pub red: u8,
    pub green: u8,
    pub blue: u8,
    pub alpha: u8,
}

impl Rgba {
    pub fn new(red: u8, green: u8, blue: u8, alpha: u8) -> (r: Self)
        ensures
            r == (Rgba { red, green, blue, alpha }),
    {
        Rgba { red, green, blue, alpha }
    }
}

/// A grey level: red, green and blue all equal `scale`, fully opaque.
#[derive(Clone, Copy, Debug, PartialEq, Eq, Structural)]
pub struct Grayscale {
    scale: u8,
}

impl Grayscale {
    /// The grey level.
    pub closed spec fn spec_scale(&self) -> u8 {
        self.scale
    }

    pub fn new(scale: u8) -> (r: Self)
        ensures
            r.spec_scale() == scale,
            r.channels() == (Rgba { red: scale, green: scale, blue: scale, alpha: 255 }),
    {
        Grayscale { scale }
    }
}

impl Color for Grayscale {
    open spec fn channels(&self) -> Rgba {
        Rgba {
            red: self.spec_scale(),
            green: self.spec_scale(),
            blue: self.spec_scale(),
            alpha: 255,
        }
    }

    fn red(&self) -> (r: u8) {
        self.scale
    }

    fn green(&self) -> (r: u8) {
        self.scale
    }

    fn blue(&self) -> (r: u8) {
        self.scale
    }

    fn alpha(&self) -> (r: u8) {
        255
    }
}

impl Color for Rgba {
    open spec fn channels(&self) -> Rgba {
        *self
    }

    fn red(&self) -> (r: u8) {
        self.red
    }

    fn green(&self) -> (r: u8) {
        self.green
    }

    fn blue(&self) -> (r: u8) {
        self.blue
    }

    fn alpha(&self) -> (r: u8) {
        self.alpha
    }
}

/// Why a colour string was refused.
#[derive(Clone, Copy, Debug, PartialEq, Eq, Structural)]
pub enum ColorErr {
    /// The string is not 4, 7 or 9 bytes long.
    Format,
    /// A red, green or blue field holds a byte that is not a hex digit.
    ParseIntErr,
}

/// The value of one ASCII hex digit, either case.
pub open spec fn hex_digit(b: u8) -> Option<u8> {
    if 48 <= b <= 57 {
        Some((b - 48) as u8)
    } else if 97 <= b <= 102 {
        Some((b - 87) as u8)
    } else if 65 <= b <= 70 {
        Some((b - 55) as u8)
    } else {
        None
    }
}

/// The byte written by two hex digits, high digit first.
pub open spec fn hex_pair(hi: u8, lo: u8) -> Option<u8> {
    match (hex_digit(hi), hex_digit(lo)) {
        (Some(h), Some(l)) => Some((16 * h + l) as u8),
        _ => None,
    }
}

/// What a colour string denotes. Its first byte is skipped unread. With 4
/// bytes each of the next three is one channel and holds the digit's value
/// itself (0 to 15); with 7 or 9 bytes the channels are pairs of digits, and
/// a ninth-byte alpha that does not parse counts as 255.
pub open spec fn parse_rgba(s: Seq<u8>) -> Result<Rgba, ColorErr> {
    if s.len() == 4 {
        match (hex_digit(s[1]), hex_digit(s[2]), hex_digit(s[3])) {
            (Some(r), Some(g), Some(b)) => Ok(Rgba { red: r, green: g, blue: b, alpha: 255 }),
            _ => Err(ColorErr::ParseIntErr),
        }
    } else if s.len() == 7 || s.len() == 9 {
        match (hex_pair(s[1], s[2]), hex_pair(s[3], s[4]), hex_pair(s[5], s[6])) {
            (Some(r), Some(g), Some(b)) => {
                let a = if s.len() == 9 {
                    match hex_pair(s[7], s[8]) {
                        Some(a) => a,
                        None => 255u8,
                    }
                } else {
                    255u8
                };
                Ok(Rgba { red: r, green: g, blue: b, alpha: a })
            },
            _ => Err(ColorErr::ParseIntErr),
        }
    } else {
        Err(ColorErr::Format)
    }
}

fn hex_value(b: u8) -> (r: Option<u8>)
    ensures
        r == hex_digit(b),
{
    if 48 <= b && b <= 57 {
        Some(b - 48)
    } else if 97 <= b && b <= 102 {
        Some(b - 87)
    } else if 65 <= b && b <= 70 {
        Some(b - 55)
    } else {
        None
    }
}

fn hex_byte(hi: u8, lo: u8) -> (r: Option<u8>)
    ensures
        r == hex_pair(hi, lo),
{
    match (hex_value(hi), hex_value(lo)) {
        (Some(h), Some(l)) => Some(16 * h + l),
        _ => None,
    }
}

impl Rgba {
    /// Parses `#rgb`, `#rrggbb` or `#rrggbbaa`; see `parse_rgba`.
    pub fn from_str(s: &str) -> (r: Result<Rgba, ColorErr>)
        ensures
            r == parse_rgba(s.spec_bytes()),
    {
        let b = s.as_bytes();
        let n = b.len();
        if n == 4 {
            match (hex_value(b[1]), hex_value(b[2]), hex_value(b[3])) {
                (Some(r), Some(g), Some(bl)) => Ok(Rgba { red: r, green: g, blue: bl, alpha: 255 }),
                _ => Err(ColorErr::ParseIntErr),
            }
        } else if n == 7 || n == 9 {
            match (hex_byte(b[1], b[2]), hex_byte(b[3], b[4]), hex_byte(b[5], b[6])) {
                (Some(r), Some(g), Some(bl)) => {
                    let a = if n == 9 {
                        match hex_byte(b[7], b[8]) {
                            Some(a) => a,
                            None => 255u8,
                        }
                    } else {
                        255u8
                    };
                    Ok(Rgba { red: r, green: g, blue: bl, alpha: a })
                },
                _ => Err(ColorErr::ParseIntErr),
            }
        } else {
            Err(ColorErr::Format)
        }
    }
}

impl core::str::FromStr for Rgba {
    type Err = ColorErr;

    fn from_str(s: &str) -> Result<Rgba, ColorErr> {
        Rgba::from_str(s)
    }
}

} // verus!
