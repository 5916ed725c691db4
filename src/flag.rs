use vstd::prelude::*;
use crate::color::Rgba;
use crate::frame::{lemma_with_pixel, pixel_of, Frame, FrameView};

verus! {

pub open spec fn light_blue() -> Rgba {
    Rgba { red: 0x5b, green: 0xce, blue: 0xfa, alpha: 255 }
}

pub open spec fn pink() -> Rgba {
    Rgba { red: 0xf5, green: 0xa9, blue: 0xb8, alpha: 255 }
}

pub open spec fn white() -> Rgba {
    Rgba { red: 255, green: 255, blue: 255, alpha: 255 }
}

/// `after` is `before` with the cells in `[start, end)` set to `color`.
pub open spec fn filled(before: FrameView, after: FrameView, start: int, end: int, color: Rgba) -> bool {
    &&& after.wf()
    &&& after.width == before.width
    &&& after.height == before.height
    &&& after.background == before.background
    &&& forall|j: int|
        0 <= j < before.cells() ==> #[trigger] after.pixel(j) == (if start <= j < end {
            color
        } else {
            before.pixel(j)
        })
}

/// Paints the band of `height / 5` rows that starts at row `stripe`, across
/// the whole width.
pub fn color_line(frame: &mut Frame, stripe: u32, color: Rgba)
    requires
        old(frame)@.wf(),
        stripe + old(frame)@.height / 5 <= old(frame)@.height,
    ensures
        filled(
            old(frame)@,
            final(frame)@,
            stripe * old(frame)@.width,
            (stripe + old(frame)@.height / 5) * old(frame)@.width,
            color,
        ),
{
    let ghost before = frame@;
    let w = frame.width() as usize;
    let h = frame.height();
    let fifth: u32 = h / 5;
    let total: usize = frame.pixels().len();
    proof {
        assert(4 * before.cells() == total);
        assert((stripe + fifth) * w <= h * w) by (nonlinear_arith)
            requires
                stripe + fifth <= h,
                w >= 0,
        ;
        assert(stripe * w <= (stripe + fifth) * w) by (nonlinear_arith)
            requires
                w >= 0,
        ;
        assert(before.cells() == h * w) by (nonlinear_arith)
            requires
                before.cells() == w * h,
        ;
    }
    let start: usize = stripe as usize * w;
    let end: usize = (stripe + fifth) as usize * w;
    let mut i: usize = start;
    while i < end
        invariant
            start <= i <= end,
            end <= before.cells(),
            start == stripe * before.width,
            end == (stripe + fifth) * before.width,
            fifth == before.height / 5,
            filled(before, frame@, start as int, i as int, color),
        decreases end - i,
    {
        let ghost mid = frame@;
        let _ = frame.set_by_index(i, color);
        proof {
            assert forall|j: int| 0 <= j < before.cells() implies #[trigger] frame@.pixel(j) == (
            if start <= j < i + 1 {
                color
            } else {
                before.pixel(j)
            }) by {
                lemma_with_pixel(mid.bytes, i as int, color, j);
                assert(mid.pixel(j) == pixel_of(mid.bytes, j));
            }
        }
        i = i + 1;
    }
}

/// `after` holds the five bands over `before`: each `height / 5` rows high,
/// light blue, pink, white, pink, light blue from the top; rows below the
/// fifth band keep what they had.
pub open spec fn flag_drawn(before: FrameView, after: FrameView) -> bool {
    let band = (before.height / 5) * before.width;
    &&& after.wf()
    &&& after.width == before.width
    &&& after.height == before.height
    &&& after.background == before.background
    &&& forall|j: int|
        0 <= j < before.cells() ==> #[trigger] after.pixel(j) == (if j < band {
            light_blue()
        } else if j < 2 * band {
            pink()
        } else if j < 3 * band {
            white()
        } else if j < 4 * band {
            pink()
        } else if j < 5 * band {
            light_blue()
        } else {
            before.pixel(j)
        })
}

/// Paints the five-band flag over the frame.
pub fn draw(frame: &mut Frame)
    requires
        old(frame)@.wf(),
    ensures
        flag_drawn(old(frame)@, final(frame)@),
{
    let ghost f0 = frame@;
    let fifth: u32 = frame.height() / 5;
    let ghost band = fifth * f0.width;
    let (blue_hex, pink_hex, white_hex) = ("#5bcefa", "#f5a9b8", "#ffffff");
    proof {
        reveal_strlit("#5bcefa");
        reveal_strlit("#f5a9b8");
        reveal_strlit("#ffffff");
        vstd::string::is_ascii_spec_bytes(blue_hex);
        vstd::string::is_ascii_spec_bytes(pink_hex);
        vstd::string::is_ascii_spec_bytes(white_hex);
        let w = f0.width as int;
        let t = fifth as int;
        assert((t + t) * w == 2 * (t * w)) by (nonlinear_arith);
        assert((t * 2 + t) * w == 3 * (t * w)) by (nonlinear_arith);
        assert((t * 3 + t) * w == 4 * (t * w)) by (nonlinear_arith);
        assert((t * 4 + t) * w == 5 * (t * w)) by (nonlinear_arith);
        assert((t * 2) * w == 2 * (t * w)) by (nonlinear_arith);
        assert((t * 3) * w == 3 * (t * w)) by (nonlinear_arith);
        assert((t * 4) * w == 4 * (t * w)) by (nonlinear_arith);
    }
    let first = Rgba::from_str(blue_hex).unwrap();
    let second = Rgba::from_str(pink_hex).unwrap();
    let third = Rgba::from_str(white_hex).unwrap();
    color_line(frame, 0, first);
    color_line(frame, fifth, second);
    color_line(frame, fifth * 2, third);
    color_line(frame, fifth * 3, second);
    color_line(frame, fifth * 4, first);
    proof {
        assert forall|j: int| 0 <= j < f0.cells() implies #[trigger] frame@.pixel(j) == (if j
            < band {
            light_blue()
        } else if j < 2 * band {
            pink()
        } else if j < 3 * band {
            white()
        } else if j < 4 * band {
            pink()
        } else if j < 5 * band {
            light_blue()
        } else {
            f0.pixel(j)
        }) by {}
    }
}

} // verus!
