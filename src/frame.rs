use vstd::prelude::*;
use crate::color::{Color, Rgba};

verus! {

/// What a `Frame` holds: its size in cells, its RGBA bytes (four per cell,
/// cell `x + width * y` at byte `4 * (x + width * y)`), and the colour shown
/// around the buffer when it is presented.
pub struct FrameView {
    pub width: u32,
    pub height: u32,
    pub bytes: Seq<u8>,
    pub background: Rgba,
}

impl FrameView {
    /// The number of cells.
    pub open spec fn cells(self) -> int {
        self.width * self.height
    }

    /// Four bytes for each cell.
    pub open spec fn wf(self) -> bool {
        self.bytes.len() == 4 * self.cells()
    }

    /// The colour of cell `i`.
    pub open spec fn pixel(self, i: int) -> Rgba {
        pixel_of(self.bytes, i)
    }
}

/// The colour stored in cell `i` of `bytes`.
pub open spec fn pixel_of(bytes: Seq<u8>, i: int) -> Rgba {
    Rgba { red: bytes[4 * i], green: bytes[4 * i + 1], blue: bytes[4 * i + 2], alpha: bytes[4 * i + 3] }
}

/// `bytes` with cell `i` set to `c`.
pub open spec fn with_pixel(bytes: Seq<u8>, i: int, c: Rgba) -> Seq<u8> {
    bytes.update(4 * i, c.red).update(4 * i + 1, c.green).update(4 * i + 2, c.blue).update(
        4 * i + 3,
        c.alpha,
    )
}

/// `bytes` cut or extended with zeros to length `n`.
pub open spec fn resized(bytes: Seq<u8>, n: int) -> Seq<u8> {
    Seq::new(n as nat, |i: int| if i < bytes.len() { bytes[i] } else { 0u8 })
}

/// Whether a buffer of `width * height` cells fits in memory.
pub open spec fn fits(width: u32, height: u32) -> bool {
    4 * (width * height) <= usize::MAX
}

/// Opaque black, the background of a frame that was given none.
pub open spec fn black() -> Rgba {
    Rgba { red: 0, green: 0, blue: 0, alpha: 255 }
}

/// Why a frame operation was refused.
#[derive(Clone, Copy, Debug, PartialEq, Eq, Structural)]
pub enum FrameErr {
    /// The cell index is not below `width * height`.
    OutOfBounds,
    /// A buffer of the requested size would not fit in memory.
    TooLarge,
}

/// A `width` by `height` framebuffer of RGBA cells, stored row after row.
pub struct Frame {
    width: u32,
    height: u32,
    buffer: Vec<u8>,
    background: Rgba,
}

impl View for Frame {
    type V = FrameView;

    closed spec fn view(&self) -> FrameView {
        FrameView {
            width: self.width,
            height: self.height,
            bytes: self.buffer@,
            background: self.background,
        }
    }
}

/// Writing cell `i` changes that cell and no other.
pub proof fn lemma_with_pixel(bytes: Seq<u8>, i: int, c: Rgba, j: int)
    requires
        0 <= i,
        0 <= j,
        4 * i + 4 <= bytes.len(),
        4 * j + 4 <= bytes.len(),
    ensures
        with_pixel(bytes, i, c).len() == bytes.len(),
        pixel_of(with_pixel(bytes, i, c), j) == (if j == i {
            c
        } else {
            pixel_of(bytes, j)
        }),
{
}

/// The number of bytes for `width * height` cells, if that fits in `usize`.
fn byte_len(width: u32, height: u32) -> (r: Option<usize>)
    ensures
        r == (if fits(width, height) {
            Some((4 * (width * height)) as usize)
        } else {
            None::<usize>
        }),
{
    match (width as usize).checked_mul(height as usize) {
        Some(c) => c.checked_mul(4),
        None => {
            assert(4 * (width * height) > usize::MAX) by (nonlinear_arith)
                requires
                    width * height > usize::MAX,
            ;
            None
        },
    }
}

/// `n` zero bytes.
fn zeroed(n: usize) -> (r: Vec<u8>)
    ensures
        r@ == Seq::new(n as nat, |i: int| 0u8),
{
    let mut v: Vec<u8> = Vec::new();
    let mut k: usize = 0;
    while k < n
        invariant
            k <= n,
            v@ == Seq::new(k as nat, |i: int| 0u8),
        decreases n - k,
    {
        v.push(0);
        k = k + 1;
    }
    v
}

impl Frame {
    /// A frame of `width * height` cells, every byte zero, on a black
    /// background.
    pub fn new(width: u32, height: u32) -> (r: Frame)
        requires
            fits(width, height),
        ensures
            r@ == (FrameView {
                width,
                height,
                bytes: Seq::new((4 * (width * height)) as nat, |i: int| 0u8),
                background: black(),
            }),
            r@.wf(),
    {
        let n = byte_len(width, height).unwrap();
        Frame { width, height, buffer: zeroed(n), background: Rgba::new(0, 0, 0, 255) }
    }

    pub fn width(&self) -> (r: u32)
        ensures
            r == self@.width,
    {
        self.width
    }

    pub fn height(&self) -> (r: u32)
        ensures
            r == self@.height,
    {
        self.height
    }

    /// The colour shown around the buffer.
    pub fn background(&self) -> (r: Rgba)
        ensures
            r == self@.background,
    {
        self.background
    }

    /// The RGBA bytes, four per cell.
    pub fn pixels(&self) -> (r: &[u8])
        ensures
            r@ == self@.bytes,
    {
        self.buffer.as_slice()
    }

    /// Writes `color` into cell `index`.
    fn put<C: Color>(&mut self, index: usize, color: &C)
        requires
            old(self)@.wf(),
            index < old(self)@.cells(),
        ensures
            final(self)@ == (FrameView {
                bytes: with_pixel(old(self)@.bytes, index as int, color.channels()),
                ..old(self)@
            }),
    {
        let len = self.buffer.len();
        assert(4 * index + 4 <= len);
        let base: usize = 4 * index;
        self.buffer.set(base, color.red());
        self.buffer.set(base + 1, color.green());
        self.buffer.set(base + 2, color.blue());
        self.buffer.set(base + 3, color.alpha());
    }

    /// Sets cell `x + width * y` to `color`. A column past the right edge
    /// runs on into the next row; fails, changing nothing, when the index is
    /// not below `width * height`.
    pub fn set(&mut self, width: usize, height: usize, color: &impl Color) -> (r: Result<(), FrameErr>)
        requires
            old(self)@.wf(),
        ensures
            final(self)@.wf(),
            width + old(self)@.width * height < old(self)@.cells() ==> r == Ok::<(), FrameErr>(())
                && final(self)@ == (FrameView {
                bytes: with_pixel(
                    old(self)@.bytes,
                    width + old(self)@.width * height,
                    color.channels(),
                ),
                ..old(self)@
            }),
            width + old(self)@.width * height >= old(self)@.cells() ==> r == Err::<(), FrameErr>(
                FrameErr::OutOfBounds,
            ) && final(self)@ == old(self)@,
    {
        let w = self.width as usize;
        let cells = self.buffer.len() / 4;
        if height >= self.height as usize {
            assert(width + self.width * height >= self.width * self.height) by (nonlinear_arith)
                requires
                    height >= self.height,
                    width >= 0,
                    self.width >= 0,
            ;
            return Err(FrameErr::OutOfBounds);
        }
        assert(self.width * height <= self.width * self.height) by (nonlinear_arith)
            requires
                height < self.height,
                self.width >= 0,
        ;
        let row_start: usize = w * height;
        if width >= cells - row_start {
            return Err(FrameErr::OutOfBounds);
        }
        self.put(width + row_start, color);
        Ok(())
    }

    /// Sets cell `index` to `color`; fails, changing nothing, when there is
    /// no such cell.
    pub fn set_by_index(&mut self, index: usize, color: impl Color) -> (r: Result<(), FrameErr>)
        requires
            old(self)@.wf(),
        ensures
            final(self)@.wf(),
            final(self)@.width == old(self)@.width,
            final(self)@.height == old(self)@.height,
            final(self)@.background == old(self)@.background,
            index < old(self)@.cells() ==> r == Ok::<(), FrameErr>(())
                && final(self)@.bytes == with_pixel(old(self)@.bytes, index as int, color.channels()),
            index >= old(self)@.cells() ==> r == Err::<(), FrameErr>(FrameErr::OutOfBounds)
                && final(self)@ == old(self)@,
    {
        if index >= self.buffer.len() / 4 {
            return Err(FrameErr::OutOfBounds);
        }
        self.put(index, &color);
        Ok(())
    }

    /// The colour of cell `x + width * y`, or `None` when there is no such
    /// cell.
    pub fn get_rgba(&self, idx: (usize, usize)) -> (r: Option<Rgba>)
        requires
            self@.wf(),
        ensures
            r == (if idx.0 + self@.width * idx.1 < self@.cells() {
                Some(self@.pixel(idx.0 + self@.width * idx.1))
            } else {
                None::<Rgba>
            }),
    {
        let cells = self.buffer.len() / 4;
        if idx.1 >= self.height as usize {
            assert(idx.0 + self.width * idx.1 >= self.width * self.height) by (nonlinear_arith)
                requires
                    idx.1 >= self.height,
                    idx.0 >= 0,
                    self.width >= 0,
            ;
            return None;
        }
        assert(self.width * idx.1 <= self.width * self.height) by (nonlinear_arith)
            requires
                idx.1 < self.height,
                self.width >= 0,
        ;
        let row_start: usize = self.width as usize * idx.1;
        if idx.0 >= cells - row_start {
            return None;
        }
        let base: usize = 4 * (idx.0 + row_start);
        Some(
            Rgba {
                red: self.buffer[base],
                green: self.buffer[base + 1],
                blue: self.buffer[base + 2],
                alpha: self.buffer[base + 3],
            },
        )
    }

    /// Gives the buffer `width * height` cells, keeping the bytes that both
    /// sizes have and zeroing any new ones; fails, changing nothing, when
    /// that many cells would not fit in memory.
    pub fn resize_buffer(&mut self, width: u32, height: u32) -> (r: Result<(), FrameErr>)
        requires
            old(self)@.wf(),
        ensures
            final(self)@.wf(),
            fits(width, height) ==> r == Ok::<(), FrameErr>(()) && final(self)@ == (FrameView {
                width,
                height,
                bytes: resized(old(self)@.bytes, 4 * (width * height)),
                background: old(self)@.background,
            }),
            !fits(width, height) ==> r == Err::<(), FrameErr>(FrameErr::TooLarge) && final(self)@
                == old(self)@,
    {
        let n = match byte_len(width, height) {
            Some(n) => n,
            None => {
                return Err(FrameErr::TooLarge);
            },
        };
        let mut bytes: Vec<u8> = Vec::new();
        let mut k: usize = 0;
        while k < n
            invariant
                k <= n,
                bytes@ == resized(self.buffer@, k as int),
            decreases n - k,
        {
            let b = if k < self.buffer.len() {
                self.buffer[k]
            } else {
                0
            };
            bytes.push(b);
            k = k + 1;
            assert(bytes@ =~= resized(self.buffer@, k as int));
        }
        self.width = width;
        self.height = height;
        self.buffer = bytes;
        Ok(())
    }
}

/// Why a frame could not be built.
#[derive(Clone, Copy, Debug, PartialEq, Eq, Structural)]
#[non_exhaustive]
pub enum FrameBuilderErr {
    /// No surface to present the frame on was given.
    MissingSurface,
    /// A buffer of the requested size would not fit in memory.
    BufferTooLarge,
}

/// Collects what a frame is made from: its size, the surface it will be
/// presented on, and an optional background colour.
pub struct FrameBuilder<S> {
    pub width: u32,
    pub height: u32,
    pub surface: Option<S>,
    pub background: Option<Rgba>,
}

impl<S> FrameBuilder<S> {
    pub fn new(width: u32, height: u32) -> (r: Self)
        ensures
            r.width == width,
            r.height == height,
            r.surface is None,
            r.background is None,
    {
        FrameBuilder { width, height, surface: None, background: None }
    }

    pub fn with_surface(self, surface: S) -> (r: Self)
        ensures
            r == (FrameBuilder { surface: Some(surface), ..self }),
    {
        FrameBuilder { surface: Some(surface), ..self }
    }

    pub fn with_background(self, color: impl Color) -> (r: Self)
        ensures
            r == (FrameBuilder { background: Some(color.channels()), ..self }),
    {
        let c = Rgba {
            red: color.red(),
            green: color.green(),
            blue: color.blue(),
            alpha: color.alpha(),
        };
        FrameBuilder { background: Some(c), ..self }
    }

    /// The frame, all bytes zero, on the chosen background (opaque black
    /// when none was chosen), together with its surface.
    pub fn build(self) -> (r: Result<(Frame, S), FrameBuilderErr>)
        ensures
            self.surface is None ==> r == Err::<(Frame, S), FrameBuilderErr>(
                FrameBuilderErr::MissingSurface,
            ),
            self.surface is Some && !fits(self.width, self.height) ==> r == Err::<
                (Frame, S),
                FrameBuilderErr,
            >(FrameBuilderErr::BufferTooLarge),
            self.surface is Some && fits(self.width, self.height) ==> r is Ok && r->Ok_0.1
                == self.surface->Some_0 && r->Ok_0.0@ == (FrameView {
                width: self.width,
                height: self.height,
                bytes: Seq::new((4 * (self.width * self.height)) as nat, |i: int| 0u8),
                background: match self.background {
                    Some(c) => c,
                    None => black(),
                },
            }) && r->Ok_0.0@.wf(),
    {
        let surface = match self.surface {
            Some(s) => s,
            None => {
                return Err(FrameBuilderErr::MissingSurface);
            },
        };
        let n = match byte_len(self.width, self.height) {
            Some(n) => n,
            None => {
                return Err(FrameBuilderErr::BufferTooLarge);
            },
        };
        let background = match self.background {
            Some(c) => c,
            None => {
                let dark = "#000";
                proof {
                    reveal_strlit("#000");
                    vstd::string::is_ascii_spec_bytes(dark);
                }
                match Rgba::from_str(dark) {
                    Ok(c) => c,
                    Err(_) => Rgba::new(0, 0, 0, 255),
                }
            },
        };
        let frame = Frame { width: self.width, height: self.height, buffer: zeroed(n), background };
        Ok((frame, surface))
    }
}

} // verus!
