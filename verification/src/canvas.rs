//! Colours, the pixel canvas, and the bitmap byte layout.

use crate::maths::div_trunc;
use crate::maths::lemma_div_trunc_in_range;
use crate::maths::lemma_mul_bound;
use crate::maths::MathsError;
use vstd::prelude::*;

verus! {

/// One full intensity unit of a colour channel. Channels are counted in
/// fixed-point steps of one `COLOUR_SCALE`th of full intensity, so the step
/// is finer than any difference the engine's callers treat as meaningful.
pub const COLOUR_SCALE: i64 = 10_000_000_000;

/// A three-channel colour. Channels are exact fixed-point counts (see
/// `COLOUR_SCALE`), unbounded during computation; only the conversions to
/// packed eight-bit form ask for the nominal range, and nothing clamps:
/// keeping channels in range there is the caller's responsibility.
#[derive(Clone, Copy, Debug, PartialEq, Eq, Structural)]
pub struct Colour {
    pub red: i64,
    pub green: i64,
    pub blue: i64,
}

/// The packed eight-bit value of one channel: the channel scaled by 255
/// and truncated toward zero, exactly.
pub open spec fn chan255(c: i64) -> int {
    (c * 255) / (COLOUR_SCALE as int)
}

impl Colour {
    /// Every channel lies in the nominal range `[0, COLOUR_SCALE]`.
    pub open spec fn in_range(self) -> bool {
        &&& 0 <= self.red <= COLOUR_SCALE
        &&& 0 <= self.green <= COLOUR_SCALE
        &&& 0 <= self.blue <= COLOUR_SCALE
    }

    pub fn new(red: i64, green: i64, blue: i64) -> (r: Colour)
        ensures
            r == (Colour { red, green, blue }),
    {
        Colour { red, green, blue }
    }

    /// Component-wise sum.
    pub fn add(self, other: Colour) -> (r: Colour)
        requires
            i64::MIN <= self.red + other.red <= i64::MAX,
            i64::MIN <= self.green + other.green <= i64::MAX,
            i64::MIN <= self.blue + other.blue <= i64::MAX,
        ensures
            r.red == self.red + other.red,
            r.green == self.green + other.green,
            r.blue == self.blue + other.blue,
    {
        Colour {
            red: self.red + other.red,
            green: self.green + other.green,
            blue: self.blue + other.blue,
        }
    }

    /// Component-wise difference.
    pub fn sub(self, other: Colour) -> (r: Colour)
        requires
            i64::MIN <= self.red - other.red <= i64::MAX,
            i64::MIN <= self.green - other.green <= i64::MAX,
            i64::MIN <= self.blue - other.blue <= i64::MAX,
        ensures
            r.red == self.red - other.red,
            r.green == self.green - other.green,
            r.blue == self.blue - other.blue,
    {
        Colour {
            red: self.red - other.red,
            green: self.green - other.green,
            blue: self.blue - other.blue,
        }
    }

    /// One fixed-point product: `a * b` rescaled back by `COLOUR_SCALE`,
    /// truncated toward zero.
    fn scale_product(a: i64, b: i64) -> (r: i64)
        requires
            i64::MIN <= div_trunc(a * b, COLOUR_SCALE as int) <= i64::MAX,
        ensures
            r == div_trunc(a * b, COLOUR_SCALE as int),
    {
        proof {
            lemma_mul_bound(
                a as int,
                b as int,
                9_223_372_036_854_775_808,
                9_223_372_036_854_775_808,
            );
        }
        let p: i128 = (a as i128) * (b as i128);
        proof {
            lemma_div_trunc_in_range(p as int, COLOUR_SCALE as int);
        }
        let q: i128 = match p.checked_div(COLOUR_SCALE as i128) {
            Some(v) => v,
            None => 0,
        };
        q as i64
    }

    /// Hadamard product: channels multiplied pairwise in fixed point, used
    /// for blending a light's colour with a surface's.
    pub fn mul(self, other: Colour) -> (r: Colour)
        requires
            i64::MIN <= div_trunc(self.red * other.red, COLOUR_SCALE as int) <= i64::MAX,
            i64::MIN <= div_trunc(self.green * other.green, COLOUR_SCALE as int) <= i64::MAX,
            i64::MIN <= div_trunc(self.blue * other.blue, COLOUR_SCALE as int) <= i64::MAX,
        ensures
            r.red == div_trunc(self.red * other.red, COLOUR_SCALE as int),
            r.green == div_trunc(self.green * other.green, COLOUR_SCALE as int),
            r.blue == div_trunc(self.blue * other.blue, COLOUR_SCALE as int),
    {
        Colour {
            red: Self::scale_product(self.red, other.red),
            green: Self::scale_product(self.green, other.green),
            blue: Self::scale_product(self.blue, other.blue),
        }
    }

    /// Every channel multiplied by the fixed-point factor `s` (so
    /// `COLOUR_SCALE` leaves the colour unchanged).
    pub fn scale(self, s: i64) -> (r: Colour)
        requires
            i64::MIN <= div_trunc(self.red * s, COLOUR_SCALE as int) <= i64::MAX,
            i64::MIN <= div_trunc(self.green * s, COLOUR_SCALE as int) <= i64::MAX,
            i64::MIN <= div_trunc(self.blue * s, COLOUR_SCALE as int) <= i64::MAX,
        ensures
            r.red == div_trunc(self.red * s, COLOUR_SCALE as int),
            r.green == div_trunc(self.green * s, COLOUR_SCALE as int),
            r.blue == div_trunc(self.blue * s, COLOUR_SCALE as int),
    {
        Colour {
            red: Self::scale_product(self.red, s),
            green: Self::scale_product(self.green, s),
            blue: Self::scale_product(self.blue, s),
        }
    }

    /// One channel packed to eight bits: scaled by 255 and truncated toward
    /// zero, never rounded.
    fn to_255_u8(c: i64) -> (r: u8)
        requires
            0 <= c <= COLOUR_SCALE,
        ensures
            r == chan255(c),
    {
        proof {
            lemma_chan255_in_range(c);
        }
        let t: u64 = ((c as u64) * 255) / (COLOUR_SCALE as u64);
        t as u8
    }

    /// The colour packed into one 32-bit value: a fixed alpha of 255 in the
    /// low byte, then red, green and blue bytes upward. Channels outside
    /// `[0, COLOUR_SCALE]` are the caller's responsibility and are left out
    /// here.
    pub fn to_rgba(&self) -> (r: u32)
        requires
            self.in_range(),
        ensures
            r == chan255(self.red) * 0x100 + chan255(self.green) * 0x10000 + chan255(self.blue)
                * 0x1000000 + 255,
    {
        proof {
            lemma_chan255_in_range(self.red);
            lemma_chan255_in_range(self.green);
            lemma_chan255_in_range(self.blue);
        }
        let r8 = Self::to_255_u8(self.red);
        let g8 = Self::to_255_u8(self.green);
        let b8 = Self::to_255_u8(self.blue);
        (r8 as u32) * 0x100 + (g8 as u32) * 0x10000 + (b8 as u32) * 0x1000000 + 255
    }
}

/// A channel in the nominal range packs to a byte value.
proof fn lemma_chan255_in_range(c: i64)
    requires
        0 <= c <= COLOUR_SCALE,
    ensures
        0 <= chan255(c) <= 255,
{
    vstd::arithmetic::div_mod::lemma_div_pos_is_pos(c * 255, COLOUR_SCALE as int);
    vstd::arithmetic::div_mod::lemma_div_is_ordered(
        c * 255,
        (COLOUR_SCALE as int) * 255,
        COLOUR_SCALE as int,
    );
    vstd::arithmetic::div_mod::lemma_div_by_multiple(255, COLOUR_SCALE as int);
}

/// Zero-byte padding that brings a row of `w` three-byte pixels up to a
/// multiple of four bytes.
pub open spec fn pad_spec(w: int) -> int {
    (4 - (w * 3) % 4) % 4
}

/// Bytes in one padded pixel row.
pub open spec fn row_len_spec(w: int) -> int {
    w * 3 + pad_spec(w)
}

/// Bytes in the pixel array of a bitmap of `w` by `h` pixels.
pub open spec fn bmp_size_spec(w: int, h: int) -> int {
    row_len_spec(w) * h
}

/// The four little-endian bytes of `v`.
pub open spec fn le4(v: int) -> Seq<u8> {
    seq![
        (v % 256) as u8,
        ((v / 256) % 256) as u8,
        ((v / 65536) % 256) as u8,
        ((v / 16777216) % 256) as u8,
    ]
}

/// The two little-endian bytes of `v`.
pub open spec fn le2(v: int) -> Seq<u8> {
    seq![(v % 256) as u8, ((v / 256) % 256) as u8]
}

/// A two-dimensional buffer of colours, addressed by `(x, y)` with `x`
/// running along a row. Rows are stored consecutively in one vector.
pub struct Canvas {
    width: usize,
    height: usize,
    pixels: Vec<Colour>,
}

impl Canvas {
    /// Well-formed: the buffer holds exactly one colour per coordinate.
    pub closed spec fn wf(self) -> bool {
        self.pixels@.len() == self.width * self.height
    }

    /// Number of columns.
    pub closed spec fn width_spec(self) -> int {
        self.width as int
    }

    /// Number of rows.
    pub closed spec fn height_spec(self) -> int {
        self.height as int
    }

    /// The colour at `(x, y)`.
    pub closed spec fn pixel_spec(self, x: int, y: int) -> Colour {
        self.pixels@[y * self.width + x]
    }

    /// Every pixel's channels lie in the nominal range `[0, COLOUR_SCALE]`.
    pub closed spec fn pixels_in_range(self) -> bool {
        forall|i: int| 0 <= i < self.pixels@.len() ==> (#[trigger] self.pixels@[i]).in_range()
    }

    /// A fresh canvas of the given size with every pixel black.
    pub fn new(width: usize, height: usize) -> (r: Canvas)
        requires
            width * height <= usize::MAX,
        ensures
            r.wf(),
            r.width_spec() == width,
            r.height_spec() == height,
            r.pixels_in_range(),
            forall|x: int, y: int|
                0 <= x < width && 0 <= y < height ==> r.pixel_spec(x, y) == (Colour {
                    red: 0,
                    green: 0,
                    blue: 0,
                }),
    {
        let n: usize = width * height;
        let mut pixels: Vec<Colour> = Vec::new();
        while pixels.len() < n
            invariant
                pixels@.len() <= n,
                forall|i: int|
                    0 <= i < pixels@.len() ==> pixels@[i] == (Colour { red: 0, green: 0, blue: 0 }),
            decreases n - pixels.len(),
        {
            pixels.push(Colour { red: 0, green: 0, blue: 0 });
        }
        let r = Canvas { width, height, pixels };
        proof {
            assert forall|x: int, y: int|
                0 <= x < width && 0 <= y < height implies r.pixel_spec(x, y) == (Colour {
                red: 0,
                green: 0,
                blue: 0,
            }) by {
                lemma_pixel_index(x, y, width as int, height as int);
            }
        }
        r
    }

    /// The colour at `(x, y)`, or `IndexOutOfRange` outside the canvas.
    pub fn pixel_at(&self, x: usize, y: usize) -> (r: Result<Colour, MathsError>)
        requires
            self.wf(),
        ensures
            x < self.width_spec() && y < self.height_spec() ==> r == Ok::<Colour, MathsError>(
                self.pixel_spec(x as int, y as int),
            ),
            x >= self.width_spec() || y >= self.height_spec() ==> r == Err::<Colour, MathsError>(
                MathsError::IndexOutOfRange,
            ),
    {
        if x < self.width && y < self.height {
            let _len: usize = self.pixels.len();
            proof {
                lemma_pixel_index(x as int, y as int, self.width as int, self.height as int);
            }
            Ok(self.pixels[y * self.width + x])
        } else {
            Err(MathsError::IndexOutOfRange)
        }
    }

    /// Paints the pixel at `(x, y)`, or fails with `IndexOutOfRange` leaving
    /// the canvas unchanged.
    pub fn write_pixel(&mut self, x: usize, y: usize, c: Colour) -> (r: Result<(), MathsError>)
        requires
            old(self).wf(),
        ensures
            final(self).wf(),
            final(self).width_spec() == old(self).width_spec(),
            final(self).height_spec() == old(self).height_spec(),
            x < old(self).width_spec() && y < old(self).height_spec() ==> r == Ok::<
                (),
                MathsError,
            >(()) && final(self).pixel_spec(x as int, y as int) == c && forall|a: int, b: int|
                0 <= a < old(self).width_spec() && 0 <= b < old(self).height_spec() && !(a == x && b
                    == y) ==> final(self).pixel_spec(a, b) == old(self).pixel_spec(a, b),
            x >= old(self).width_spec() || y >= old(self).height_spec() ==> r == Err::<
                (),
                MathsError,
            >(MathsError::IndexOutOfRange) && *final(self) == *old(self),
    {
        if x < self.width && y < self.height {
            let _len: usize = self.pixels.len();
            proof {
                lemma_pixel_index(x as int, y as int, self.width as int, self.height as int);
            }
            let idx: usize = y * self.width + x;
            self.pixels.set(idx, c);
            proof {
                assert forall|a: int, b: int|
                    0 <= a < self.width_spec() && 0 <= b < self.height_spec() && !(a == x && b == y)
                    implies self.pixel_spec(a, b) == old(self).pixel_spec(a, b) by {
                    lemma_pixel_index(a, b, self.width as int, self.height as int);
                    lemma_pixel_index_injective(
                        a,
                        b,
                        x as int,
                        y as int,
                        self.width as int,
                        self.height as int,
                    );
                }
            }
            Ok(())
        } else {
            Err(MathsError::IndexOutOfRange)
        }
    }

    /// True exactly when every pixel's channels lie in the nominal range,
    /// so that the canvas can be packed to bytes.
    pub fn pixels_representable(&self) -> (r: bool)
        requires
            self.wf(),
        ensures
            r == self.pixels_in_range(),
    {
        let mut k: usize = 0;
        while k < self.pixels.len()
            invariant
                k <= self.pixels@.len(),
                forall|i: int| 0 <= i < k ==> (#[trigger] self.pixels@[i]).in_range(),
            decreases self.pixels@.len() - k,
        {
            let p = self.pixels[k];
            if !(p.red >= 0 && p.red <= COLOUR_SCALE && p.green >= 0 && p.green <= COLOUR_SCALE
                && p.blue >= 0 && p.blue <= COLOUR_SCALE) {
                return false;
            }
            k += 1;
        }
        true
    }

    /// The bytes of one padded pixel row: for each pixel its blue, green
    /// and red packed bytes in that order, then zero bytes up to a multiple
    /// of four.
    pub open spec fn row_spec(self, y: int) -> Seq<u8> {
        Seq::new(
            row_len_spec(self.width_spec()) as nat,
            |i: int|
                if i < self.width_spec() * 3 {
                    self.pixel_byte(y, i)
                } else {
                    0u8
                },
        )
    }

    /// Byte `i` of the unpadded row `y`: pixel `i / 3`, channel blue, green
    /// or red as `i % 3` is zero, one or two.
    pub open spec fn pixel_byte(self, y: int, i: int) -> u8 {
        let p = self.pixel_spec(i / 3, y);
        if i % 3 == 0 {
            chan255(p.blue) as u8
        } else if i % 3 == 1 {
            chan255(p.green) as u8
        } else {
            chan255(p.red) as u8
        }
    }

    /// The first `y` padded pixel rows, top to bottom.
    pub open spec fn rows_spec(self, y: int) -> Seq<u8>
        decreases y,
    {
        if y <= 0 {
            Seq::empty()
        } else {
            self.rows_spec(y - 1) + self.row_spec(y - 1)
        }
    }

    /// The 54 header bytes: the bitmap file header (signature, file size,
    /// four reserved zero bytes, pixel-array offset 54), then the DIB
    /// header (size 40, signed width and height, one plane, 24 bits per
    /// pixel, uncompressed, pixel-array size, 2835 pixels per metre on both
    /// axes, and two unused zero fields).
    pub open spec fn header_spec(self) -> Seq<u8> {
        seq![0x42u8, 0x4du8] + le4(54 + bmp_size_spec(self.width_spec(), self.height_spec())) + le4(
            0,
        ) + le4(54) + le4(40) + le4(self.width_spec()) + le4(self.height_spec()) + le2(1) + le2(24)
            + le4(0) + le4(bmp_size_spec(self.width_spec(), self.height_spec())) + le4(2835) + le4(
            2835,
        ) + le4(0) + le4(0)
    }

    /// The whole 24-bit bitmap file: header, then the padded pixel rows in
    /// the order they are iterated.
    pub open spec fn bmp_spec(self) -> Seq<u8> {
        self.header_spec() + self.rows_spec(self.height_spec())
    }

    /// Zero bytes needed to pad one pixel row to a multiple of four bytes.
    pub fn bmp_padding(&self) -> (r: usize)
        ensures
            r == pad_spec(self.width_spec()),
    {
        proof {
            vstd::arithmetic::div_mod::lemma_mul_mod_noop_left(
                self.width as int,
                3,
                4,
            );
        }
        let rem: usize = (self.width % 4) * 3 % 4;
        if rem == 0 {
            0
        } else {
            4 - rem
        }
    }

    /// Bytes in the pixel array: the padded row length times the number of
    /// rows.
    pub fn bmp_size(&self) -> (r: u64)
        requires
            self.width_spec() <= 0x7FFF_FFFF,
            self.height_spec() <= 0x7FFF_FFFF,
        ensures
            r == bmp_size_spec(self.width_spec(), self.height_spec()),
    {
        let pad: usize = self.bmp_padding();
        let row: u64 = (self.width as u64) * 3 + (pad as u64);
        proof {
            lemma_mul_bound(row as int, self.height as int, 6_442_450_944, 2_147_483_647);
        }
        row * (self.height as u64)
    }

    /// The canvas serialized as a 24-bit bitmap file, byte for byte.
    #[verifier::rlimit(60)]
    pub fn to_bmp(&self) -> (r: Vec<u8>)
        requires
            self.wf(),
            self.pixels_in_range(),
            self.width_spec() <= 0x7FFF_FFFF,
            self.height_spec() <= 0x7FFF_FFFF,
            54 + bmp_size_spec(self.width_spec(), self.height_spec()) <= 0xFFFF_FFFF,
            54 + bmp_size_spec(self.width_spec(), self.height_spec()) <= usize::MAX,
        ensures
            r@ == self.bmp_spec(),
    {
        let size: u64 = self.bmp_size();
        let file_size: u32 = 54 + (size as u32);
        let mut out: Vec<u8> = Vec::new();
        out.push(0x42);
        out.push(0x4d);
        push_le4(&mut out, file_size);
        push_le4(&mut out, 0);
        push_le4(&mut out, 54);
        push_le4(&mut out, 40);
        push_le4(&mut out, self.width as u32);
        push_le4(&mut out, self.height as u32);
        push_le2(&mut out, 1);
        push_le2(&mut out, 24);
        push_le4(&mut out, 0);
        push_le4(&mut out, size as u32);
        push_le4(&mut out, 2835);
        push_le4(&mut out, 2835);
        push_le4(&mut out, 0);
        push_le4(&mut out, 0);
        proof {
            assert(out@ =~= self.header_spec());
            assert(out@ =~= self.header_spec() + self.rows_spec(0));
        }
        let pad: usize = self.bmp_padding();
        let mut y: usize = 0;
        while y < self.height
            invariant
                self.wf(),
                self.pixels_in_range(),
                y <= self.height,
                pad == pad_spec(self.width_spec()),
                out@ == self.header_spec() + self.rows_spec(y as int),
            decreases self.height - y,
        {
            let mut x: usize = 0;
            while x < self.width
                invariant
                    self.wf(),
                    self.pixels_in_range(),
                    y < self.height,
                    x <= self.width,
                    pad == pad_spec(self.width_spec()),
                    out@ == self.header_spec() + self.rows_spec(y as int) + self.row_spec(
                        y as int,
                    ).take(3 * x as int),
                decreases self.width - x,
            {
                let _len: usize = self.pixels.len();
                proof {
                    lemma_pixel_index(x as int, y as int, self.width as int, self.height as int);
                }
                let p = self.pixels[y * self.width + x];
                let b = Colour::to_255_u8(p.blue);
                let g = Colour::to_255_u8(p.green);
                let rr = Colour::to_255_u8(p.red);
                out.push(b);
                out.push(g);
                out.push(rr);
                proof {
                    lemma_chan255_in_range(p.blue);
                    lemma_chan255_in_range(p.green);
                    lemma_chan255_in_range(p.red);
                    let row = self.row_spec(y as int);
                    let i0 = 3 * x as int;
                    assert((i0 + 0) / 3 == x as int && (i0 + 0) % 3 == 0);
                    assert((i0 + 1) / 3 == x as int && (i0 + 1) % 3 == 1);
                    assert((i0 + 2) / 3 == x as int && (i0 + 2) % 3 == 2);
                    assert(row[i0] == b && row[i0 + 1] == g && row[i0 + 2] == rr);
                    assert(row.take(i0 + 3) =~= row.take(i0) + seq![b, g, rr]);
                }
                x += 1;
            }
            let mut k: usize = 0;
            while k < pad
                invariant
                    self.wf(),
                    self.pixels_in_range(),
                    y < self.height,
                    k <= pad,
                    pad == pad_spec(self.width_spec()),
                    out@ == self.header_spec() + self.rows_spec(y as int) + self.row_spec(
                        y as int,
                    ).take(3 * self.width as int + k as int),
                decreases pad - k,
            {
                out.push(0);
                proof {
                    let row = self.row_spec(y as int);
                    let i0 = 3 * self.width as int + k as int;
                    assert(row[i0] == 0u8);
                    assert(row.take(i0 + 1) =~= row.take(i0) + seq![0u8]);
                }
                k += 1;
            }
            proof {
                let row = self.row_spec(y as int);
                assert(row.take(row_len_spec(self.width_spec())) =~= row);
                assert(self.rows_spec(y as int + 1) == self.rows_spec(y as int) + row);
            }
            y += 1;
        }
        out
    }
}

/// Bytes `(x, y)` of a canvas live at offset `y * w + x`, inside the buffer.
proof fn lemma_pixel_index(x: int, y: int, w: int, h: int)
    by (nonlinear_arith)
    requires
        0 <= x < w,
        0 <= y < h,
    ensures
        0 <= y * w + x < w * h,
{
}

/// Distinct coordinates map to distinct buffer offsets.
proof fn lemma_pixel_index_injective(a: int, b: int, x: int, y: int, w: int, h: int)
    by (nonlinear_arith)
    requires
        0 <= a < w,
        0 <= b < h,
        0 <= x < w,
        0 <= y < h,
        !(a == x && b == y),
    ensures
        b * w + a != y * w + x,
{
}

/// Appends the four little-endian bytes of `v`.
fn push_le4(out: &mut Vec<u8>, v: u32)
    ensures
        final(out)@ == old(out)@ + le4(v as int),
{
    out.push((v % 256) as u8);
    out.push((v / 256 % 256) as u8);
    out.push((v / 65536 % 256) as u8);
    out.push((v / 16777216 % 256) as u8);
    proof {
        assert(out@ =~= old(out)@ + le4(v as int));
    }
}

/// Appends the two little-endian bytes of `v`.
fn push_le2(out: &mut Vec<u8>, v: u16)
    ensures
        final(out)@ == old(out)@ + le2(v as int),
{
    out.push((v % 256) as u8);
    out.push((v / 256) as u8);
    proof {
        assert(out@ =~= old(out)@ + le2(v as int));
    }
}

} // verus!
