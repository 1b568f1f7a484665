//! Decoded images as the library holds them, and the scaled-down candidate.

use vstd::prelude::*;
use vstd::arithmetic::div_mod::{lemma_fundamental_div_mod, lemma_mod_bound};

verus! {

/// The longest side of a scaled-down candidate, in pixels.
pub const MAX_SIDE: u32 = 700;

/// An image as 8-bit RGBA pixels, row by row.
pub struct Raster {
    width: u32,
    height: u32,
    pixels: Vec<u8>,
}

/// What a raster holds.
pub struct RasterView {
    pub width: nat,
    pub height: nat,
    pub pixels: Seq<u8>,
}

impl View for Raster {
    type V = RasterView;

    closed spec fn view(&self) -> RasterView {
        RasterView { width: self.width as nat, height: self.height as nat, pixels: self.pixels@ }
    }
}

/// The number of bytes of a `width` × `height` RGBA image.
pub open spec fn rgba_len(width: nat, height: nat) -> nat {
    4 * width * height
}

impl Raster {
    /// Four bytes for each pixel.
    #[verifier::type_invariant]
    spec fn inv(&self) -> bool {
        self.pixels@.len() == rgba_len(self.width as nat, self.height as nat)
    }

    /// A raster of `width` × `height` pixels from their RGBA bytes; `None`
    /// when there are not exactly four bytes per pixel.
    pub fn from_rgba(width: u32, height: u32, pixels: Vec<u8>) -> (r: Option<Raster>)
        ensures
            r is Some <==> pixels@.len() == rgba_len(width as nat, height as nat),
            r matches Some(img) ==> img@ == (RasterView {
                width: width as nat,
                height: height as nat,
                pixels: pixels@,
            }),
    {
        let w = width as u64;
        let h = height as u64;
        assert(w * h <= u32::MAX * u32::MAX) by (nonlinear_arith)
            requires
                w <= u32::MAX,
                h <= u32::MAX,
        ;
        let bytes: u128 = (w * h) as u128 * 4;
        assert(bytes == rgba_len(width as nat, height as nat)) by (nonlinear_arith)
            requires
                bytes == (w * h) * 4,
                w == width,
                h == height,
        ;
        if bytes == pixels.len() as u128 {
            Some(Raster { width, height, pixels })
        } else {
            None
        }
    }

    /// Width in pixels.
    pub fn width(&self) -> (r: u32)
        ensures
            r == self@.width,
    {
        self.width
    }

    /// Height in pixels.
    pub fn height(&self) -> (r: u32)
        ensures
            r == self@.height,
    {
        self.height
    }

    /// The RGBA bytes.
    pub fn pixels(&self) -> (r: &Vec<u8>)
        ensures
            r@ == self@.pixels,
            r@.len() == rgba_len(self@.width, self@.height),
    {
        proof {
            use_type_invariant(self);
        }
        &self.pixels
    }

    /// Gives up the raster for its RGBA bytes.
    pub fn into_pixels(self) -> (r: Vec<u8>)
        ensures
            r@ == self@.pixels,
    {
        self.pixels
    }
}

/// The size of the scaled-down candidate of a `width` × `height` image.
/// An image that fits in 700 × 700 keeps its size; otherwise the longer
/// side becomes 700 and the other is scaled by the same ratio, rounded to
/// the nearest pixel (halves up); a square becomes 700 × 700.
pub open spec fn scaled_size(width: nat, height: nat) -> (nat, nat) {
    if width <= MAX_SIDE && height <= MAX_SIDE {
        (width, height)
    } else if width > height {
        (MAX_SIDE as nat, ((2 * MAX_SIDE * height + width) / ((2 * width) as int)) as nat)
    } else if height > width {
        (((2 * MAX_SIDE * width + height) / ((2 * height) as int)) as nat, MAX_SIDE as nat)
    } else {
        (MAX_SIDE as nat, MAX_SIDE as nat)
    }
}

/// Rounding `MAX_SIDE * short / long` to the nearest integer lands within half
/// a pixel of it, and never above `short`.
proof fn lemma_rounded_side(long: nat, short: nat)
    requires
        long > MAX_SIDE,
        short < long,
    ensures
        ({
            let s = (2 * MAX_SIDE * short + long) / ((2 * long) as int);
            &&& 2 * long * s <= 2 * MAX_SIDE * short + long
            &&& 2 * MAX_SIDE * short <= 2 * long * s + long
            &&& s <= short
            &&& s <= MAX_SIDE
        }),
{
    let x = (2 * MAX_SIDE * short + long) as int;
    let d = (2 * long) as int;
    let s = x / d;
    lemma_fundamental_div_mod(x, d);
    lemma_mod_bound(x, d);
    assert(d * s <= x);
    assert(x < d * s + d);
    assert(s <= short) by (nonlinear_arith)
        requires
            x < d * s + d,
            x == 2 * 700 * short + long,
            d == 2 * long,
            long > 700,
            short < long,
            d * s <= x,
    ;
    assert(s <= 700) by (nonlinear_arith)
        requires
            d * s <= x,
            x == 2 * 700 * short + long,
            d == 2 * long,
            short < long,
            long > 0,
    ;
}

/// The scaled-down size: each side at most 700, the longer exactly 700 when
/// the image does not fit, and the shorter within half a pixel of the exact
/// proportion.
pub proof fn lemma_scaled_size(width: nat, height: nat)
    ensures
        ({
            let (w, h) = scaled_size(width, height);
            &&& (width <= MAX_SIDE && height <= MAX_SIDE) ==> w == width && h == height
            &&& (width > MAX_SIDE || height > MAX_SIDE) ==> {
                &&& (width >= height ==> w == MAX_SIDE)
                &&& (height >= width ==> h == MAX_SIDE)
                &&& w <= MAX_SIDE
                &&& h <= MAX_SIDE
                &&& w <= width
                &&& h <= height
                &&& width >= height ==> {
                    &&& 2 * width * h <= 2 * MAX_SIDE * height + width
                    &&& 2 * MAX_SIDE * height <= 2 * width * h + width
                }
                &&& height >= width ==> {
                    &&& 2 * height * w <= 2 * MAX_SIDE * width + height
                    &&& 2 * MAX_SIDE * width <= 2 * height * w + height
                }
            }
        }),
{
    if width > MAX_SIDE || height > MAX_SIDE {
        if width > height {
            lemma_rounded_side(width, height);
        } else if height > width {
            lemma_rounded_side(height, width);
        } else {
            assert(2 * width * 700 <= 2 * MAX_SIDE * height + width) by (nonlinear_arith)
                requires
                    width == height,
            ;
            assert(2 * MAX_SIDE * height <= 2 * width * 700 + width) by (nonlinear_arith)
                requires
                    width == height,
            ;
        }
    }
}

/// Computes `scaled_size(width, height)`.
pub fn resized_dimensions(width: u32, height: u32) -> (r: (u32, u32))
    ensures
        (r.0 as nat, r.1 as nat) == scaled_size(width as nat, height as nat),
{
    if width <= MAX_SIDE && height <= MAX_SIDE {
        (width, height)
    } else if width > height {
        proof {
            lemma_rounded_side(width as nat, height as nat);
        }
        let h = (2 * 700 * (height as u64) + width as u64) / (2 * width as u64);
        (MAX_SIDE, h as u32)
    } else if height > width {
        proof {
            lemma_rounded_side(height as nat, width as nat);
        }
        let w = (2 * 700 * (width as u64) + height as u64) / (2 * height as u64);
        (w as u32, MAX_SIDE)
    } else {
        (MAX_SIDE, MAX_SIDE)
    }
}

/// Relies on `image::imageops::resize` with the Lanczos3 filter, on an
/// `image::RgbaImage` made by `ImageBuffer::from_raw`: `from_raw` accepts a
/// buffer of exactly four bytes per pixel, and `resize` returns an image of
/// `new_width` × `new_height` pixels. It allocates a `width` × `new_height`
/// intermediate image, and panics when a buffer size overflows `usize`.
#[verifier::external_body]
fn lanczos_resize(pixels: Vec<u8>, width: u32, height: u32, new_width: u32, new_height: u32) -> (r: Option<Vec<u8>>)
    requires
        pixels@.len() == rgba_len(width as nat, height as nat),
        rgba_len(width as nat, new_height as nat) <= usize::MAX,
        rgba_len(new_width as nat, new_height as nat) <= usize::MAX,
    ensures
        r is Some,
        r matches Some(out) ==> out@.len() == rgba_len(new_width as nat, new_height as nat),
{
    image::RgbaImage::from_raw(width, height, pixels).map(
        |img|
            image::imageops::resize(
                &img,
                new_width,
                new_height,
                image::imageops::FilterType::Lanczos3,
            ).into_raw(),
    )
}

/// The scaled-down candidate of `img`: `img` itself when it fits in
/// 700 × 700, else `img` resampled to `scaled_size`.
pub fn resize_image(img: Raster) -> (r: Raster)
    ensures
        (img@.width <= MAX_SIDE && img@.height <= MAX_SIDE) ==> r@ == img@,
        (r@.width, r@.height) == scaled_size(img@.width, img@.height),
        r@.pixels.len() == rgba_len(r@.width, r@.height),
{
    proof {
        use_type_invariant(&img);
    }
    let width = img.width;
    let height = img.height;
    let total = img.pixels.len();
    if width <= MAX_SIDE && height <= MAX_SIDE {
        return img;
    }
    let (new_width, new_height) = resized_dimensions(width, height);
    proof {
        lemma_scaled_size(width as nat, height as nat);
        assert(rgba_len(width as nat, new_height as nat) <= rgba_len(width as nat, height as nat))
            by (nonlinear_arith)
            requires
                new_height <= height,
        ;
        assert(rgba_len(new_width as nat, new_height as nat) <= 4 * 700 * 700) by (nonlinear_arith)
            requires
                new_width <= 700,
                new_height <= 700,
        ;
    }
    let pixels = img.pixels;
    match lanczos_resize(pixels, width, height, new_width, new_height) {
        Some(out) => Raster { width: new_width, height: new_height, pixels: out },
        None => {
            proof {
                assert(false);
            }
            Raster { width: 0, height: 0, pixels: Vec::new() }
        },
    }
}

} // verus!
