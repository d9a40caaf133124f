//! Pixel images as grids of colours.
//!
//! The images are macroquad's. Verus does not look inside them: what an image
//! holds is named here, and the few calls that read or write one are stated
//! over those names and believed.

use vstd::prelude::*;
use macroquad::color::Color;
use macroquad::texture::Image;

verus! {

/// A colour as an image stores it: four bytes.
#[derive(Clone, Copy, Debug, PartialEq, Eq, Structural)]
pub struct Rgba {
    pub r: u8,
    pub g: u8,
    pub b: u8,
    pub a: u8,
}

/// macroquad's `Image`: a byte buffer with a width and a height.
#[verifier::external_type_specification]
#[verifier::external_body]
pub struct ExImage(macroquad::texture::Image);

/// The bytes of an image's buffer, in order.
pub uninterp spec fn image_bytes(image: Image) -> Seq<u8>;

/// The width that an image declares, in pixels.
pub uninterp spec fn image_width(image: Image) -> nat;

/// The height that an image declares, in pixels.
pub uninterp spec fn image_height(image: Image) -> nat;

/// A grid of pixels, row after row from the top, each row from the left.
pub struct Raster {
    pub width: nat,
    pub height: nat,
    pub pixels: Seq<Rgba>,
}

impl Raster {
    /// There is one colour for each pixel.
    pub open spec fn wf(self) -> bool {
        self.pixels.len() == self.width * self.height
    }

    /// Whether `(x, y)` is a pixel of the grid.
    pub open spec fn contains(self, x: int, y: int) -> bool {
        0 <= x < self.width && 0 <= y < self.height
    }

    /// The place of pixel `(x, y)` in `pixels`.
    pub open spec fn index(self, x: int, y: int) -> int {
        y * self.width + x
    }

    /// The colour of pixel `(x, y)`.
    pub open spec fn at(self, x: int, y: int) -> Rgba {
        self.pixels[self.index(x, y)]
    }

    /// The grid with pixel `(x, y)` painted `p`.
    pub open spec fn with_pixel(self, x: int, y: int, p: Rgba) -> Raster {
        Raster { pixels: self.pixels.update(self.index(x, y), p), ..self }
    }
}

/// Whether the buffer of `image` holds exactly four bytes for each pixel of
/// the size it declares.
pub open spec fn is_grid(image: Image) -> bool {
    image_bytes(image).len() == 4 * image_width(image) * image_height(image)
}

/// The pixel that starts at byte `4 * i` of `bytes`: red, green, blue, alpha.
pub open spec fn pixel_of_bytes(bytes: Seq<u8>, i: int) -> Rgba {
    Rgba { r: bytes[4 * i], g: bytes[4 * i + 1], b: bytes[4 * i + 2], a: bytes[4 * i + 3] }
}

/// `bytes` with the pixel that starts at byte `4 * i` replaced by `p`.
pub open spec fn bytes_with_pixel(bytes: Seq<u8>, i: int, p: Rgba) -> Seq<u8> {
    bytes.update(4 * i, p.r).update(4 * i + 1, p.g).update(4 * i + 2, p.b).update(4 * i + 3, p.a)
}

/// The grid that an image holds.
pub open spec fn raster_of(image: Image) -> Raster {
    Raster {
        width: image_width(image),
        height: image_height(image),
        pixels: Seq::new(
            image_width(image) * image_height(image),
            |i: int| pixel_of_bytes(image_bytes(image), i),
        ),
    }
}

/// `Image::width`: the declared width, which an image keeps in 16 bits.
#[verifier::external_body]
fn declared_width(image: &Image) -> (w: usize)
    ensures
        w == image_width(*image),
        w <= u16::MAX,
{
    image.width()
}

/// `Image::height`: the declared height, which an image keeps in 16 bits.
#[verifier::external_body]
fn declared_height(image: &Image) -> (h: usize)
    ensures
        h == image_height(*image),
        h <= u16::MAX,
{
    image.height()
}

/// The length of the public byte buffer of an `Image`.
#[verifier::external_body]
fn buffer_len(image: &Image) -> (n: usize)
    ensures
        n == image_bytes(*image).len(),
{
    image.bytes.len()
}

/// `Image::get_pixel`, with the colour taken back to bytes by macroquad's
/// conversion of `Color` to `[u8; 4]`. The call reads the four bytes of pixel
/// `y * width + x` and divides each by 255; the conversion multiplies by 255
/// and drops the fraction, which gives every byte value back unchanged. The
/// call panics on a buffer of the wrong length or a pixel outside it.
#[verifier::external_body]
fn read_pixel(image: &Image, x: u32, y: u32) -> (p: Rgba)
    requires
        is_grid(*image),
        x < image_width(*image),
        y < image_height(*image),
    ensures
        p == pixel_of_bytes(image_bytes(*image), y * image_width(*image) + x),
{
    let c: [u8; 4] = image.get_pixel(x, y).into();
    Rgba { r: c[0], g: c[1], b: c[2], a: c[3] }
}

/// `Image::set_pixel`, with the colour made by `Color::from_rgba`. That
/// divides each byte by 255; the call multiplies by 255, drops the fraction
/// and stores the four bytes at pixel `y * width + x`, so every byte value is
/// stored unchanged. Nothing else of the image changes. The call panics on a
/// buffer of the wrong length or a pixel outside the declared size.
#[verifier::external_body]
fn write_pixel(image: &mut Image, x: u32, y: u32, p: Rgba)
    requires
        is_grid(*old(image)),
        x < image_width(*old(image)),
        y < image_height(*old(image)),
    ensures
        image_width(*final(image)) == image_width(*old(image)),
        image_height(*final(image)) == image_height(*old(image)),
        image_bytes(*final(image)) == bytes_with_pixel(
            image_bytes(*old(image)),
            y * image_width(*old(image)) + x,
            p,
        ),
{
    image.set_pixel(x, y, Color::from_rgba(p.r, p.g, p.b, p.a));
}

/// Two pixels of a grid have the same place in the buffer only if they are
/// the same pixel, and each place lies inside the buffer.
pub proof fn lemma_index_is_one_to_one(width: nat, height: nat, x: int, y: int, u: int, v: int)
    requires
        0 <= x < width,
        0 <= y < height,
        0 <= u < width,
        0 <= v < height,
    ensures
        0 <= y * width + x < width * height,
        y * width + x == v * width + u ==> x == u && y == v,
{
    assert(0 <= y * width + x < width * height) by (nonlinear_arith)
        requires
            0 <= x < width,
            0 <= y < height,
    ;
    assert(y * width + x == v * width + u ==> y == v) by (nonlinear_arith)
        requires
            0 <= x < width,
            0 <= u < width,
            0 <= y,
            0 <= v,
    ;
}

/// The width of an image, in pixels.
pub fn width(image: &Image) -> (w: u32)
    ensures
        w == image_width(*image),
        w <= u16::MAX,
{
    declared_width(image) as u32
}

/// The height of an image, in pixels.
pub fn height(image: &Image) -> (h: u32)
    ensures
        h == image_height(*image),
        h <= u16::MAX,
{
    declared_height(image) as u32
}

/// Tests whether the buffer of an image matches the size that it declares.
pub fn is_consistent(image: &Image) -> (ok: bool)
    ensures
        ok == is_grid(*image),
{
    let w: u64 = declared_width(image) as u64;
    let h: u64 = declared_height(image) as u64;
    assert(w * h <= 0xffff * 0xffff) by (nonlinear_arith)
        requires
            w <= 0xffff,
            h <= 0xffff,
    ;
    assert(4 * (w * h) == 4 * w * h) by (nonlinear_arith);
    buffer_len(image) as u64 == 4 * (w * h)
}

/// The colour of pixel `(x, y)`.
pub fn get_pixel(image: &Image, x: u32, y: u32) -> (p: Rgba)
    requires
        is_grid(*image),
        raster_of(*image).contains(x as int, y as int),
    ensures
        p == raster_of(*image).at(x as int, y as int),
{
    proof {
        lemma_index_is_one_to_one(
            image_width(*image),
            image_height(*image),
            x as int,
            y as int,
            x as int,
            y as int,
        );
    }
    read_pixel(image, x, y)
}

/// Paints pixel `(x, y)` with `p`.
pub fn set_pixel(image: &mut Image, x: u32, y: u32, p: Rgba)
    requires
        is_grid(*old(image)),
        raster_of(*old(image)).contains(x as int, y as int),
    ensures
        is_grid(*final(image)),
        raster_of(*final(image)) == raster_of(*old(image)).with_pixel(x as int, y as int, p),
{
    let ghost before = raster_of(*image);
    let ghost i = y * image_width(*image) + x;
    proof {
        lemma_index_is_one_to_one(
            image_width(*image),
            image_height(*image),
            x as int,
            y as int,
            x as int,
            y as int,
        );
    }
    let ghost bytes = image_bytes(*image);
    let ghost count = image_width(*image) * image_height(*image);
    proof {
        assert(bytes.len() == 4 * count) by (nonlinear_arith)
            requires
                bytes.len() == 4 * image_width(*image) * image_height(*image),
                count == image_width(*image) * image_height(*image),
        ;
    }
    write_pixel(image, x, y, p);
    proof {
        let after = image_bytes(*image);
        assert forall|j: int| 0 <= j < count implies pixel_of_bytes(after, j) == if j == i {
            p
        } else {
            pixel_of_bytes(bytes, j)
        } by {}
        assert(raster_of(*image).pixels =~= before.pixels.update(i, p));
    }
}

} // verus!
