//! The image bridge: builds backend images from raw pixel buffers.

use crate::error::Error;
use piet::ImageFormat;
use vstd::prelude::*;
use vstd::slice::slice_to_vec;

verus! {

/// The pixel formats of the drawing interface. Declared with its variants.
#[verifier::external_type_specification]
pub struct ExImageFormat(ImageFormat);

/// An RGBA buffer of the `image` crate (`image::RgbaImage`).
///
/// The buffer type is bound by a trait of that crate and cannot be declared
/// to Verus as it is, so it is kept in this struct, of which Verus sees
/// nothing inside; `buffer_bytes` and `buffer_dimensions` name what it holds.
#[verifier::external_body]
#[derive(Debug, PartialEq, Eq)]
pub struct PixelBuffer {
    inner: ::image::RgbaImage,
}

/// The bytes that a buffer holds, four per pixel, row after row.
pub uninterp spec fn buffer_bytes(buffer: PixelBuffer) -> Seq<u8>;

/// The width and height, in pixels, that a buffer was made with.
pub uninterp spec fn buffer_dimensions(buffer: PixelBuffer) -> (u32, u32);

/// Whether `len` bytes are enough for `width` by `height` pixels of four
/// bytes, where four times the width has to fit `usize` as well.
pub open spec fn raw_fits(width: u32, height: u32, len: nat) -> bool {
    4 * width <= usize::MAX && 4 * width * height <= len
}

/// Calls `image::RgbaImage::from_raw`.
///
/// That function computes `4 * width * height` in `usize` with checked
/// multiplications, first by `width` and then by `height`, and accepts the
/// bytes if neither overflows and the product is at most their number. An
/// accepted buffer keeps `width`, `height` and the bytes as they were given.
#[verifier::external_body]
fn buffer_from_raw(width: u32, height: u32, bytes: Vec<u8>) -> (r: Option<PixelBuffer>)
    ensures
        r is Some <==> raw_fits(width, height, bytes@.len()),
        r is Some ==> buffer_dimensions(r->0).0 == width,
        r is Some ==> buffer_dimensions(r->0).1 == height,
        r is Some ==> buffer_bytes(r->0) == bytes@,
{
    match ::image::RgbaImage::from_raw(width, height, bytes) {
        Some(inner) => Some(PixelBuffer { inner }),
        None => None,
    }
}

/// Calls `image::RgbaImage::dimensions`, which returns the width and height
/// that the buffer was made with.
#[verifier::external_body]
fn buffer_size(buffer: &PixelBuffer) -> (r: (u32, u32))
    ensures
        r == buffer_dimensions(*buffer),
{
    buffer.inner.dimensions()
}

/// Calls `image::RgbaImage::as_raw`, which lends the bytes of the buffer.
#[verifier::external_body]
fn buffer_as_raw(buffer: &PixelBuffer) -> (r: &Vec<u8>)
    ensures
        r@ == buffer_bytes(*buffer),
{
    buffer.inner.as_raw()
}

/// Calls `image::RgbaImage::into_raw`, which gives the bytes of the buffer
/// away.
#[verifier::external_body]
fn buffer_into_raw(buffer: PixelBuffer) -> (r: Vec<u8>)
    ensures
        r@ == buffer_bytes(buffer),
{
    buffer.inner.into_raw()
}

/// Calls `clone` of `image::RgbaImage`, which copies the dimensions and the
/// bytes.
#[verifier::external_body]
fn buffer_clone(buffer: &PixelBuffer) -> (r: PixelBuffer)
    ensures
        buffer_dimensions(r) == buffer_dimensions(*buffer),
        buffer_bytes(r) == buffer_bytes(*buffer),
{
    PixelBuffer { inner: buffer.inner.clone() }
}

/// An owned RGBA image: width, height, and exactly four bytes per pixel.
#[derive(Debug, PartialEq, Eq)]
pub struct Image {
    inner: PixelBuffer,
}

/// The mathematical value of an [`Image`].
pub struct ImageView {
    pub width: nat,
    pub height: nat,
    pub bytes: Seq<u8>,
}

impl View for Image {
    type V = ImageView;

    closed spec fn view(&self) -> ImageView {
        ImageView {
            width: buffer_dimensions(self.inner).0 as nat,
            height: buffer_dimensions(self.inner).1 as nat,
            bytes: buffer_bytes(self.inner),
        }
    }
}

impl Image {
    #[verifier::type_invariant]
    spec fn well_formed(self) -> bool {
        buffer_bytes(self.inner).len() == 4 * buffer_dimensions(self.inner).0 * buffer_dimensions(
            self.inner,
        ).1
    }

    /// Width and height in pixels.
    pub fn size(&self) -> (r: (u32, u32))
        ensures
            r.0 == self@.width,
            r.1 == self@.height,
            self@.bytes.len() == 4 * self@.width * self@.height,
    {
        proof {
            use_type_invariant(self);
        }
        buffer_size(&self.inner)
    }

    /// The pixels, four bytes each, row after row.
    pub fn bytes(&self) -> (r: &Vec<u8>)
        ensures
            r@ == self@.bytes,
            r@.len() == 4 * self@.width * self@.height,
    {
        proof {
            use_type_invariant(self);
        }
        buffer_as_raw(&self.inner)
    }

    /// Gives up the image for its pixels.
    pub fn into_bytes(self) -> (r: Vec<u8>)
        ensures
            r@ == self@.bytes,
            r@.len() == 4 * self@.width * self@.height,
    {
        proof {
            use_type_invariant(&self);
        }
        buffer_into_raw(self.inner)
    }
}

impl Clone for Image {
    fn clone(&self) -> (r: Self)
        ensures
            r@ == self@,
    {
        proof {
            use_type_invariant(self);
        }
        Image { inner: buffer_clone(&self.inner) }
    }
}

/// The error that [`make_image`] reports for the given arguments, or `None`
/// where it succeeds. `len` is the number of bytes handed in.
pub open spec fn make_image_error(width: usize, height: usize, len: nat, format: ImageFormat) -> Option<
    Error,
> {
    if format != ImageFormat::RgbaSeparate {
        Some(Error::UnsupportedFormat)
    } else if width > u32::MAX || height > u32::MAX {
        Some(Error::UnsupportedFormat)
    } else if len != 4 * width * height || 4 * width > usize::MAX {
        Some(Error::InvalidInput)
    } else {
        None
    }
}

/// Builds an image of `width` by `height` pixels from a copy of `buf`.
///
/// Only [`ImageFormat::RgbaSeparate`] is supported, and both dimensions have
/// to fit the backend's 32-bit pixel dimensions; otherwise the format is
/// unsupported. The buffer has to hold exactly four bytes per pixel, and the
/// bytes of one row have to be countable in `usize`; otherwise the input is
/// invalid.
pub fn make_image(width: usize, height: usize, buf: &[u8], format: ImageFormat) -> (r: Result<
    Image,
    Error,
>)
    ensures
        match r {
            Ok(image) => {
                &&& make_image_error(width, height, buf@.len(), format) is None
                &&& image@.width == width
                &&& image@.height == height
                &&& image@.bytes == buf@
            },
            Err(e) => make_image_error(width, height, buf@.len(), format) == Some(e),
        },
{
    match format {
        ImageFormat::RgbaSeparate => {},
        _ => {
            return Err(Error::UnsupportedFormat);
        },
    }
    if width > 0xffff_ffff || height > 0xffff_ffff {
        return Err(Error::UnsupportedFormat);
    }
    let w: u32 = width as u32;
    let h: u32 = height as u32;
    assert(4 * (w as int) * (h as int) <= 4 * 0xffff_ffff * 0xffff_ffff) by (nonlinear_arith)
        requires
            0 <= w <= 0xffff_ffff,
            0 <= h <= 0xffff_ffff,
    ;
    let needed: u128 = 4 * (w as u128) * (h as u128);
    if buf.len() as u128 != needed {
        return Err(Error::InvalidInput);
    }
    match buffer_from_raw(w, h, slice_to_vec(buf)) {
        Some(inner) => Ok(Image { inner }),
        None => Err(Error::InvalidInput),
    }
}

/// A single-channel buffer as RGBA: each value becomes one pixel, all four
/// channels of which hold that value.
pub open spec fn widened(data: Seq<u8>) -> Seq<u8> {
    Seq::new(4 * data.len(), |i: int| data[i / 4])
}

/// Widens a single-channel buffer to RGBA, or gives `None` if four times as
/// many bytes cannot be counted in `usize`.
pub fn widen(data: &[u8]) -> (r: Option<Vec<u8>>)
    ensures
        r is Some <==> 4 * data@.len() <= usize::MAX,
        r matches Some(wide) ==> wide@ == widened(data@),
{
    if data.len() > usize::MAX / 4 {
        return None;
    }
    let mut wide: Vec<u8> = Vec::new();
    let mut i: usize = 0;
    while i < data.len()
        invariant
            i <= data@.len(),
            4 * data@.len() <= usize::MAX,
            wide@ == widened(data@.take(i as int)),
        decreases data@.len() - i,
    {
        let value = data[i];
        wide.push(value);
        wide.push(value);
        wide.push(value);
        wide.push(value);
        i += 1;
        assert(wide@ =~= widened(data@.take(i as int)));
    }
    assert(data@.take(i as int) =~= data@);
    Some(wide)
}

} // verus!
