//! The render context adapter: every operation of the drawing interface, as
//! the canvas operations that realise it. Only the text services need the
//! adapter itself, for the fonts that it holds; drawing needs no state.
//!
//! Nothing is buffered. A call returns the few operations that it amounts
//! to, complete and in order, or fails before any operation exists.

use crate::brush::{
    color_as_rgba_u32, color_from_u32, packed, style_of, unpacked, Brush, FillStyle,
};
use crate::canvas::{op_views, CanvasOp, CanvasOpView, FillRule, ImageSmoothingQuality};
use crate::error::Error;
use crate::font_source::FontSource;
use crate::geometry::{PathEl, Point, Rect, Shape};
use crate::image_bridge::{make_image, make_image_error, widen, widened, Image, ImageView};
use crate::path::{converts_to, path2d_from_shape, PathCommand};
use crate::text::{PathfinderTextLayout, Text};
use crate::transform::{backend_form, generic_form, to_backend, to_generic, RowMajor};
use piet::{Color, FixedGradient, ImageFormat, InterpolationMode, StrokeStyle};
use vstd::prelude::*;

verus! {

/// How the drawing interface resamples an image that is drawn at another
/// size. Declared with its variants.
#[verifier::external_type_specification]
pub struct ExInterpolationMode(InterpolationMode);

/// The attributes of a stroke besides its width, in the drawing interface.
/// They are accepted and never looked into.
#[verifier::external_type_specification]
#[verifier::external_body]
pub struct ExStrokeStyle(StrokeStyle);

/// The operations that set the style of a brush: one for a solid brush, none
/// for a gradient.
pub open spec fn fill_style_ops<T>(brush: Brush) -> Seq<CanvasOpView<T>> {
    match style_of(brush) {
        Some(style) => seq![CanvasOpView::SetFillStyle(style)],
        None => Seq::empty(),
    }
}

/// The operations that make an interpolation mode the smoothing state of the
/// canvas.
pub open spec fn interpolation_ops<T>(interp: InterpolationMode) -> Seq<CanvasOpView<T>> {
    match interp {
        InterpolationMode::NearestNeighbor => seq![CanvasOpView::SetImageSmoothingEnabled(false)],
        InterpolationMode::Bilinear => seq![
            CanvasOpView::SetImageSmoothingEnabled(true),
            CanvasOpView::SetImageSmoothingQuality(ImageSmoothingQuality::Low),
        ],
    }
}

/// The operations of `clear`.
pub open spec fn clear_ops<T>(region: Option<Rect<T>>, color: Color) -> Seq<CanvasOpView<T>> {
    match region {
        Some(rect) => seq![
            CanvasOpView::SetFillStyle(FillStyle::Color(unpacked(packed(color)))),
            CanvasOpView::FillRect(rect),
        ],
        None => seq![CanvasOpView::Clear],
    }
}

/// The operations of a stroke of `path`.
pub open spec fn stroke_ops<T>(brush: Brush, width: T, path: Seq<PathCommand<T>>) -> Seq<
    CanvasOpView<T>,
> {
    fill_style_ops(brush) + seq![CanvasOpView::SetLineWidth(width), CanvasOpView::StrokePath(path)]
}

/// The operations of a fill of `path` under `rule`.
pub open spec fn fill_ops<T>(brush: Brush, path: Seq<PathCommand<T>>, rule: FillRule) -> Seq<
    CanvasOpView<T>,
> {
    fill_style_ops(brush) + seq![CanvasOpView::FillPath(path, rule)]
}

/// The operations of a clip to the inside of `path`.
pub open spec fn clip_ops<T>(path: Seq<PathCommand<T>>) -> Seq<CanvasOpView<T>> {
    seq![CanvasOpView::ClipPath(path, FillRule::Winding)]
}

/// Whether a blur of `width` by `height` values in `len` bytes can be drawn:
/// the bytes are one for each value, both dimensions fit the backend's 32-bit
/// pixel dimensions, and the bytes of the image and of one of its rows can be
/// counted in `usize`.
pub open spec fn blur_fits(width: usize, height: usize, len: nat) -> bool {
    &&& len == width * height
    &&& width <= u32::MAX
    &&& height <= u32::MAX
    &&& 4 * len <= usize::MAX
    &&& 4 * width <= usize::MAX
}

/// The adapter between the drawing interface and the backend canvas.
pub struct PathFinderRenderContext {
    text: Text,
}

impl PathFinderRenderContext {
    /// The font source that text is resolved against.
    pub closed spec fn source(&self) -> FontSource {
        self.text.source()
    }

    /// An adapter that resolves fonts against `font_source`.
    pub fn new(font_source: FontSource) -> (context: Self)
        ensures
            context.source() == font_source,
    {
        PathFinderRenderContext { text: Text::new(font_source) }
    }

    /// The font source, for lookups.
    pub fn font_source(&self) -> (source: &FontSource)
        ensures
            *source == self.source(),
    {
        self.text.font_source()
    }

    /// Whether an earlier operation has failed: none ever has.
    pub fn status() -> (r: Result<(), Error>)
        ensures
            r is Ok,
    {
        Ok(())
    }

    /// A brush of the one colour `color`.
    pub fn solid_brush(color: Color) -> (brush: Brush)
        ensures
            brush == Brush::Solid(packed(color)),
    {
        Brush::solid(color)
    }

    /// A gradient brush. The description is accepted and dropped; this
    /// never fails.
    pub fn gradient(gradient: FixedGradient) -> (r: Result<Brush, Error>)
        ensures
            r matches Ok(brush) && brush == Brush::Gradient,
    {
        Ok(Brush::gradient(gradient))
    }

    /// Sets the style of `brush`, if it has one.
    pub fn set_fill_style<T>(brush: &Brush) -> (ops: Vec<CanvasOp<T>>)
        ensures
            op_views(ops@) == fill_style_ops::<T>(*brush),
    {
        let mut ops: Vec<CanvasOp<T>> = Vec::new();
        match brush.style() {
            Some(style) => {
                ops.push(CanvasOp::SetFillStyle(style));
            },
            None => {},
        }
        assert(op_views(ops@) =~= fill_style_ops::<T>(*brush));
        ops
    }

    /// Makes `interp` the smoothing state of the canvas: off for the nearest
    /// neighbour, on at the lowest quality for bilinear.
    pub fn set_interpolation<T>(interp: InterpolationMode) -> (ops: Vec<CanvasOp<T>>)
        ensures
            op_views(ops@) == interpolation_ops::<T>(interp),
    {
        let mut ops: Vec<CanvasOp<T>> = Vec::new();
        match interp {
            InterpolationMode::NearestNeighbor => {
                ops.push(CanvasOp::SetImageSmoothingEnabled(false));
            },
            InterpolationMode::Bilinear => {
                ops.push(CanvasOp::SetImageSmoothingEnabled(true));
                ops.push(CanvasOp::SetImageSmoothingQuality(ImageSmoothingQuality::Low));
            },
        }
        assert(op_views(ops@) =~= interpolation_ops::<T>(interp));
        ops
    }

    /// Fills `region` with `color`, or clears the whole canvas if no region
    /// is given.
    pub fn clear<T>(region: Option<Rect<T>>, color: Color) -> (ops: Vec<CanvasOp<T>>)
        ensures
            op_views(ops@) == clear_ops(region, color),
    {
        let mut ops: Vec<CanvasOp<T>> = Vec::new();
        if let Some(rect) = region {
            let rgba = color_as_rgba_u32(color);
            ops.push(CanvasOp::SetFillStyle(FillStyle::Color(color_from_u32(rgba))));
            ops.push(CanvasOp::FillRect(rect));
        } else {
            ops.push(CanvasOp::Clear);
        }
        assert(op_views(ops@) =~= clear_ops(region, color));
        ops
    }

    /// Strokes `shape` with `brush` at the given width.
    pub fn stroke<T: Copy, F: FnOnce() -> Vec<PathEl<T>>>(
        shape: &Shape<T>,
        flatten: F,
        brush: &Brush,
        width: T,
    ) -> (ops: Vec<CanvasOp<T>>)
        requires
            shape.needs_flattening() ==> flatten.requires(()),
        ensures
            exists|path: Seq<PathCommand<T>>|
                converts_to(*shape, flatten, path) && op_views(ops@) == #[trigger] stroke_ops(
                    *brush,
                    width,
                    path,
                ),
    {
        let mut ops = Self::set_fill_style(brush);
        ops.push(CanvasOp::SetLineWidth(width));
        let path = path2d_from_shape(shape, flatten);
        let ghost commands = path@;
        ops.push(CanvasOp::StrokePath(path));
        assert(op_views(ops@) =~= stroke_ops(*brush, width, commands));
        ops
    }

    /// Strokes `shape` as [`PathFinderRenderContext::stroke`] does. The
    /// style is accepted and not applied.
    pub fn stroke_styled<T: Copy, F: FnOnce() -> Vec<PathEl<T>>>(
        shape: &Shape<T>,
        flatten: F,
        brush: &Brush,
        width: T,
        style: &StrokeStyle,
    ) -> (ops: Vec<CanvasOp<T>>)
        requires
            shape.needs_flattening() ==> flatten.requires(()),
        ensures
            exists|path: Seq<PathCommand<T>>|
                converts_to(*shape, flatten, path) && op_views(ops@) == #[trigger] stroke_ops(
                    *brush,
                    width,
                    path,
                ),
    {
        Self::stroke(shape, flatten, brush, width)
    }

    /// Fills `shape` with `brush` under the winding rule.
    pub fn fill<T: Copy, F: FnOnce() -> Vec<PathEl<T>>>(
        shape: &Shape<T>,
        flatten: F,
        brush: &Brush,
    ) -> (ops: Vec<CanvasOp<T>>)
        requires
            shape.needs_flattening() ==> flatten.requires(()),
        ensures
            exists|path: Seq<PathCommand<T>>|
                converts_to(*shape, flatten, path) && op_views(ops@) == #[trigger] fill_ops(
                    *brush,
                    path,
                    FillRule::Winding,
                ),
    {
        let mut ops = Self::set_fill_style(brush);
        let path = path2d_from_shape(shape, flatten);
        let ghost commands = path@;
        ops.push(CanvasOp::FillPath(path, FillRule::Winding));
        assert(op_views(ops@) =~= fill_ops(*brush, commands, FillRule::Winding));
        ops
    }

    /// Fills `shape` with `brush` under the even-odd rule.
    pub fn fill_even_odd<T: Copy, F: FnOnce() -> Vec<PathEl<T>>>(
        shape: &Shape<T>,
        flatten: F,
        brush: &Brush,
    ) -> (ops: Vec<CanvasOp<T>>)
        requires
            shape.needs_flattening() ==> flatten.requires(()),
        ensures
            exists|path: Seq<PathCommand<T>>|
                converts_to(*shape, flatten, path) && op_views(ops@) == #[trigger] fill_ops(
                    *brush,
                    path,
                    FillRule::EvenOdd,
                ),
    {
        let mut ops = Self::set_fill_style(brush);
        let path = path2d_from_shape(shape, flatten);
        let ghost commands = path@;
        ops.push(CanvasOp::FillPath(path, FillRule::EvenOdd));
        assert(op_views(ops@) =~= fill_ops(*brush, commands, FillRule::EvenOdd));
        ops
    }

    /// Intersects the clip region with the inside of `shape`, under the
    /// winding rule.
    pub fn clip<T: Copy, F: FnOnce() -> Vec<PathEl<T>>>(shape: &Shape<T>, flatten: F) -> (ops:
        Vec<CanvasOp<T>>)
        requires
            shape.needs_flattening() ==> flatten.requires(()),
        ensures
            exists|path: Seq<PathCommand<T>>|
                converts_to(*shape, flatten, path) && op_views(ops@) == #[trigger] clip_ops(path),
    {
        let mut ops: Vec<CanvasOp<T>> = Vec::new();
        let path = path2d_from_shape(shape, flatten);
        let ghost commands = path@;
        ops.push(CanvasOp::ClipPath(path, FillRule::Winding));
        assert(op_views(ops@) =~= clip_ops(commands));
        ops
    }

    /// The text services of the adapter.
    pub fn text(&mut self) -> (text: &mut Text)
        ensures
            text.source() == old(self).source(),
            final(self).source() == final(text).source(),
    {
        &mut self.text
    }

    /// Draws the text of `layout` with its origin at `pos`.
    pub fn draw_text<T>(layout: &PathfinderTextLayout, pos: Point<T>) -> (ops: Vec<
        CanvasOp<T>,
    >)
        ensures
            op_views(ops@) == seq![CanvasOpView::FillText(layout@, pos)],
    {
        let mut ops: Vec<CanvasOp<T>> = Vec::new();
        ops.push(CanvasOp::FillText(layout.text().to_owned(), pos));
        assert(op_views(ops@) =~= seq![CanvasOpView::FillText(layout@, pos)]);
        ops
    }

    /// Pushes the drawing state on the stack of the canvas.
    pub fn save<T>() -> (r: Result<Vec<CanvasOp<T>>, Error>)
        ensures
            r matches Ok(ops) && op_views(ops@) == seq![CanvasOpView::<T>::Save],
    {
        let mut ops: Vec<CanvasOp<T>> = Vec::new();
        ops.push(CanvasOp::Save);
        assert(op_views(ops@) =~= seq![CanvasOpView::<T>::Save]);
        Ok(ops)
    }

    /// Pops the drawing state from the stack of the canvas.
    pub fn restore<T>() -> (r: Result<Vec<CanvasOp<T>>, Error>)
        ensures
            r matches Ok(ops) && op_views(ops@) == seq![CanvasOpView::<T>::Restore],
    {
        let mut ops: Vec<CanvasOp<T>> = Vec::new();
        ops.push(CanvasOp::Restore);
        assert(op_views(ops@) =~= seq![CanvasOpView::<T>::Restore]);
        Ok(ops)
    }

    /// Ends the drawing. Nothing is left to do.
    pub fn finish() -> (r: Result<(), Error>)
        ensures
            r is Ok,
    {
        Ok(())
    }

    /// Replaces the transform of the canvas by the affine map with the
    /// generic coefficients `transform`.
    pub fn transform<T: Copy>(transform: [T; 6]) -> (ops: Vec<CanvasOp<T>>)
        ensures
            op_views(ops@) == seq![CanvasOpView::SetTransform(backend_form(transform@))],
    {
        let mut ops: Vec<CanvasOp<T>> = Vec::new();
        ops.push(CanvasOp::SetTransform(to_backend(transform)));
        assert(op_views(ops@) =~= seq![CanvasOpView::SetTransform(backend_form(transform@))]);
        ops
    }

    /// The generic coefficients of `backend`, the transform that the canvas
    /// reports as its current one.
    pub fn current_transform<T: Copy>(backend: RowMajor<T>) -> (coeffs: [T; 6])
        ensures
            coeffs@ == generic_form(backend),
    {
        to_generic(backend)
    }

    /// Builds an image; see [`make_image`].
    pub fn make_image(width: usize, height: usize, buf: &[u8], format: ImageFormat) -> (r:
        Result<Image, Error>)
        ensures
            match r {
                Ok(image) => {
                    &&& make_image_error(width, height, buf@.len(), format) is None
                    &&& image@.width == width
                    &&& image@.height == height
                    &&& image@.bytes == buf@
                },
                Err(e) => make_image_error(width, height, buf@.len(), format) == Some(e),
            },
    {
        make_image(width, height, buf, format)
    }

    /// Draws `image` into `dst_rect`, after making `interp` the smoothing
    /// state of the canvas.
    pub fn draw_image<T>(image: &Image, dst_rect: Rect<T>, interp: InterpolationMode) -> (ops:
        Vec<CanvasOp<T>>)
        ensures
            op_views(ops@) == interpolation_ops::<T>(interp) + seq![
                CanvasOpView::DrawImage(image@, dst_rect),
            ],
    {
        let mut ops = Self::set_interpolation(interp);
        ops.push(CanvasOp::DrawImage(image.clone(), dst_rect));
        assert(op_views(ops@) =~= interpolation_ops::<T>(interp) + seq![
            CanvasOpView::DrawImage(image@, dst_rect),
        ]);
        ops
    }

    /// Draws the part of `image` inside `src_rect` into `dst_rect`, after
    /// making `interp` the smoothing state of the canvas.
    pub fn draw_image_area<T>(
        image: &Image,
        src_rect: Rect<T>,
        dst_rect: Rect<T>,
        interp: InterpolationMode,
    ) -> (ops: Vec<CanvasOp<T>>)
        ensures
            op_views(ops@) == interpolation_ops::<T>(interp) + seq![
                CanvasOpView::DrawSubimage(image@, src_rect, dst_rect),
            ],
    {
        let mut ops = Self::set_interpolation(interp);
        ops.push(CanvasOp::DrawSubimage(image.clone(), src_rect, dst_rect));
        assert(op_views(ops@) =~= interpolation_ops::<T>(interp) + seq![
            CanvasOpView::DrawSubimage(image@, src_rect, dst_rect),
        ]);
        ops
    }

    /// Reading the canvas back is not supported.
    pub fn capture_image_area<T>(src_rect: Rect<T>) -> (r: Result<Image, Error>)
        ensures
            r == Err::<Image, Error>(Error::NotSupported),
    {
        Err(Error::NotSupported)
    }

    /// A zeroed buffer for the blur of a rectangle that takes `width` by
    /// `height` pixels of one byte, or `None` if their number does not fit
    /// `usize`.
    pub fn blur_buffer(width: usize, height: usize) -> (r: Option<Vec<u8>>)
        ensures
            r is Some <==> width * height <= usize::MAX,
            r matches Some(data) ==> data@ == Seq::new((width * height) as nat, |i: int| 0u8),
    {
        match width.checked_mul(height) {
            Some(len) => {
                let data = vec![0u8; len];
                assert(data@ =~= Seq::new((width * height) as nat, |i: int| 0u8));
                Some(data)
            },
            None => None,
        }
    }

    /// Draws a blurred rectangle from the buffer that the blur was computed
    /// into: `width` by `height` values of one byte in `data`, to appear with
    /// their origin at `origin`. The buffer is widened to RGBA and made an
    /// image as [`make_image`] makes one. Where the size does not fit, nothing
    /// is drawn.
    pub fn blurred_rect<T>(width: usize, height: usize, data: &[u8], origin: Point<T>) -> (ops:
        Vec<CanvasOp<T>>)
        ensures
            blur_fits(width, height, data@.len()) ==> op_views(ops@) == seq![
                CanvasOpView::DrawImageAt(
                    (ImageView {
                        width: width as nat,
                        height: height as nat,
                        bytes: widened(data@),
                    }),
                    origin,
                ),
            ],
            !blur_fits(width, height, data@.len()) ==> ops@.len() == 0,
    {
        let mut ops: Vec<CanvasOp<T>> = Vec::new();
        let covers = match width.checked_mul(height) {
            Some(len) => len == data.len(),
            None => false,
        };
        if covers {
            if let Some(wide) = widen(data) {
                assert(4 * (width * height) == 4 * width * height) by (nonlinear_arith);
                if let Ok(image) = make_image(width, height, wide.as_slice(), ImageFormat::RgbaSeparate) {
                    let ghost view = image@;
                    ops.push(CanvasOp::DrawImageAt(image, origin));
                    assert(op_views(ops@) =~= seq![CanvasOpView::DrawImageAt(view, origin)]);
                }
            }
        }
        ops
    }
}

} // verus!
