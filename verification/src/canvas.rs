//! The operations of the backend canvas, as values.
//!
//! The adapter decides which operations a drawing call amounts to; whoever
//! holds the canvas performs them, in order, as soon as they are returned.

use crate::brush::FillStyle;
use crate::geometry::{Point, Rect};
use crate::image_bridge::{Image, ImageView};
use crate::path::PathCommand;
use crate::transform::RowMajor;
use vstd::prelude::*;

verus! {

/// Which points count as inside a path.
#[derive(Clone, Copy, Debug, PartialEq, Eq)]
pub enum FillRule {
    Winding,
    EvenOdd,
}

/// How carefully images are smoothed when they are scaled.
#[derive(Clone, Copy, Debug, PartialEq, Eq)]
pub enum ImageSmoothingQuality {
    Low,
    Medium,
    High,
}

/// One operation on the backend canvas.
#[derive(Clone, Debug, PartialEq)]
pub enum CanvasOp<T> {
    /// Set the style that fills and strokes paint with.
    SetFillStyle(FillStyle),
    /// Fill a rectangle with the current style.
    FillRect(Rect<T>),
    /// Clear the whole canvas.
    Clear,
    /// Set the width of strokes.
    SetLineWidth(T),
    /// Stroke a path.
    StrokePath(Vec<PathCommand<T>>),
    /// Fill a path.
    FillPath(Vec<PathCommand<T>>, FillRule),
    /// Intersect the clip region with the inside of a path.
    ClipPath(Vec<PathCommand<T>>, FillRule),
    /// Draw a string, starting at a point.
    FillText(String, Point<T>),
    /// Push the drawing state.
    Save,
    /// Pop the drawing state.
    Restore,
    /// Replace the current transform.
    SetTransform(RowMajor<T>),
    /// Switch the smoothing of images on or off.
    SetImageSmoothingEnabled(bool),
    /// Set the quality of the smoothing of images.
    SetImageSmoothingQuality(ImageSmoothingQuality),
    /// Draw an image into a rectangle.
    DrawImage(Image, Rect<T>),
    /// Draw the part of an image inside the first rectangle into the second.
    DrawSubimage(Image, Rect<T>, Rect<T>),
    /// Draw an image at its own size, its origin at a point.
    DrawImageAt(Image, Point<T>),
}

/// The mathematical value of a [`CanvasOp`].
pub enum CanvasOpView<T> {
    SetFillStyle(FillStyle),
    FillRect(Rect<T>),
    Clear,
    SetLineWidth(T),
    StrokePath(Seq<PathCommand<T>>),
    FillPath(Seq<PathCommand<T>>, FillRule),
    ClipPath(Seq<PathCommand<T>>, FillRule),
    FillText(Seq<char>, Point<T>),
    Save,
    Restore,
    SetTransform(RowMajor<T>),
    SetImageSmoothingEnabled(bool),
    SetImageSmoothingQuality(ImageSmoothingQuality),
    DrawImage(ImageView, Rect<T>),
    DrawSubimage(ImageView, Rect<T>, Rect<T>),
    DrawImageAt(ImageView, Point<T>),
}

impl<T> View for CanvasOp<T> {
    type V = CanvasOpView<T>;

    open spec fn view(&self) -> CanvasOpView<T> {
        match *self {
            CanvasOp::SetFillStyle(style) => CanvasOpView::SetFillStyle(style),
            CanvasOp::FillRect(rect) => CanvasOpView::FillRect(rect),
            CanvasOp::Clear => CanvasOpView::Clear,
            CanvasOp::SetLineWidth(width) => CanvasOpView::SetLineWidth(width),
            CanvasOp::StrokePath(path) => CanvasOpView::StrokePath(path@),
            CanvasOp::FillPath(path, rule) => CanvasOpView::FillPath(path@, rule),
            CanvasOp::ClipPath(path, rule) => CanvasOpView::ClipPath(path@, rule),
            CanvasOp::FillText(text, at) => CanvasOpView::FillText(text@, at),
            CanvasOp::Save => CanvasOpView::Save,
            CanvasOp::Restore => CanvasOpView::Restore,
            CanvasOp::SetTransform(transform) => CanvasOpView::SetTransform(transform),
            CanvasOp::SetImageSmoothingEnabled(enabled) => CanvasOpView::SetImageSmoothingEnabled(
                enabled,
            ),
            CanvasOp::SetImageSmoothingQuality(quality) => CanvasOpView::SetImageSmoothingQuality(
                quality,
            ),
            CanvasOp::DrawImage(image, dst) => CanvasOpView::DrawImage(image@, dst),
            CanvasOp::DrawSubimage(image, src, dst) => CanvasOpView::DrawSubimage(image@, src, dst),
            CanvasOp::DrawImageAt(image, at) => CanvasOpView::DrawImageAt(image@, at),
        }
    }
}

/// The values of a sequence of operations.
pub open spec fn op_views<T>(ops: Seq<CanvasOp<T>>) -> Seq<CanvasOpView<T>> {
    Seq::new(ops.len(), |i: int| ops[i]@)
}

} // verus!
