//! Brushes and the style mapper.

use piet::{Color, FixedGradient};
use vstd::prelude::*;

verus! {

/// A colour of the drawing interface.
#[verifier::external_type_specification]
#[verifier::external_body]
pub struct ExColor(Color);

/// The description of a gradient in the drawing interface. It is accepted
/// and never looked into.
#[verifier::external_type_specification]
#[verifier::external_body]
pub struct ExFixedGradient(FixedGradient);

/// How a shape is painted.
#[derive(Clone, Copy, Debug, PartialEq, Eq)]
pub enum Brush {
    /// One colour, packed as `0xRRGGBBAA`.
    Solid(u32),
    /// A gradient. It is recognised but has no realisation on the backend.
    Gradient,
}

/// A colour of four 8-bit channels.
#[derive(Clone, Copy, Debug, PartialEq, Eq)]
pub struct ColorU {
    pub r: u8,
    pub g: u8,
    pub b: u8,
    pub a: u8,
}

/// A fill or stroke style of the backend.
#[derive(Clone, Copy, Debug, PartialEq, Eq)]
pub enum FillStyle {
    Color(ColorU),
}

/// What `Color::as_rgba_u32` returns: the colour as one number,
/// `0xRRGGBBAA`.
pub uninterp spec fn packed(color: Color) -> u32;

/// Calls `piet::Color::as_rgba_u32`.
#[verifier::external_body]
pub(crate) fn color_as_rgba_u32(color: Color) -> (rgba: u32)
    ensures
        rgba == packed(color),
{
    color.as_rgba_u32()
}

/// The four channels of a colour packed as `0xRRGGBBAA`.
pub open spec fn unpacked(rgba: u32) -> ColorU {
    ColorU {
        r: (rgba >> 24) as u8,
        g: ((rgba >> 16) & 0xff) as u8,
        b: ((rgba >> 8) & 0xff) as u8,
        a: (rgba & 0xff) as u8,
    }
}

/// The backend style that a brush resolves to, if it has one.
pub open spec fn style_of(brush: Brush) -> Option<FillStyle> {
    match brush {
        Brush::Solid(rgba) => Some(FillStyle::Color(unpacked(rgba))),
        Brush::Gradient => None,
    }
}

/// Splits a packed colour into its channels: red from the highest byte
/// down to alpha in the lowest.
pub fn color_from_u32(rgba: u32) -> (color: ColorU)
    ensures
        color == unpacked(rgba),
{
    ColorU {
        r: (rgba >> 24) as u8,
        g: ((rgba >> 16) & 0xff) as u8,
        b: ((rgba >> 8) & 0xff) as u8,
        a: (rgba & 0xff) as u8,
    }
}

impl Brush {
    /// A brush of the one colour `color`.
    pub fn solid(color: Color) -> (brush: Brush)
        ensures
            brush == Brush::Solid(packed(color)),
    {
        Brush::Solid(color_as_rgba_u32(color))
    }

    /// A gradient brush. The description is accepted and dropped.
    pub fn gradient(gradient: FixedGradient) -> (brush: Brush)
        ensures
            brush == Brush::Gradient,
    {
        Brush::Gradient
    }

    /// The backend style of the brush: the colour of a solid brush, nothing
    /// for a gradient.
    pub fn style(&self) -> (style: Option<FillStyle>)
        ensures
            style == style_of(*self),
    {
        match *self {
            Brush::Solid(color) => Some(FillStyle::Color(color_from_u32(color))),
            Brush::Gradient => None,
        }
    }

    /// The brush to paint with inside the bounding box that `bbox` would
    /// compute. No brush depends on the box, so `bbox` is never called and
    /// the brush itself comes back.
    pub fn make_brush<R, F: FnOnce() -> R>(&self, bbox: F) -> (brush: &Brush)
        ensures
            *brush == *self,
    {
        self
    }
}

/// Resolves a brush to the backend style to set before drawing.
///
/// A solid brush gives its colour. A gradient gives `None`: the style that was
/// set last stays in force. Neither needs the bounding box, so `bbox` is never
/// called.
pub fn resolve<R, F: FnOnce() -> R>(brush: &Brush, bbox: F) -> (style: Option<FillStyle>)
    ensures
        style == style_of(*brush),
{
    brush.make_brush(bbox).style()
}

} // verus!
