//! Text: font registration and lookup, and text layouts.
//!
//! A layout keeps the text it was built from. Shaping is left to a layout
//! engine, so every question about metrics is answered with
//! [`Error::NotSupported`].

use crate::error::Error;
use crate::font_source::{family_name, FontSource, LoadedFont};
use font_kit::error::FontLoadingError;
use crate::geometry::{Point, Rect};
use piet::{
    FontFamily, HitTestPoint, HitTestPosition, LineMetric, TextAlignment, TextAttribute,
};
use vstd::prelude::*;

verus! {

/// How the drawing interface aligns the lines of a layout. It is accepted
/// and never looked into.
#[verifier::external_type_specification]
#[verifier::external_body]
pub struct ExTextAlignment(TextAlignment);

/// An attribute of a run of text in the drawing interface. It is accepted
/// and never looked into.
#[verifier::external_type_specification]
#[verifier::external_body]
pub struct ExTextAttribute(TextAttribute);

/// The metrics of one line of a layout in the drawing interface.
#[verifier::external_type_specification]
#[verifier::external_body]
pub struct ExLineMetric(LineMetric);

/// The place in a text that a point falls on, in the drawing interface.
#[verifier::external_type_specification]
#[verifier::external_body]
pub struct ExHitTestPoint(HitTestPoint);

/// The place in a layout of a position in the text, in the drawing interface.
#[verifier::external_type_specification]
#[verifier::external_body]
pub struct ExHitTestPosition(HitTestPosition);

/// The text side of a render context: it owns the font source.
pub struct Text {
    font_source: FontSource,
}

impl Text {
    /// The font source behind this value.
    pub closed spec fn source(&self) -> FontSource {
        self.font_source
    }

    /// Text services on top of `font_source`.
    pub fn new(font_source: FontSource) -> (text: Self)
        ensures
            text.source() == font_source,
    {
        Text { font_source }
    }

    /// The font source, for lookups.
    pub fn font_source(&self) -> (source: &FontSource)
        ensures
            *source == self.source(),
    {
        &self.font_source
    }

    /// The family called `name`, if a lookup by that name finds one. A family
    /// registered in memory is always found.
    pub fn font_family(&mut self, name: &str) -> (r: Option<FontFamily>)
        ensures
            final(self).source() == old(self).source(),
            old(self).source().families().contains(name@) ==> r is Some,
            old(self).source().providers() == 0 ==> (r is Some <==> old(
                self,
            ).source().families().contains(name@)),
            r matches Some(family) ==> family_name(family) == name@,
    {
        self.font_source.font_family(name)
    }

    /// Registers the font in `data`, of which the loader reported `loaded`,
    /// as [`FontSource::load_font`] does, and returns its family.
    pub fn load_font(&mut self, data: &[u8], loaded: Result<LoadedFont, FontLoadingError>) -> (r:
        Result<FontFamily, Error>)
        ensures
            old(self).source().load_font_outcome(data@, loaded, r, final(self).source()),
    {
        self.font_source.load_font(data, loaded)
    }

    /// Starts a layout of `text`.
    pub fn new_text_layout(&mut self, text: String) -> (builder: TextLayoutBuilder)
        ensures
            final(self).source() == old(self).source(),
            builder@ == text@,
    {
        TextLayoutBuilder { text }
    }
}

/// Builds a layout. Width, alignment and attributes are accepted and not
/// applied.
#[derive(Clone, Debug, PartialEq, Eq)]
pub struct TextLayoutBuilder {
    text: String,
}

impl View for TextLayoutBuilder {
    type V = Seq<char>;

    /// The text to lay out.
    closed spec fn view(&self) -> Seq<char> {
        self.text@
    }
}

impl TextLayoutBuilder {
    /// Accepts a maximum width.
    pub fn max_width<T>(self, width: T) -> (builder: Self)
        ensures
            builder == self,
    {
        self
    }

    /// Accepts an alignment.
    pub fn alignment(self, alignment: TextAlignment) -> (builder: Self)
        ensures
            builder == self,
    {
        self
    }

    /// Accepts an attribute for the whole text.
    pub fn default_attribute(self, attribute: TextAttribute) -> (builder: Self)
        ensures
            builder == self,
    {
        self
    }

    /// Accepts an attribute for the bytes from `start` up to `end`.
    pub fn range_attribute(self, start: usize, end: usize, attribute: TextAttribute) -> (builder:
        Self)
        ensures
            builder == self,
    {
        self
    }

    /// Finishes the layout, which keeps exactly the text given to the
    /// builder. This never fails.
    pub fn build(self) -> (r: Result<PathfinderTextLayout, Error>)
        ensures
            r matches Ok(layout) && layout@ == self@,
    {
        Ok(PathfinderTextLayout { inner: self.text })
    }
}

/// A text layout: the text, without metrics.
#[derive(Clone, Debug, PartialEq, Eq)]
pub struct PathfinderTextLayout {
    inner: String,
}

impl View for PathfinderTextLayout {
    type V = Seq<char>;

    /// The text of the layout.
    closed spec fn view(&self) -> Seq<char> {
        self.inner@
    }
}

impl PathfinderTextLayout {
    /// The text that the layout was built from.
    pub fn text(&self) -> (text: &str)
        ensures
            text@ == self@,
    {
        self.inner.as_str()
    }

    /// The size of the layout: not supported.
    pub fn size<T>(&self) -> (r: Result<(T, T), Error>)
        ensures
            r == Err::<(T, T), Error>(Error::NotSupported),
    {
        Err(Error::NotSupported)
    }

    /// The width of the whitespace that trails the text: not supported.
    pub fn trailing_whitespace_width<T>(&self) -> (r: Result<T, Error>)
        ensures
            r == Err::<T, Error>(Error::NotSupported),
    {
        Err(Error::NotSupported)
    }

    /// The rectangle that the inked text covers: not supported.
    pub fn image_bounds<T>(&self) -> (r: Result<Rect<T>, Error>)
        ensures
            r == Err::<Rect<T>, Error>(Error::NotSupported),
    {
        Err(Error::NotSupported)
    }

    /// The text of a line: not supported.
    pub fn line_text(&self, line_number: usize) -> (r: Result<&str, Error>)
        ensures
            r == Err::<&str, Error>(Error::NotSupported),
    {
        Err(Error::NotSupported)
    }

    /// The metrics of a line: not supported.
    pub fn line_metric(&self, line_number: usize) -> (r: Result<LineMetric, Error>)
        ensures
            r == Err::<LineMetric, Error>(Error::NotSupported),
    {
        Err(Error::NotSupported)
    }

    /// The number of lines: not supported.
    pub fn line_count(&self) -> (r: Result<usize, Error>)
        ensures
            r == Err::<usize, Error>(Error::NotSupported),
    {
        Err(Error::NotSupported)
    }

    /// The place in the text that `point` falls on: not supported.
    pub fn hit_test_point<T>(&self, point: Point<T>) -> (r: Result<HitTestPoint, Error>)
        ensures
            r == Err::<HitTestPoint, Error>(Error::NotSupported),
    {
        Err(Error::NotSupported)
    }

    /// The place in the layout of the byte at `idx`: not supported.
    pub fn hit_test_text_position(&self, idx: usize) -> (r: Result<HitTestPosition, Error>)
        ensures
            r == Err::<HitTestPosition, Error>(Error::NotSupported),
    {
        Err(Error::NotSupported)
    }
}

} // verus!
