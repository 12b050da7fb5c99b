//! Backend-independent geometry: points, lines, rectangles, path elements and
//! the facets through which a shape describes itself.

use vstd::prelude::*;

verus! {

/// A point in the plane.
#[derive(Clone, Copy, Debug, PartialEq)]
pub struct Point<T> {
    pub x: T,
    pub y: T,
}

/// A straight segment from `p0` to `p1`.
#[derive(Clone, Copy, Debug, PartialEq)]
pub struct Line<T> {
    pub p0: Point<T>,
    pub p1: Point<T>,
}

/// An axis-aligned rectangle given by two opposite corners.
#[derive(Clone, Copy, Debug, PartialEq)]
pub struct Rect<T> {
    pub x0: T,
    pub y0: T,
    pub x1: T,
    pub y1: T,
}

impl<T> Rect<T> {
    /// The corner `(x0, y0)`.
    pub open spec fn origin(self) -> Point<T> {
        Point { x: self.x0, y: self.y0 }
    }

    /// The corner `(x1, y0)`.
    pub open spec fn upper_right(self) -> Point<T> {
        Point { x: self.x1, y: self.y0 }
    }

    /// The corner `(x1, y1)`.
    pub open spec fn lower_right(self) -> Point<T> {
        Point { x: self.x1, y: self.y1 }
    }

    /// The corner `(x0, y1)`.
    pub open spec fn lower_left(self) -> Point<T> {
        Point { x: self.x0, y: self.y1 }
    }
}

/// One element of an explicit path.
#[derive(Clone, Copy, Debug, PartialEq)]
pub enum PathEl<T> {
    /// Start a new subpath at the point.
    MoveTo(Point<T>),
    /// A straight segment to the point.
    LineTo(Point<T>),
    /// A quadratic curve: control point, then end point.
    QuadTo(Point<T>, Point<T>),
    /// A cubic curve: two control points, then end point.
    CurveTo(Point<T>, Point<T>, Point<T>),
    /// Close the current subpath.
    ClosePath,
}

/// What a shape can say about itself without being flattened.
///
/// A shape may answer several of the questions at once; the converter takes
/// the first answer in the order line, rectangle, path. A shape that answers
/// none of them is an arbitrary curve and has to be flattened.
#[derive(Clone, Debug, PartialEq)]
pub struct Shape<T> {
    /// The shape as a single line segment, if it is exactly one.
    pub line: Option<Line<T>>,
    /// The shape as an axis-aligned rectangle, if it is exactly one.
    pub rect: Option<Rect<T>>,
    /// The shape's own path elements, if it already holds some.
    pub path: Option<Vec<PathEl<T>>>,
}

impl<T> Shape<T> {
    /// True when the shape offers neither a line, a rectangle nor a path.
    pub open spec fn needs_flattening(self) -> bool {
        self.line is None && self.rect is None && self.path is None
    }

    /// A shape that is exactly the segment `line`.
    pub fn from_line(line: Line<T>) -> (shape: Self)
        ensures
            shape.line == Some(line),
            shape.rect is None,
            shape.path is None,
    {
        Shape { line: Some(line), rect: None, path: None }
    }

    /// A shape that is exactly the rectangle `rect`.
    pub fn from_rect(rect: Rect<T>) -> (shape: Self)
        ensures
            shape.line is None,
            shape.rect == Some(rect),
            shape.path is None,
    {
        Shape { line: None, rect: Some(rect), path: None }
    }

    /// A shape that holds the explicit path `elements`.
    pub fn from_path(elements: Vec<PathEl<T>>) -> (shape: Self)
        ensures
            shape.line is None,
            shape.rect is None,
            shape.path == Some(elements),
    {
        Shape { line: None, rect: None, path: Some(elements) }
    }

    /// An arbitrary curve: a shape that can only be drawn after flattening.
    pub fn curve() -> (shape: Self)
        ensures
            shape.needs_flattening(),
    {
        Shape { line: None, rect: None, path: None }
    }
}

} // verus!
