//! The shape-to-path converter: turns a shape into the path-builder commands
//! of the backend.

use crate::geometry::{Line, PathEl, Point, Rect, Shape};
use vstd::prelude::*;

verus! {

/// The tolerance to flatten curves with, in tenths of a unit of the shape's
/// own coordinates: curves are flattened to within 0.1.
pub const FLATTENING_TOLERANCE_TENTHS: u32 = 1;

/// One call on the backend's path builder.
#[derive(Clone, Copy, Debug, PartialEq)]
pub enum PathCommand<T> {
    /// Begin a new subpath at the point.
    MoveTo(Point<T>),
    /// Straight segment to the point.
    LineTo(Point<T>),
    /// Quadratic curve: control point, end point.
    QuadraticCurveTo(Point<T>, Point<T>),
    /// Cubic curve: two control points, end point.
    BezierCurveTo(Point<T>, Point<T>, Point<T>),
    /// Close the current subpath.
    ClosePath,
    /// The backend's own rectangle primitive.
    Rect(Rect<T>),
}

/// The command that a path element becomes.
pub open spec fn command_of<T>(element: PathEl<T>) -> PathCommand<T> {
    match element {
        PathEl::MoveTo(p) => PathCommand::MoveTo(p),
        PathEl::LineTo(p) => PathCommand::LineTo(p),
        PathEl::QuadTo(ctrl, to) => PathCommand::QuadraticCurveTo(ctrl, to),
        PathEl::CurveTo(ctrl0, ctrl1, to) => PathCommand::BezierCurveTo(ctrl0, ctrl1, to),
        PathEl::ClosePath => PathCommand::ClosePath,
    }
}

/// The commands of a sequence of path elements: one command per element, in
/// the same order.
pub open spec fn commands_of<T>(elements: Seq<PathEl<T>>) -> Seq<PathCommand<T>> {
    Seq::new(elements.len(), |i: int| command_of(elements[i]))
}

/// The commands of a single line segment: a move and a line.
pub open spec fn line_commands<T>(line: Line<T>) -> Seq<PathCommand<T>> {
    seq![PathCommand::MoveTo(line.p0), PathCommand::LineTo(line.p1)]
}

/// The commands of a rectangle: the rectangle primitive alone.
pub open spec fn rect_commands<T>(rect: Rect<T>) -> Seq<PathCommand<T>> {
    seq![PathCommand::Rect(rect)]
}

/// The commands of a shape, where `flattened` stands for the elements that
/// flattening yields. The first facet that the shape offers decides.
pub open spec fn shape_commands<T>(shape: Shape<T>, flattened: Seq<PathEl<T>>) -> Seq<
    PathCommand<T>,
> {
    if let Some(line) = shape.line {
        line_commands(line)
    } else if let Some(rect) = shape.rect {
        rect_commands(rect)
    } else if let Some(elements) = shape.path {
        commands_of(elements@)
    } else {
        commands_of(flattened)
    }
}

/// True when `path` is a conversion of `shape`: the commands of the first
/// facet that the shape offers or, for a shape that offers none, the commands
/// of elements that a call of `flatten` may return.
pub open spec fn converts_to<T, F: FnOnce() -> Vec<PathEl<T>>>(
    shape: Shape<T>,
    flatten: F,
    path: Seq<PathCommand<T>>,
) -> bool {
    if shape.needs_flattening() {
        exists|flattened: Vec<PathEl<T>>|
            flatten.ensures((), flattened) && path == #[trigger] shape_commands(shape, flattened@)
    } else {
        path == shape_commands(shape, Seq::empty())
    }
}

/// The conversion keeps open what is open and closed what is closed: there
/// is one command for each element, and a command closes the subpath exactly
/// where the element does.
pub proof fn lemma_close_path_is_kept<T>(elements: Seq<PathEl<T>>, i: int)
    requires
        0 <= i < elements.len(),
    ensures
        commands_of(elements).len() == elements.len(),
        commands_of(elements)[i] is ClosePath <==> elements[i] is ClosePath,
{
}

/// Appends to `path` the command for `element`.
pub fn apply_el<T>(path: &mut Vec<PathCommand<T>>, element: PathEl<T>)
    ensures
        final(path)@ == old(path)@.push(command_of(element)),
{
    match element {
        PathEl::MoveTo(point) => {
            path.push(PathCommand::MoveTo(point));
        },
        PathEl::LineTo(point) => {
            path.push(PathCommand::LineTo(point));
        },
        PathEl::QuadTo(ctrl_point, to_point) => {
            path.push(PathCommand::QuadraticCurveTo(ctrl_point, to_point));
        },
        PathEl::CurveTo(ctrl0_point, ctrl1_point, to_point) => {
            path.push(PathCommand::BezierCurveTo(ctrl0_point, ctrl1_point, to_point));
        },
        PathEl::ClosePath => {
            path.push(PathCommand::ClosePath);
        },
    }
}

/// Turns path elements into commands, one for one.
pub fn path_from_elements<T: Copy>(elements: &Vec<PathEl<T>>) -> (path: Vec<PathCommand<T>>)
    ensures
        path@ == commands_of(elements@),
{
    let mut path: Vec<PathCommand<T>> = Vec::new();
    let mut i: usize = 0;
    while i < elements.len()
        invariant
            i <= elements.len(),
            path@ == commands_of(elements@.take(i as int)),
        decreases elements.len() - i,
    {
        apply_el(&mut path, elements[i]);
        i += 1;
        assert(path@ =~= commands_of(elements@.take(i as int)));
    }
    assert(elements@.take(i as int) =~= elements@);
    path
}

/// Converts a shape into path commands.
///
/// A line becomes a move and a line; a rectangle becomes the rectangle
/// primitive; an explicit path is converted element by element. Only a shape
/// that offers none of these is flattened, by one call of `flatten`, and the
/// elements that come back are converted in the same way.
pub fn path2d_from_shape<T: Copy, F: FnOnce() -> Vec<PathEl<T>>>(shape: &Shape<T>, flatten: F) -> (path: Vec<
    PathCommand<T>,
>)
    requires
        shape.needs_flattening() ==> flatten.requires(()),
    ensures
        converts_to(*shape, flatten, path@),
{
    let mut path: Vec<PathCommand<T>> = Vec::new();
    if let Some(line) = shape.line {
        path.push(PathCommand::MoveTo(line.p0));
        path.push(PathCommand::LineTo(line.p1));
        assert(path@ =~= line_commands(line));
    } else if let Some(rect) = shape.rect {
        path.push(PathCommand::Rect(rect));
        assert(path@ =~= rect_commands(rect));
    } else if let Some(elements) = &shape.path {
        path = path_from_elements(elements);
    } else {
        let flattened = flatten();
        path = path_from_elements(&flattened);
        assert(path@ == shape_commands(*shape, flattened@));
    }
    path
}

/// How a contour uses one of its points.
#[derive(Clone, Copy, Debug, PartialEq, Eq)]
pub enum PointRole {
    /// The contour passes through the point.
    OnCurve,
    /// First control point of the curve that ends at the next point on the
    /// contour.
    FirstControl,
    /// Second control point of a cubic curve.
    SecondControl,
}

/// A point of a contour together with its role.
#[derive(Clone, Copy, Debug, PartialEq)]
pub struct ContourPoint<T> {
    pub position: Point<T>,
    pub role: PointRole,
}

/// One contour of an outline: its points in drawing order, and whether the
/// last point is joined back to the first.
#[derive(Clone, Debug, PartialEq)]
pub struct Contour<T> {
    pub points: Vec<ContourPoint<T>>,
    pub closed: bool,
}

/// The mathematical value of a [`Contour`].
pub struct ContourView<T> {
    pub points: Seq<ContourPoint<T>>,
    pub closed: bool,
}

impl<T> View for Contour<T> {
    type V = ContourView<T>;

    open spec fn view(&self) -> ContourView<T> {
        ContourView { points: self.points@, closed: self.closed }
    }
}

/// A path while it is being traced: the contours already set aside and the
/// one that further commands still extend.
pub struct Tracing<T> {
    pub finished: Seq<ContourView<T>>,
    pub current: ContourView<T>,
}

/// A point that the contour passes through.
pub open spec fn on_curve<T>(position: Point<T>) -> ContourPoint<T> {
    ContourPoint { position, role: PointRole::OnCurve }
}

/// The contour that holds no point and is open.
pub open spec fn empty_contour<T>() -> ContourView<T> {
    ContourView { points: Seq::empty(), closed: false }
}

impl<T> Tracing<T> {
    /// Nothing traced yet.
    pub open spec fn start() -> Self {
        Tracing { finished: Seq::empty(), current: empty_contour() }
    }

    /// Sets the current contour aside, unless it holds no point.
    pub open spec fn flush(self) -> Self {
        if self.current.points.len() == 0 {
            self
        } else {
            Tracing { finished: self.finished.push(self.current), current: empty_contour() }
        }
    }

    /// Adds points to the current contour.
    pub open spec fn extend(self, points: Seq<ContourPoint<T>>) -> Self {
        Tracing {
            finished: self.finished,
            current: ContourView {
                points: self.current.points + points,
                closed: self.current.closed,
            },
        }
    }

    /// Marks the current contour as closed.
    pub open spec fn close(self) -> Self {
        Tracing {
            finished: self.finished,
            current: ContourView { points: self.current.points, closed: true },
        }
    }

    /// The effect of one command.
    pub open spec fn step(self, command: PathCommand<T>) -> Self {
        match command {
            PathCommand::MoveTo(to) => self.flush().extend(seq![on_curve(to)]),
            PathCommand::LineTo(to) => self.extend(seq![on_curve(to)]),
            PathCommand::QuadraticCurveTo(ctrl, to) => self.extend(
                seq![ContourPoint { position: ctrl, role: PointRole::FirstControl }, on_curve(to)],
            ),
            PathCommand::BezierCurveTo(ctrl0, ctrl1, to) => self.extend(
                seq![
                    ContourPoint { position: ctrl0, role: PointRole::FirstControl },
                    ContourPoint { position: ctrl1, role: PointRole::SecondControl },
                    on_curve(to),
                ],
            ),
            PathCommand::ClosePath => self.close(),
            PathCommand::Rect(rect) => self.flush().extend(
                seq![
                    on_curve(rect.origin()),
                    on_curve(rect.upper_right()),
                    on_curve(rect.lower_right()),
                    on_curve(rect.lower_left()),
                ],
            ).close(),
        }
    }

    /// The effect of a command sequence, from the first command to the last.
    pub open spec fn run(commands: Seq<PathCommand<T>>) -> Self
        decreases commands.len(),
    {
        if commands.len() == 0 {
            Self::start()
        } else {
            Self::run(commands.drop_last()).step(commands.last())
        }
    }
}

/// The contours that a command sequence traces.
pub open spec fn contours_of<T>(commands: Seq<PathCommand<T>>) -> Seq<ContourView<T>> {
    Tracing::run(commands).flush().finished
}

/// The four sides of a rectangle written out as a closed path, starting at
/// the origin and passing the corners in the order of the rectangle
/// primitive.
pub open spec fn rect_as_path<T>(rect: Rect<T>) -> Seq<PathEl<T>> {
    seq![
        PathEl::MoveTo(rect.origin()),
        PathEl::LineTo(rect.upper_right()),
        PathEl::LineTo(rect.lower_right()),
        PathEl::LineTo(rect.lower_left()),
        PathEl::ClosePath,
    ]
}

/// The views of a vector of contours.
pub open spec fn contour_views<T>(contours: Seq<Contour<T>>) -> Seq<ContourView<T>> {
    Seq::new(contours.len(), |i: int| contours[i]@)
}

/// Running one more command continues from where the shorter sequence ended.
pub proof fn lemma_run_push<T>(commands: Seq<PathCommand<T>>, command: PathCommand<T>)
    ensures
        Tracing::run(commands.push(command)) == Tracing::run(commands).step(command),
{
    assert(commands.push(command).drop_last() =~= commands);
}

/// A rectangle and the closed path along its four sides trace the same
/// single closed contour, so they cover the same area when filled.
pub proof fn lemma_rect_matches_closed_path<T>(rect: Rect<T>)
    ensures
        contours_of(rect_commands(rect)) == contours_of(commands_of(rect_as_path(rect))),
        contours_of(rect_commands(rect)) == seq![
            ContourView {
                points: seq![
                    on_curve(rect.origin()),
                    on_curve(rect.upper_right()),
                    on_curve(rect.lower_right()),
                    on_curve(rect.lower_left()),
                ],
                closed: true,
            },
        ],
{
    let corners = seq![
        on_curve(rect.origin()),
        on_curve(rect.upper_right()),
        on_curve(rect.lower_right()),
        on_curve(rect.lower_left()),
    ];
    let whole = ContourView { points: corners, closed: true };

    let prim = rect_commands(rect);
    lemma_run_push(Seq::empty(), PathCommand::Rect(rect));
    assert(prim =~= Seq::<PathCommand<T>>::empty().push(PathCommand::Rect(rect)));
    assert(Tracing::<T>::run(Seq::empty()) == Tracing::<T>::start());
    let after_prim = Tracing::run(prim);
    assert(after_prim.current.points =~= corners);
    assert(after_prim.finished =~= Seq::empty());
    assert(contours_of(prim) =~= seq![whole]);

    let c0 = PathCommand::MoveTo(rect.origin());
    let c1 = PathCommand::LineTo(rect.upper_right());
    let c2 = PathCommand::LineTo(rect.lower_right());
    let c3 = PathCommand::LineTo(rect.lower_left());
    let c4 = PathCommand::<T>::ClosePath;
    let s0 = Seq::<PathCommand<T>>::empty();
    let s1 = s0.push(c0);
    let s2 = s1.push(c1);
    let s3 = s2.push(c2);
    let s4 = s3.push(c3);
    let s5 = s4.push(c4);
    assert(commands_of(rect_as_path(rect)) =~= s5);
    lemma_run_push(s0, c0);
    lemma_run_push(s1, c1);
    lemma_run_push(s2, c2);
    lemma_run_push(s3, c3);
    lemma_run_push(s4, c4);
    let t1 = Tracing::run(s1);
    assert(t1.current.points =~= seq![on_curve(rect.origin())]);
    let t2 = Tracing::run(s2);
    assert(t2.current.points =~= seq![on_curve(rect.origin()), on_curve(rect.upper_right())]);
    let t3 = Tracing::run(s3);
    assert(t3.current.points =~= seq![
        on_curve(rect.origin()),
        on_curve(rect.upper_right()),
        on_curve(rect.lower_right()),
    ]);
    let t5 = Tracing::run(s5);
    assert(t5.current.points =~= corners);
    assert(t5.finished =~= Seq::empty());
    assert(contours_of(s5) =~= seq![whole]);
}

/// Sets `current` aside in `finished`, unless it holds no point, and leaves
/// an empty open contour in its place.
fn flush_contour<T>(finished: &mut Vec<Contour<T>>, current: &mut Contour<T>)
    ensures
        (Tracing { finished: contour_views(final(finished)@), current: final(current)@ }) == (Tracing {
            finished: contour_views(old(finished)@),
            current: old(current)@,
        }).flush(),
{
    if current.points.len() > 0 {
        let mut done: Contour<T> = Contour { points: Vec::new(), closed: false };
        std::mem::swap(current, &mut done);
        finished.push(done);
        assert(contour_views(finished@) =~= contour_views(old(finished)@).push(old(current)@));
        assert(current@ == empty_contour::<T>());
    }
}

/// Adds to `current` a point with the given role.
fn push_point<T>(current: &mut Contour<T>, position: Point<T>, role: PointRole)
    ensures
        final(current)@ == (ContourView {
            points: old(current)@.points.push(ContourPoint { position, role }),
            closed: old(current).closed,
        }),
{
    current.points.push(ContourPoint { position, role });
}

/// Traces `path` and returns the contours that it draws.
pub fn contours_from_path<T: Copy>(path: &Vec<PathCommand<T>>) -> (contours: Vec<Contour<T>>)
    ensures
        contour_views(contours@) == contours_of(path@),
{
    let mut finished: Vec<Contour<T>> = Vec::new();
    let mut current: Contour<T> = Contour { points: Vec::new(), closed: false };
    let mut i: usize = 0;
    assert(contour_views(finished@) =~= Seq::empty());
    while i < path.len()
        invariant
            i <= path.len(),
            (Tracing { finished: contour_views(finished@), current: current@ }) == Tracing::run(
                path@.take(i as int),
            ),
        decreases path.len() - i,
    {
        let command = path[i];
        let ghost before = Tracing { finished: contour_views(finished@), current: current@ };
        proof {
            lemma_run_push(path@.take(i as int), command);
            assert(path@.take(i + 1) =~= path@.take(i as int).push(command));
        }
        match command {
            PathCommand::MoveTo(to) => {
                flush_contour(&mut finished, &mut current);
                push_point(&mut current, to, PointRole::OnCurve);
                assert(current@.points =~= before.flush().extend(seq![on_curve(to)]).current.points);
            },
            PathCommand::LineTo(to) => {
                push_point(&mut current, to, PointRole::OnCurve);
                assert(current@.points =~= before.extend(seq![on_curve(to)]).current.points);
            },
            PathCommand::QuadraticCurveTo(ctrl, to) => {
                push_point(&mut current, ctrl, PointRole::FirstControl);
                push_point(&mut current, to, PointRole::OnCurve);
                assert(current@.points =~= before.step(command).current.points);
            },
            PathCommand::BezierCurveTo(ctrl0, ctrl1, to) => {
                push_point(&mut current, ctrl0, PointRole::FirstControl);
                push_point(&mut current, ctrl1, PointRole::SecondControl);
                push_point(&mut current, to, PointRole::OnCurve);
                assert(current@.points =~= before.step(command).current.points);
            },
            PathCommand::ClosePath => {
                current.closed = true;
            },
            PathCommand::Rect(rect) => {
                flush_contour(&mut finished, &mut current);
                push_point(&mut current, Point { x: rect.x0, y: rect.y0 }, PointRole::OnCurve);
                push_point(&mut current, Point { x: rect.x1, y: rect.y0 }, PointRole::OnCurve);
                push_point(&mut current, Point { x: rect.x1, y: rect.y1 }, PointRole::OnCurve);
                push_point(&mut current, Point { x: rect.x0, y: rect.y1 }, PointRole::OnCurve);
                current.closed = true;
                assert(current@.points =~= before.step(command).current.points);
            },
        }
        i += 1;
    }
    assert(path@.take(i as int) =~= path@);
    flush_contour(&mut finished, &mut current);
    finished
}

} // verus!
