//! Composing a drawing from a cloud of points.

use crate::error::HoloError;
use crate::extent::{greatest, least, NAN_BITS};
use crate::geometry::{Circle, Extents};
use crate::path::{commands_view, diamond_commands, push_diamond, PathCommand, ScalarCommand};
use crate::scalar::Scalar;
use vstd::prelude::*;
use vstd::string::*;

verus! {

/// The number 0.005, the width of a stroke.
pub const STROKE_WIDTH_BITS: u32 = 0x3ba3_d70a;

/// The number 0.25, the margin as a part of the raw extent.
pub const MARGIN_BITS: u32 = 0x3e80_0000;

/// A point of the cloud as it is drawn: where it lies on the plane, and the
/// size that its depth gives it under the strategy in use.
#[derive(Debug, Clone, Copy, PartialEq, Eq, Structural)]
pub struct SizedPoint {
    pub x: Scalar,
    pub y: Scalar,
    pub size: Scalar,
}

/// The least and the greatest coordinates of a cloud of points.
#[derive(Debug, Clone, Copy, PartialEq, Eq, Structural)]
pub struct Bounds {
    pub x_min: Scalar,
    pub x_max: Scalar,
    pub y_min: Scalar,
    pub y_max: Scalar,
}

/// An element of a drawing.
#[derive(Debug, Clone, PartialEq)]
pub enum Element {
    /// A circle.
    Circle(Circle),
    /// A path.
    Path(Vec<PathCommand<Scalar>>),
}

/// An element as plain values.
pub enum ElementView {
    Circle(Circle),
    Path(Seq<ScalarCommand>),
}

impl View for Element {
    type V = ElementView;

    open spec fn view(&self) -> ElementView {
        match self {
            Element::Circle(circle) => ElementView::Circle(*circle),
            Element::Path(data) => ElementView::Path(commands_view(data@)),
        }
    }
}

/// The elements as plain values.
pub open spec fn elements_view(elements: Seq<Element>) -> Seq<ElementView> {
    Seq::new(elements.len(), |i: int| elements[i]@)
}

/// A drawing: a canvas of a size in millimetres, the coordinate box that is
/// mapped onto it, the style shared by its elements, and the elements.
#[derive(Debug, Clone, PartialEq)]
pub struct Drawing {
    pub width: usize,
    pub height: usize,
    pub view_box: Extents,
    pub stroke: String,
    pub stroke_width: Scalar,
    pub fill: String,
    pub elements: Vec<Element>,
}

/// The x coordinates of the points.
pub open spec fn xs(points: Seq<SizedPoint>) -> Seq<Scalar> {
    Seq::new(points.len(), |i: int| points[i].x)
}

/// The y coordinates of the points.
pub open spec fn ys(points: Seq<SizedPoint>) -> Seq<Scalar> {
    Seq::new(points.len(), |i: int| points[i].y)
}

/// The bounds of a cloud, where it holds a number on each axis.
pub open spec fn bounds_of(points: Seq<SizedPoint>) -> Result<Bounds, HoloError> {
    if least(xs(points)).is_nan() || least(ys(points)).is_nan() {
        Err(HoloError::EmptyInput)
    } else {
        Ok(
            Bounds {
                x_min: least(xs(points)),
                x_max: greatest(xs(points)),
                y_min: least(ys(points)),
                y_max: greatest(ys(points)),
            },
        )
    }
}

/// The diamonds about all points, as the data of one path.
pub open spec fn diamonds(points: Seq<SizedPoint>) -> Seq<ScalarCommand>
    decreases points.len(),
{
    if points.len() == 0 {
        Seq::empty()
    } else {
        diamonds(points.drop_last()) + diamond_commands(
            points.last().x,
            points.last().y,
            points.last().size,
        )
    }
}

/// One circle about each point, of the point's size as its radius.
pub open spec fn circles(points: Seq<SizedPoint>) -> Seq<ElementView> {
    Seq::new(
        points.len(),
        |i: int| ElementView::Circle(Circle { cx: points[i].x, cy: points[i].y, r: points[i].size }),
    )
}

/// A way to draw a cloud of points.
pub trait HoloPointStrategy {
    /// The elements that the points are drawn as.
    spec fn rendering(&self, points: Seq<SizedPoint>) -> Seq<ElementView>;

    /// Adds the elements that the points are drawn as to `elements`.
    fn scribe_points(&self, elements: &mut Vec<Element>, points: &Vec<SizedPoint>)
        ensures
            elements_view(final(elements)@) == elements_view(old(elements)@) + self.rendering(
                points@,
            ),
    ;
}

/// Draws a diamond about each point. The size of a point's diamond is its
/// depth mapped linearly from the range of depths onto the range of sizes.
#[derive(Debug, Clone, Copy, PartialEq, Eq, Structural)]
pub struct DebugScriber {
    pub plane_start: Scalar,
    pub plane_end: Scalar,
    pub min_size: Scalar,
    pub max_size: Scalar,
}

/// Draws a circle about each point. The radius of a point's circle is its
/// depth times the scale factor: the deeper, the larger.
#[derive(Debug, Clone, Copy, PartialEq, Eq, Structural)]
pub struct CircleScriber {
    pub z_scale_factor: Scalar,
}

impl CircleScriber {
    /// A strategy with the given scale factor.
    pub fn new(z_scale_factor: Scalar) -> (s: Self)
        ensures
            s.z_scale_factor == z_scale_factor,
    {
        CircleScriber { z_scale_factor }
    }
}

impl HoloPointStrategy for DebugScriber {
    open spec fn rendering(&self, points: Seq<SizedPoint>) -> Seq<ElementView> {
        seq![ElementView::Path(diamonds(points))]
    }

    fn scribe_points(&self, elements: &mut Vec<Element>, points: &Vec<SizedPoint>) {
        let n = points.len();
        let mut data: Vec<PathCommand<Scalar>> = Vec::new();
        let mut i: usize = 0;
        assert(points@.take(0) =~= Seq::<SizedPoint>::empty());
        assert(commands_view(data@) =~= Seq::<ScalarCommand>::empty());
        while i < n
            invariant
                i <= n,
                n == points@.len(),
                commands_view(data@) == diamonds(points@.take(i as int)),
            decreases n - i,
        {
            proof {
                assert(points@.take(i + 1).drop_last() =~= points@.take(i as int));
                assert(points@.take(i + 1).last() == points@[i as int]);
            }
            push_diamond(&mut data, points[i].x, points[i].y, points[i].size);
            i += 1;
        }
        assert(points@.take(n as int) =~= points@);
        elements.push(Element::Path(data));
        assert(elements_view(elements@) =~= elements_view(old(elements)@) + self.rendering(
            points@,
        ));
    }
}

impl HoloPointStrategy for CircleScriber {
    open spec fn rendering(&self, points: Seq<SizedPoint>) -> Seq<ElementView> {
        circles(points)
    }

    fn scribe_points(&self, elements: &mut Vec<Element>, points: &Vec<SizedPoint>) {
        let n = points.len();
        let mut i: usize = 0;
        assert(elements_view(elements@) =~= elements_view(old(elements)@) + circles(
            points@,
        ).take(0));
        while i < n
            invariant
                i <= n,
                n == points@.len(),
                elements_view(elements@) == elements_view(old(elements)@) + circles(points@).take(
                    i as int,
                ),
            decreases n - i,
        {
            let ghost before = elements_view(elements@);
            let point = points[i];
            elements.push(Element::Circle(Circle { cx: point.x, cy: point.y, r: point.size }));
            assert(elements_view(elements@) =~= before.push(circles(points@)[i as int]));
            assert(elements_view(elements@) =~= elements_view(old(elements)@) + circles(
                points@,
            ).take(i + 1));
            i += 1;
        }
        assert(circles(points@).take(n as int) =~= circles(points@));
    }
}

/// Composes drawings with one strategy, canvas and style.
pub struct Scriber<S> {
    pub stroke: String,
    pub stroke_width: Scalar,
    pub fill: String,
    pub point_scribing_strategy: S,
    pub canvas_size: (usize, usize),
    pub margin_percentage: Scalar,
}

impl<S: HoloPointStrategy> Scriber<S> {
    /// A scriber that draws black strokes of width 0.005 without fill, and
    /// leaves a margin of a quarter of the raw extent.
    pub fn new(point_scribing_strategy: S, canvas_size: (usize, usize)) -> (s: Self)
        ensures
            s.stroke@ == seq!['b', 'l', 'a', 'c', 'k'],
            s.stroke_width.bits == STROKE_WIDTH_BITS,
            s.fill@ == seq!['n', 'o', 'n', 'e'],
            s.point_scribing_strategy == point_scribing_strategy,
            s.canvas_size == canvas_size,
            s.margin_percentage.bits == MARGIN_BITS,
    {
        proof {
            reveal_strlit("black");
            reveal_strlit("none");
            assert("black"@ =~= seq!['b', 'l', 'a', 'c', 'k']);
            assert("none"@ =~= seq!['n', 'o', 'n', 'e']);
        }
        Scriber {
            stroke: "black".to_owned(),
            stroke_width: Scalar { bits: STROKE_WIDTH_BITS },
            fill: "none".to_owned(),
            point_scribing_strategy,
            canvas_size,
            margin_percentage: Scalar { bits: MARGIN_BITS },
        }
    }

    /// The least and the greatest coordinate of the points on each axis,
    /// before any margin. Coordinates that are no numbers are passed over;
    /// a cloud without a number on one of the axes, such as the empty
    /// cloud, has no bounds.
    pub fn find_extent(&self, points: &Vec<SizedPoint>) -> (r: Result<Bounds, HoloError>)
        ensures
            r == bounds_of(points@),
    {
        let n = points.len();
        let nan = Scalar { bits: NAN_BITS };
        let mut x_min = nan;
        let mut x_max = nan;
        let mut y_min = nan;
        let mut y_max = nan;
        let mut i: usize = 0;
        assert(xs(points@).take(0) =~= Seq::<Scalar>::empty());
        assert(ys(points@).take(0) =~= Seq::<Scalar>::empty());
        while i < n
            invariant
                i <= n,
                n == points@.len(),
                x_min == least(xs(points@).take(i as int)),
                x_max == greatest(xs(points@).take(i as int)),
                y_min == least(ys(points@).take(i as int)),
                y_max == greatest(ys(points@).take(i as int)),
            decreases n - i,
        {
            proof {
                assert(xs(points@).take(i + 1).drop_last() =~= xs(points@).take(i as int));
                assert(ys(points@).take(i + 1).drop_last() =~= ys(points@).take(i as int));
                assert(xs(points@).take(i + 1).last() == points@[i as int].x);
                assert(ys(points@).take(i + 1).last() == points@[i as int].y);
            }
            let point = points[i];
            x_min = x_min.min(point.x);
            x_max = x_max.max(point.x);
            y_min = y_min.min(point.y);
            y_max = y_max.max(point.y);
            i += 1;
        }
        assert(xs(points@).take(n as int) =~= xs(points@));
        assert(ys(points@).take(n as int) =~= ys(points@));
        if x_min.not_a_number() || y_min.not_a_number() {
            Err(HoloError::EmptyInput)
        } else {
            Ok(Bounds { x_min, x_max, y_min, y_max })
        }
    }

    /// The drawing of a cloud of points: a canvas of the scriber's size
    /// that shows `view_box`, with the elements that the scriber's
    /// strategy draws the points as. There is no drawing of an empty cloud.
    pub fn scribe(&self, points: &Vec<SizedPoint>, view_box: Extents) -> (r: Result<
        Drawing,
        HoloError,
    >)
        ensures
            points@.len() == 0 ==> r == Err::<Drawing, HoloError>(HoloError::EmptyInput),
            points@.len() > 0 ==> r.is_ok() && ({
                let drawing = r.unwrap();
                &&& drawing.width == self.canvas_size.0
                &&& drawing.height == self.canvas_size.1
                &&& drawing.view_box == view_box
                &&& drawing.stroke@ == self.stroke@
                &&& drawing.stroke_width == self.stroke_width
                &&& drawing.fill@ == self.fill@
                &&& elements_view(drawing.elements@) == self.point_scribing_strategy.rendering(
                    points@,
                )
            }),
    {
        if points.len() == 0 {
            return Err(HoloError::EmptyInput);
        }
        let mut elements: Vec<Element> = Vec::new();
        assert(elements_view(elements@) =~= Seq::<ElementView>::empty());
        self.point_scribing_strategy.scribe_points(&mut elements, points);
        assert(Seq::<ElementView>::empty() + self.point_scribing_strategy.rendering(points@)
            =~= self.point_scribing_strategy.rendering(points@));
        Ok(
            Drawing {
                width: self.canvas_size.0,
                height: self.canvas_size.1,
                view_box,
                stroke: self.stroke.clone(),
                stroke_width: self.stroke_width,
                fill: self.fill.clone(),
                elements,
            },
        )
    }
}

/// For all clouds, the bounds are ordered on both axes, even those of a
/// single point: the least coordinate is at most the greatest.
pub proof fn lemma_bounds_are_ordered(points: Seq<SizedPoint>)
    requires
        bounds_of(points).is_ok(),
    ensures
        bounds_of(points).unwrap().x_min.le(bounds_of(points).unwrap().x_max),
        bounds_of(points).unwrap().y_min.le(bounds_of(points).unwrap().y_max),
{
    crate::extent::lemma_least_is_at_most_greatest(xs(points));
    crate::extent::lemma_least_is_at_most_greatest(ys(points));
}

} // verus!
