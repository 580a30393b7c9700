//! Composing the hologram of a drawing: its circles, each with the arc that
//! reflects the light.

use crate::animation::{animated_arc, swing, AnimatedArc};
use crate::error::HoloError;
use crate::geometry::{Circle, Extents, Point};
use crate::path::{arc_commands, arc_path, commands_view, PathCommand, ScalarCommand};
use crate::scalar::Scalar;
use vstd::prelude::*;

verus! {

/// The number 3.5: half the width of a reflected arc, in degrees.
pub const HOLO_WIDTH_DEG_BITS: u32 = 0x4060_0000;

/// The number 500: the width and the height of a hologram, in pixels.
pub const DEFAULT_SIDE_PX_BITS: u32 = 0x43fa_0000;

/// The number 0.005: the stroke of an arc as a part of the viewport's width.
pub const HOLO_STROKE_WIDTH_BITS: u32 = 0x3ba3_d70a;

/// The number 0.0001: the stroke of a circle as a part of the viewport's
/// width.
pub const CIRCLE_STROKE_WIDTH_BITS: u32 = 0x38d1_b717;

/// The arc that reflects the light on a circle: where it starts, where it
/// ends, and the radius of the circle that it is a part of.
#[derive(Debug, Clone, Copy, PartialEq, Eq, Structural)]
pub struct ArcGeometry {
    pub start: Point,
    pub end: Point,
    pub radius: Scalar,
}

/// An element of a hologram.
#[derive(Debug, Clone, PartialEq)]
pub enum HologramElement {
    /// A circle of the drawing that the hologram is made from.
    InputCircle(Circle),
    /// The arc that reflects a light at rest.
    OutputArc(Vec<PathCommand<Scalar>>),
    /// The arc that reflects a light that swings.
    AnimatedArc(AnimatedArc),
}

/// An element of a hologram as plain values.
pub enum HologramElementView {
    InputCircle(Circle),
    OutputArc(Seq<ScalarCommand>),
    AnimatedArc(Seq<Seq<char>>, Scalar),
}

impl View for HologramElement {
    type V = HologramElementView;

    open spec fn view(&self) -> HologramElementView {
        match self {
            HologramElement::InputCircle(circle) => HologramElementView::InputCircle(*circle),
            HologramElement::OutputArc(data) => HologramElementView::OutputArc(
                commands_view(data@),
            ),
            HologramElement::AnimatedArc(arc) => HologramElementView::AnimatedArc(
                arc.keyframes.deep_view(),
                arc.duration_secs,
            ),
        }
    }
}

/// The elements as plain values.
pub open spec fn hologram_view(elements: Seq<HologramElement>) -> Seq<HologramElementView> {
    Seq::new(elements.len(), |i: int| elements[i]@)
}

/// A hologram: a canvas of 500 by 500 pixels that shows `view_box`, and the
/// elements on it.
#[derive(Debug, Clone, PartialEq)]
pub struct Hologram {
    pub width: Scalar,
    pub height: Scalar,
    pub view_box: Extents,
    pub elements: Vec<HologramElement>,
}

/// The circles of a drawing, its viewport and a light source at rest.
#[derive(Debug, Clone, PartialEq)]
pub struct Visualizer {
    pub input_circles: Vec<Circle>,
    pub extents: Extents,
    pub light_source: Point,
    pub holo_stroke_width: Scalar,
}

/// Whether the light of `light_source` has no direction on `circle`: the
/// radius is zero, or the light stands at the centre.
pub open spec fn is_degenerate(circle: Circle, light_source: Point) -> bool {
    circle.r.is_zero() || (light_source.x.same_number(circle.cx) && light_source.y.same_number(
        circle.cy,
    ))
}

/// Where the light stands as seen from the centre of a circle.
#[derive(Debug, Clone, Copy, PartialEq, Eq, Structural)]
pub enum Direction {
    /// Straight above or below: the light and the centre have the same x,
    /// and the ratio that the angle of incidence is taken from has no value.
    /// The angle is a quarter turn, upwards where `up` holds.
    Vertical { up: bool },
    /// To one side: the angle of incidence is taken from the ratio of the
    /// two differences.
    Oblique,
}

/// The direction from `circle` to `light_source`. Up is towards lesser y.
pub open spec fn direction_of(circle: Circle, light_source: Point) -> Result<
    Direction,
    HoloError,
> {
    if is_degenerate(circle, light_source) {
        Err(HoloError::DegenerateGeometry)
    } else if light_source.x.same_number(circle.cx) {
        Ok(Direction::Vertical { up: light_source.y.lt(circle.cy) })
    } else {
        Ok(Direction::Oblique)
    }
}

/// The arc of a light at rest as plain values.
pub open spec fn arc_view(arc: ArcGeometry) -> HologramElementView {
    HologramElementView::OutputArc(arc_commands(arc.start, arc.radius, arc.end))
}

/// Whether the light has no direction on one of the circles.
pub open spec fn any_degenerate(circles: Seq<Circle>, light_source: Point) -> bool {
    exists|i: int| 0 <= i < circles.len() && is_degenerate(#[trigger] circles[i], light_source)
}

/// Whether one of the circles has no frame to show.
pub open spec fn any_without_frames(frames: Seq<Seq<Seq<char>>>) -> bool {
    exists|i: int| 0 <= i < frames.len() && (#[trigger] frames[i]).len() == 0
}

/// The arc of each circle under a light at rest.
pub open spec fn arc_views(arcs: Seq<ArcGeometry>) -> Seq<HologramElementView> {
    Seq::new(arcs.len(), |i: int| arc_view(arcs[i]))
}

/// The arc of each circle under a light that swings: the key frames of a
/// swing over the circle's frames, all with the same duration.
pub open spec fn swing_views(frames: Seq<Seq<Seq<char>>>, duration_secs: Scalar) -> Seq<
    HologramElementView,
> {
    Seq::new(
        frames.len(),
        |i: int| HologramElementView::AnimatedArc(swing(frames[i]), duration_secs),
    )
}

/// Each circle followed by its arc.
pub open spec fn interleaved(circles: Seq<Circle>, arcs: Seq<HologramElementView>) -> Seq<
    HologramElementView,
> {
    Seq::new(
        2 * circles.len(),
        |k: int|
            if k % 2 == 0 {
                HologramElementView::InputCircle(circles[k / 2])
            } else {
                arcs[k / 2]
            },
    )
}

/// What a hologram under a light at rest comes to. There is none without
/// circles; none where the light has no direction on one of the circles;
/// and none unless each circle has its arc.
pub open spec fn static_hologram_of(
    circles: Seq<Circle>,
    light_source: Point,
    arcs: Seq<ArcGeometry>,
    extents: Extents,
) -> Result<(Extents, Seq<HologramElementView>), HoloError> {
    if circles.len() == 0 {
        Err(HoloError::EmptyInput)
    } else if any_degenerate(circles, light_source) {
        Err(HoloError::DegenerateGeometry)
    } else if arcs.len() != circles.len() {
        Err(HoloError::MalformedInput)
    } else {
        Ok((extents, interleaved(circles, arc_views(arcs))))
    }
}

/// What a hologram under a light that swings comes to. A duration that is
/// not above zero is refused before anything else. Then there is no
/// hologram without circles; none where the light, at either end of its
/// swing, has no direction on one of the circles; none unless each circle
/// has its list of frames; and none where one of the lists is empty.
pub open spec fn animated_hologram_of(
    circles: Seq<Circle>,
    ls_start: Point,
    ls_end: Point,
    duration_secs: Scalar,
    frames: Seq<Seq<Seq<char>>>,
    extents: Extents,
) -> Result<(Extents, Seq<HologramElementView>), HoloError> {
    if !duration_secs.is_positive() {
        Err(HoloError::InvalidDuration)
    } else if circles.len() == 0 {
        Err(HoloError::EmptyInput)
    } else if any_degenerate(circles, ls_start) || any_degenerate(circles, ls_end) {
        Err(HoloError::DegenerateGeometry)
    } else if frames.len() != circles.len() {
        Err(HoloError::MalformedInput)
    } else if any_without_frames(frames) {
        Err(HoloError::EmptyInput)
    } else {
        Ok((extents, interleaved(circles, swing_views(frames, duration_secs))))
    }
}

/// Whether `result` is `outcome`, by its plain values, on a canvas of 500 by
/// 500 pixels.
pub open spec fn is_hologram(
    result: Result<Hologram, HoloError>,
    outcome: Result<(Extents, Seq<HologramElementView>), HoloError>,
) -> bool {
    match (result, outcome) {
        (Ok(hologram), Ok((extents, elements))) => {
            &&& hologram.width.bits == DEFAULT_SIDE_PX_BITS
            &&& hologram.height.bits == DEFAULT_SIDE_PX_BITS
            &&& hologram.view_box == extents
            &&& hologram_view(hologram.elements@) == elements
        },
        (Err(a), Err(b)) => a == b,
        _ => false,
    }
}

/// Is there a direction from the circle to the light? Not where the radius
/// is zero, nor where the light stands at the centre of the circle.
pub fn check_reflection(circle: Circle, light_source: Point) -> (r: Result<(), HoloError>)
    ensures
        r == (if is_degenerate(circle, light_source) {
            Err::<(), HoloError>(HoloError::DegenerateGeometry)
        } else {
            Ok::<(), HoloError>(())
        }),
{
    if circle.r.zero_valued() || (light_source.x.equals(circle.cx) && light_source.y.equals(
        circle.cy,
    )) {
        Err(HoloError::DegenerateGeometry)
    } else {
        Ok(())
    }
}

/// Tells whether the angle of incidence can be taken from a ratio, and
/// which quarter turn it is where it cannot. There is no direction where
/// the geometry is degenerate.
pub fn light_direction(circle: Circle, light_source: Point) -> (r: Result<Direction, HoloError>)
    ensures
        r == direction_of(circle, light_source),
{
    match check_reflection(circle, light_source) {
        Err(e) => Err(e),
        Ok(_) => {
            if light_source.x.equals(circle.cx) {
                Ok(Direction::Vertical { up: light_source.y.less_than(circle.cy) })
            } else {
                Ok(Direction::Oblique)
            }
        },
    }
}

impl ArcGeometry {
    /// The path of the arc.
    pub fn path(&self) -> (data: Vec<PathCommand<Scalar>>)
        ensures
            commands_view(data@) == arc_commands(self.start, self.radius, self.end),
    {
        arc_path(self.start, self.radius, self.end)
    }
}

impl Visualizer {
    /// A visualizer of the given circles, with arcs stroked at 0.005 of the
    /// viewport's width.
    pub fn new(input_circles: Vec<Circle>, extents: Extents, light_source: Point) -> (v: Self)
        ensures
            v.input_circles == input_circles,
            v.extents == extents,
            v.light_source == light_source,
            v.holo_stroke_width.bits == HOLO_STROKE_WIDTH_BITS,
    {
        Visualizer {
            input_circles,
            extents,
            light_source,
            holo_stroke_width: Scalar { bits: HOLO_STROKE_WIDTH_BITS },
        }
    }

    /// Is there a direction from every circle to the light source at rest?
    pub fn check_light_source(&self) -> (r: Result<(), HoloError>)
        ensures
            r == (if any_degenerate(self.input_circles@, self.light_source) {
                Err::<(), HoloError>(HoloError::DegenerateGeometry)
            } else {
                Ok::<(), HoloError>(())
            }),
    {
        if has_degenerate(&self.input_circles, self.light_source) {
            Err(HoloError::DegenerateGeometry)
        } else {
            Ok(())
        }
    }

    /// The hologram under the light at rest: each circle of the drawing,
    /// followed by the arc that reflects the light on it. `arcs` holds the
    /// arc of each circle, in the order of the circles.
    ///
    /// There is no hologram without circles, none where the light source
    /// has no direction on one of the circles, and none unless each circle
    /// has its arc.
    pub fn build_static_hologram(&self, arcs: &Vec<ArcGeometry>) -> (r: Result<
        Hologram,
        HoloError,
    >)
        ensures
            is_hologram(
                r,
                static_hologram_of(self.input_circles@, self.light_source, arcs@, self.extents),
            ),
    {
        let n = self.input_circles.len();
        if n == 0 {
            return Err(HoloError::EmptyInput);
        }
        if has_degenerate(&self.input_circles, self.light_source) {
            return Err(HoloError::DegenerateGeometry);
        }
        if arcs.len() != n {
            return Err(HoloError::MalformedInput);
        }
        let ghost want = interleaved(self.input_circles@, arc_views(arcs@));
        let mut elements: Vec<HologramElement> = Vec::new();
        let mut i: usize = 0;
        while i < n
            invariant
                i <= n,
                n == self.input_circles@.len(),
                n == arcs@.len(),
                want == interleaved(self.input_circles@, arc_views(arcs@)),
                elements@.len() == 2 * i,
                forall|k: int| 0 <= k < 2 * i ==> (#[trigger] elements@[k])@ == want[k],
            decreases n - i,
        {
            elements.push(HologramElement::InputCircle(self.input_circles[i]));
            elements.push(HologramElement::OutputArc(arcs[i].path()));
            assert(elements@[2 * i]@ == want[2 * i]);
            assert(elements@[2 * i + 1]@ == want[2 * i + 1]);
            i += 1;
        }
        assert(hologram_view(elements@) =~= want);
        Ok(
            Hologram {
                width: Scalar { bits: DEFAULT_SIDE_PX_BITS },
                height: Scalar { bits: DEFAULT_SIDE_PX_BITS },
                view_box: self.extents,
                elements,
            },
        )
    }

    /// The hologram under a light that swings from `ls_start` to `ls_end`
    /// and back within `duration_secs` seconds: each circle of the drawing,
    /// followed by the animated arc that reflects the light on it.
    /// `frames` holds, for each circle in the order of the circles, the
    /// path data of its arc at each position of the light on the way there.
    ///
    /// A duration that is not above zero is refused first, whatever else
    /// is given. Then there is no hologram without circles, none where the
    /// light at either end has no direction on one of the circles, none
    /// unless each circle has its frames, and none where a circle has no
    /// frame at all.
    pub fn build_animated_hologram(
        &self,
        ls_start: &Point,
        ls_end: &Point,
        duration_secs: Scalar,
        frames: &Vec<Vec<String>>,
    ) -> (r: Result<Hologram, HoloError>)
        ensures
            is_hologram(
                r,
                animated_hologram_of(
                    self.input_circles@,
                    *ls_start,
                    *ls_end,
                    duration_secs,
                    frames.deep_view(),
                    self.extents,
                ),
            ),
    {
        if !duration_secs.positive() {
            return Err(HoloError::InvalidDuration);
        }
        let n = self.input_circles.len();
        if n == 0 {
            return Err(HoloError::EmptyInput);
        }
        if has_degenerate(&self.input_circles, *ls_start) || has_degenerate(
            &self.input_circles,
            *ls_end,
        ) {
            return Err(HoloError::DegenerateGeometry);
        }
        if frames.len() != n {
            return Err(HoloError::MalformedInput);
        }
        let ghost all = frames.deep_view();
        let ghost want = interleaved(self.input_circles@, swing_views(all, duration_secs));
        let mut elements: Vec<HologramElement> = Vec::new();
        let mut i: usize = 0;
        while i < n
            invariant
                i <= n,
                n == self.input_circles@.len(),
                n == frames@.len(),
                duration_secs.is_positive(),
                !any_degenerate(self.input_circles@, *ls_start),
                !any_degenerate(self.input_circles@, *ls_end),
                all == frames.deep_view(),
                want == interleaved(self.input_circles@, swing_views(all, duration_secs)),
                forall|j: int| 0 <= j < i ==> (#[trigger] all[j]).len() > 0,
                elements@.len() == 2 * i,
                forall|k: int| 0 <= k < 2 * i ==> (#[trigger] elements@[k])@ == want[k],
            decreases n - i,
        {
            assert(all[i as int] == frames@[i as int].deep_view());
            match animated_arc(&frames[i], duration_secs) {
                Ok(arc) => {
                    elements.push(HologramElement::InputCircle(self.input_circles[i]));
                    elements.push(HologramElement::AnimatedArc(arc));
                    assert(elements@[2 * i]@ == want[2 * i]);
                    assert(elements@[2 * i + 1]@ == want[2 * i + 1]);
                },
                Err(_) => {
                    assert(all.len() == n);
                    assert(all[i as int].len() == 0);
                    assert(any_without_frames(all));
                    return Err(HoloError::EmptyInput);
                },
            }
            i += 1;
        }
        assert(all.len() == n);
        assert(!any_without_frames(all));
        assert(hologram_view(elements@) =~= want);
        Ok(
            Hologram {
                width: Scalar { bits: DEFAULT_SIDE_PX_BITS },
                height: Scalar { bits: DEFAULT_SIDE_PX_BITS },
                view_box: self.extents,
                elements,
            },
        )
    }
}

/// Has the light no direction on one of the circles?
pub fn has_degenerate(circles: &Vec<Circle>, light_source: Point) -> (r: bool)
    ensures
        r == any_degenerate(circles@, light_source),
{
    let n = circles.len();
    let mut i: usize = 0;
    while i < n
        invariant
            i <= n,
            n == circles@.len(),
            forall|j: int| 0 <= j < i ==> !is_degenerate(#[trigger] circles@[j], light_source),
        decreases n - i,
    {
        if check_reflection(circles[i], light_source).is_err() {
            return true;
        }
        i += 1;
    }
    false
}

} // verus!
