//! Extracting the circles and the viewport of a drawing from its markup.
//!
//! Numbers stay text here: the parser finds them, sees that they are
//! written as numbers, and leaves reading them to the caller.

use crate::error::HoloError;
use crate::markup::{
    markup_events, read_markup, MarkupEvent, MarkupEventView, Tag, TagKind, TagView,
};
use crate::number::{is_number, is_number_text};
use crate::text::str_eq;
use crate::tokens::{split_tokens, tokens};
use vstd::prelude::*;
use vstd::string::*;

verus! {

/// The centre and the radius of a circle element, as written in the drawing.
#[derive(Debug, Clone, PartialEq)]
pub struct CircleText {
    pub cx: String,
    pub cy: String,
    pub r: String,
}

/// The viewport of a drawing, as written in the drawing: its least x and y,
/// its width and its height.
#[derive(Debug, Clone, PartialEq)]
pub struct ExtentsText {
    pub xmin: String,
    pub ymin: String,
    pub width: String,
    pub height: String,
}

/// A circle element as plain values.
pub struct CircleView {
    pub cx: Seq<char>,
    pub cy: Seq<char>,
    pub r: Seq<char>,
}

/// A viewport as plain values.
pub struct ExtentsView {
    pub xmin: Seq<char>,
    pub ymin: Seq<char>,
    pub width: Seq<char>,
    pub height: Seq<char>,
}

impl DeepView for CircleText {
    type V = CircleView;

    open spec fn deep_view(&self) -> CircleView {
        CircleView { cx: self.cx@, cy: self.cy@, r: self.r@ }
    }
}

impl DeepView for ExtentsText {
    type V = ExtentsView;

    open spec fn deep_view(&self) -> ExtentsView {
        ExtentsView {
            xmin: self.xmin@,
            ymin: self.ymin@,
            width: self.width@,
            height: self.height@,
        }
    }
}

/// The attributes that are read from each tag, in the order of their
/// entries: `viewBox`, `width`, `height`, `cx`, `cy`, `r`.
pub open spec fn drawing_keys() -> Seq<Seq<char>> {
    seq![
        seq!['v', 'i', 'e', 'w', 'B', 'o', 'x'],
        seq!['w', 'i', 'd', 't', 'h'],
        seq!['h', 'e', 'i', 'g', 'h', 't'],
        seq!['c', 'x'],
        seq!['c', 'y'],
        seq!['r'],
    ]
}

/// The name of the element that defines a viewport.
pub open spec fn viewport_name() -> Seq<char> {
    seq!['s', 'v', 'g']
}

/// The name of the circle element.
pub open spec fn circle_name() -> Seq<char> {
    seq!['c', 'i', 'r', 'c', 'l', 'e']
}

/// The origin of a viewport that declares no coordinate box.
pub open spec fn default_origin() -> Seq<char> {
    seq!['0']
}

/// The width and the height of a viewport that declares neither.
pub open spec fn default_side() -> Seq<char> {
    seq!['5', '0', '0']
}

/// The entry `at` of a tag's attributes, `None` where there is no such entry.
pub open spec fn attribute_at(attributes: Seq<Option<Seq<char>>>, at: int) -> Option<Seq<char>> {
    if 0 <= at < attributes.len() {
        attributes[at]
    } else {
        None
    }
}

/// A declared width or height: the default where it is not declared, and
/// `None` where what is declared is no number.
pub open spec fn declared_side(value: Option<Seq<char>>) -> Option<Seq<char>> {
    match value {
        Some(text) => if is_number_text(text) {
            Some(text)
        } else {
            None
        },
        None => Some(default_side()),
    }
}

/// The viewport that a viewport element declares: its coordinate box where
/// it has one, which must hold four numbers; else its width and height from
/// the origin, each 500 where it is not declared. `None` where the box does
/// not hold four tokens, or where any of what is declared is no number.
pub open spec fn declared_viewport(attributes: Seq<Option<Seq<char>>>) -> Option<ExtentsView> {
    match attribute_at(attributes, 0) {
        Some(view_box) => {
            let t = tokens(view_box);
            if t.len() == 4 && is_number_text(t[0]) && is_number_text(t[1]) && is_number_text(
                t[2],
            ) && is_number_text(t[3]) {
                Some(ExtentsView { xmin: t[0], ymin: t[1], width: t[2], height: t[3] })
            } else {
                None
            }
        },
        None => match (
            declared_side(attribute_at(attributes, 1)),
            declared_side(attribute_at(attributes, 2)),
        ) {
            (Some(width), Some(height)) => Some(
                ExtentsView { xmin: default_origin(), ymin: default_origin(), width, height },
            ),
            _ => None,
        },
    }
}

/// The circle that a circle element declares, `None` where it lacks its
/// centre or its radius, or where one of them is no number.
pub open spec fn declared_circle(attributes: Seq<Option<Seq<char>>>) -> Option<CircleView> {
    match (attribute_at(attributes, 3), attribute_at(attributes, 4), attribute_at(attributes, 5)) {
        (Some(cx), Some(cy), Some(r)) => if is_number_text(cx) && is_number_text(cy)
            && is_number_text(r) {
            Some(CircleView { cx, cy, r })
        } else {
            None
        },
        _ => None,
    }
}

/// How far a scan of the markup has come.
pub struct Scan {
    /// How many viewport elements are open.
    pub depth: nat,
    /// The viewport of the top-level viewport element, once it was met.
    pub extents: Option<ExtentsView>,
    /// Whether the top-level viewport element has been closed.
    pub closed: bool,
    /// Whether an element was met that cannot be read.
    pub failed: bool,
    /// The circles met so far.
    pub circles: Seq<CircleView>,
}

/// The scan before the first event.
pub open spec fn scan_start() -> Scan {
    Scan { depth: 0, extents: None, closed: false, failed: false, circles: Seq::empty() }
}

/// Whether the scan takes no further event.
pub open spec fn scan_over(scan: Scan) -> bool {
    scan.closed || scan.failed
}

/// The scan after a tag of a viewport element.
pub open spec fn scan_viewport(scan: Scan, tag: TagView) -> Scan {
    match tag.kind {
        TagKind::Start => if scan.depth == 0 {
            match declared_viewport(tag.attributes) {
                Some(extents) => Scan { depth: 1, extents: Some(extents), ..scan },
                None => Scan { failed: true, ..scan },
            }
        } else {
            Scan { depth: scan.depth + 1, ..scan }
        },
        TagKind::Empty => if scan.depth == 0 {
            match declared_viewport(tag.attributes) {
                Some(extents) => Scan { extents: Some(extents), closed: true, ..scan },
                None => Scan { failed: true, ..scan },
            }
        } else {
            scan
        },
        TagKind::End => if scan.depth == 0 {
            scan
        } else {
            Scan { depth: (scan.depth - 1) as nat, closed: scan.depth == 1, ..scan }
        },
    }
}

/// The scan after a tag of a circle element.
pub open spec fn scan_circle(scan: Scan, tag: TagView) -> Scan {
    match tag.kind {
        TagKind::End => scan,
        _ => match declared_circle(tag.attributes) {
            Some(circle) => Scan { circles: scan.circles.push(circle), ..scan },
            None => Scan { failed: true, ..scan },
        },
    }
}

/// The scan after one more event. Once the top-level viewport element is
/// closed, or an element could not be read, nothing changes any more. Events
/// that are neither a viewport nor a circle element are passed over.
pub open spec fn scan_step(scan: Scan, event: MarkupEventView) -> Scan {
    if scan_over(scan) {
        scan
    } else {
        match event {
            MarkupEventView::Tag(tag) => if tag.name == viewport_name() {
                scan_viewport(scan, tag)
            } else if tag.name == circle_name() {
                scan_circle(scan, tag)
            } else {
                scan
            },
            MarkupEventView::Other => scan,
        }
    }
}

/// The scan after all of `events`.
pub open spec fn scan_events(events: Seq<MarkupEventView>) -> Scan
    decreases events.len(),
{
    if events.len() == 0 {
        scan_start()
    } else {
        scan_step(scan_events(events.drop_last()), events.last())
    }
}

/// The circles and the viewport of the drawing that `events` hold: those of
/// the scan, unless an element could not be read or no viewport element was
/// met, both of which make the input malformed.
pub open spec fn drawing_of(events: Seq<MarkupEventView>) -> Result<
    (Seq<CircleView>, ExtentsView),
    HoloError,
> {
    let scan = scan_events(events);
    if scan.failed {
        Err(HoloError::MalformedInput)
    } else {
        match scan.extents {
            Some(extents) => Ok((scan.circles, extents)),
            None => Err(HoloError::MalformedInput),
        }
    }
}

/// Whether `result` is `outcome`, by its plain values.
pub open spec fn is_drawing(
    result: Result<(Vec<CircleText>, ExtentsText), HoloError>,
    outcome: Result<(Seq<CircleView>, ExtentsView), HoloError>,
) -> bool {
    match (result, outcome) {
        (Ok((circles, extents)), Ok((c, e))) => circles.deep_view() == c && extents.deep_view()
            == e,
        (Err(a), Err(b)) => a == b,
        _ => false,
    }
}

/// The value of the attribute `at` of a tag.
fn attribute(tag: &Tag, at: usize) -> (value: Option<&String>)
    ensures
        match value {
            Some(s) => attribute_at(tag.deep_view().attributes, at as int) == Some(s@),
            None => attribute_at(tag.deep_view().attributes, at as int).is_none(),
        },
{
    if at < tag.attributes.len() {
        assert(tag.deep_view().attributes[at as int] == tag.attributes@[at as int].deep_view());
        match &tag.attributes[at] {
            Some(s) => Some(s),
            None => None,
        }
    } else {
        None
    }
}

/// Reads a declared width or height.
fn read_side(value: Option<&String>) -> (side: Option<String>)
    ensures
        side.deep_view() == declared_side(
            match value {
                Some(s) => Some(s@),
                None => None,
            },
        ),
{
    match value {
        Some(text) => if is_number(text.as_str()) {
            Some(text.clone())
        } else {
            None
        },
        None => {
            proof {
                reveal_strlit("500");
                assert("500"@ =~= default_side());
            }
            Some("500".to_owned())
        },
    }
}

/// Reads the viewport that a viewport element declares.
pub fn read_viewport(tag: &Tag) -> (extents: Option<ExtentsText>)
    ensures
        extents.deep_view() == declared_viewport(tag.deep_view().attributes),
{
    match attribute(tag, 0) {
        Some(view_box) => {
            let mut t = split_tokens(view_box.as_str());
            if t.len() != 4 {
                return None;
            }
            assert(t.deep_view()[0] == t@[0]@);
            assert(t.deep_view()[1] == t@[1]@);
            assert(t.deep_view()[2] == t@[2]@);
            assert(t.deep_view()[3] == t@[3]@);
            if !(is_number(t[0].as_str()) && is_number(t[1].as_str()) && is_number(
                t[2].as_str(),
            ) && is_number(t[3].as_str())) {
                return None;
            }
            let height = t.pop().unwrap();
            let width = t.pop().unwrap();
            let ymin = t.pop().unwrap();
            let xmin = t.pop().unwrap();
            Some(ExtentsText { xmin, ymin, width, height })
        },
        None => {
            proof {
                reveal_strlit("0");
                assert("0"@ =~= default_origin());
            }
            let width = read_side(attribute(tag, 1));
            let height = read_side(attribute(tag, 2));
            match (width, height) {
                (Some(width), Some(height)) => Some(
                    ExtentsText { xmin: "0".to_owned(), ymin: "0".to_owned(), width, height },
                ),
                _ => None,
            }
        },
    }
}

/// Reads the circle that a circle element declares.
pub fn read_circle(tag: &Tag) -> (circle: Option<CircleText>)
    ensures
        circle.deep_view() == declared_circle(tag.deep_view().attributes),
{
    match (attribute(tag, 3), attribute(tag, 4), attribute(tag, 5)) {
        (Some(cx), Some(cy), Some(r)) => if is_number(cx.as_str()) && is_number(cy.as_str())
            && is_number(r.as_str()) {
            Some(CircleText { cx: cx.clone(), cy: cy.clone(), r: r.clone() })
        } else {
            None
        },
        _ => None,
    }
}

/// Once a scan is over, further events leave it as it is.
pub proof fn lemma_scan_over_is_final(events: Seq<MarkupEventView>, upto: int)
    requires
        0 <= upto <= events.len(),
        scan_over(scan_events(events.take(upto))),
    ensures
        scan_events(events) == scan_events(events.take(upto)),
    decreases events.len() - upto,
{
    if upto == events.len() {
        assert(events.take(upto) =~= events);
    } else {
        assert(events.take(upto + 1).drop_last() =~= events.take(upto));
        lemma_scan_over_is_final(events, upto + 1);
    }
}

/// Scans the events of a drawing for its circles and its viewport.
///
/// The viewport is that of the top-level viewport element; viewport elements
/// inside it are counted only to find where it closes, which is where the
/// scan ends. Circles are taken wherever they stand before that.
pub fn scan_markup(events: &Vec<MarkupEvent>) -> (r: Result<
    (Vec<CircleText>, ExtentsText),
    HoloError,
>)
    ensures
        is_drawing(r, drawing_of(events.deep_view())),
{
    let n = events.len();
    let ghost all = events.deep_view();
    let mut depth: usize = 0;
    let mut extents: Option<ExtentsText> = None;
    let mut closed = false;
    let mut failed = false;
    let mut circles: Vec<CircleText> = Vec::new();
    let mut i: usize = 0;
    assert(all.take(0) =~= Seq::<MarkupEventView>::empty());
    assert(circles.deep_view() =~= Seq::<CircleView>::empty());
    while i < n && !closed && !failed
        invariant
            i <= n,
            n == events@.len(),
            all == events.deep_view(),
            depth <= i,
            scan_events(all.take(i as int)) == (Scan {
                depth: depth as nat,
                extents: extents.deep_view(),
                closed,
                failed,
                circles: circles.deep_view(),
            }),
        decreases n - i,
    {
        proof {
            assert(all.take(i + 1).drop_last() =~= all.take(i as int));
            assert(all.take(i + 1).last() == events@[i as int].deep_view());
        }
        match &events[i] {
            MarkupEvent::Tag(tag) => {
                proof {
                    reveal_strlit("svg");
                    reveal_strlit("circle");
                    assert("svg"@ =~= viewport_name());
                    assert("circle"@ =~= circle_name());
                }
                if str_eq(tag.name.as_str(), "svg") {
                    match tag.kind {
                        TagKind::Start => {
                            if depth == 0 {
                                match read_viewport(tag) {
                                    Some(e) => {
                                        extents = Some(e);
                                        depth = 1;
                                    },
                                    None => {
                                        failed = true;
                                    },
                                }
                            } else {
                                depth += 1;
                            }
                        },
                        TagKind::Empty => {
                            if depth == 0 {
                                match read_viewport(tag) {
                                    Some(e) => {
                                        extents = Some(e);
                                        closed = true;
                                    },
                                    None => {
                                        failed = true;
                                    },
                                }
                            }
                        },
                        TagKind::End => {
                            if depth > 0 {
                                closed = depth == 1;
                                depth -= 1;
                            }
                        },
                    }
                } else if str_eq(tag.name.as_str(), "circle") {
                    match tag.kind {
                        TagKind::End => {},
                        _ => match read_circle(tag) {
                            Some(circle) => {
                                let ghost before = circles.deep_view();
                                circles.push(circle);
                                assert(circles.deep_view() =~= before.push(circle.deep_view()));
                            },
                            None => {
                                failed = true;
                            },
                        },
                    }
                }
            },
            MarkupEvent::Other => {},
        }
        i += 1;
    }
    proof {
        if i < n {
            lemma_scan_over_is_final(all, i as int);
        } else {
            assert(all.take(i as int) =~= all);
        }
    }
    if failed {
        return Err(HoloError::MalformedInput);
    }
    match extents {
        Some(e) => Ok((circles, e)),
        None => Err(HoloError::MalformedInput),
    }
}

/// The circles of a drawing and the viewport that they lie in.
///
/// The markup is read into events, each tag with its values for
/// [`drawing_keys`]; [`drawing_of`] states what the events come to. A source
/// without any viewport element is malformed, and so is one with a viewport
/// whose coordinate box does not hold four numbers or whose width or height
/// is no number, or with a circle that lacks a number for its centre or its
/// radius.
pub fn parse_circles_with_extents(svg_contents: &str) -> (r: Result<
    (Vec<CircleText>, ExtentsText),
    HoloError,
>)
    ensures
        is_drawing(r, drawing_of(markup_events(svg_contents@, drawing_keys()))),
{
    let keys: Vec<&str> = vec!["viewBox", "width", "height", "cx", "cy", "r"];
    proof {
        reveal_strlit("viewBox");
        reveal_strlit("width");
        reveal_strlit("height");
        reveal_strlit("cx");
        reveal_strlit("cy");
        reveal_strlit("r");
        assert(keys@.len() == 6);
        assert(keys.deep_view()[0] == keys@[0]@);
        assert(keys.deep_view()[1] == keys@[1]@);
        assert(keys.deep_view()[2] == keys@[2]@);
        assert(keys.deep_view()[3] == keys@[3]@);
        assert(keys.deep_view()[4] == keys@[4]@);
        assert(keys.deep_view()[5] == keys@[5]@);
        assert("viewBox"@ =~= drawing_keys()[0]);
        assert("width"@ =~= drawing_keys()[1]);
        assert("height"@ =~= drawing_keys()[2]);
        assert("cx"@ =~= drawing_keys()[3]);
        assert("cy"@ =~= drawing_keys()[4]);
        assert("r"@ =~= drawing_keys()[5]);
        assert(keys.deep_view() =~= drawing_keys());
    }
    let events = read_markup(svg_contents, &keys);
    scan_markup(&events)
}

} // verus!
