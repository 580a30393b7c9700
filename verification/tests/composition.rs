use holo::animation::animated_arc;
use holo::error::HoloError;
use holo::geometry::{Circle, Extents, Point};
use holo::parser::parse_circles_with_extents;
use holo::path::CommandKind;
use holo::scalar::Scalar;
use holo::scriber::{
    Bounds, CircleScriber, DebugScriber, Drawing, Element, HoloPointStrategy, Scriber, SizedPoint,
};
use holo::visualizer::{
    check_reflection, light_direction, ArcGeometry, Direction, HologramElement, Visualizer,
};
use svg::node::element::{Circle as SvgCircle, SVG};
use svg::Document;

fn s(value: f32) -> Scalar {
    Scalar::from_bits(value.to_bits())
}

fn n(value: Scalar) -> f32 {
    f32::from_bits(value.to_bits())
}

fn sized(x: f32, y: f32, size: f32) -> SizedPoint {
    SizedPoint {
        x: s(x),
        y: s(y),
        size: s(size),
    }
}

fn circle(cx: f32, cy: f32, r: f32) -> Circle {
    Circle {
        cx: s(cx),
        cy: s(cy),
        r: s(r),
    }
}

fn extents(xmin: f32, ymin: f32, width: f32, height: f32) -> Extents {
    Extents {
        xmin: s(xmin),
        ymin: s(ymin),
        width: s(width),
        height: s(height),
    }
}

fn with_margin(bounds: &Bounds, margin: Scalar) -> Extents {
    let (x_min, x_max) = (n(bounds.x_min), n(bounds.x_max));
    let (y_min, y_max) = (n(bounds.y_min), n(bounds.y_max));
    let (width_margin, height_margin) = (n(margin) * (x_max - x_min), n(margin) * (y_max - y_min));
    extents(
        x_min - width_margin,
        y_min - height_margin,
        (x_max + width_margin) - (x_min - width_margin),
        (y_max + height_margin) - (y_min - height_margin),
    )
}

fn document(drawing: &Drawing) -> SVG {
    let view_box = drawing.view_box.as_tuple();
    let mut document = Document::new()
        .set("width", drawing.width)
        .set("height", drawing.height)
        .set(
            "viewBox",
            (n(view_box.0), n(view_box.1), n(view_box.2), n(view_box.3)),
        );
    for element in &drawing.elements {
        if let Element::Circle(c) = element {
            document = document.add(
                SvgCircle::new()
                    .set("cx", n(c.cx))
                    .set("cy", n(c.cy))
                    .set("r", n(c.r))
                    .set("stroke-width", n(drawing.stroke_width))
                    .set("stroke", drawing.stroke.as_str())
                    .set("fill", drawing.fill.as_str()),
            );
        }
    }
    document
}

#[test]
fn scriber_has_its_style() {
    let scriber = Scriber::new(CircleScriber::new(s(2.0)), (100, 200));
    assert_eq!(scriber.stroke, "black");
    assert_eq!(scriber.fill, "none");
    assert_eq!(n(scriber.stroke_width), 0.005);
    assert_eq!(n(scriber.margin_percentage), 0.25);
    assert_eq!(scriber.canvas_size, (100, 200));
    assert_eq!(n(scriber.point_scribing_strategy.z_scale_factor), 2.0);
}

#[test]
fn bounds_of_a_cloud() {
    let scriber = Scriber::new(CircleScriber::new(s(1.0)), (10, 10));
    let cloud = vec![
        sized(1., -5., 1.),
        sized(-3., 2., 1.),
        sized(f32::NAN, 9., 1.),
        sized(0.5, f32::NAN, 1.),
        sized(2., 0., 1.),
    ];
    assert_eq!(
        scriber.find_extent(&cloud),
        Ok(Bounds {
            x_min: s(-3.),
            x_max: s(2.),
            y_min: s(-5.),
            y_max: s(9.),
        })
    );
}

#[test]
fn bounds_of_a_single_point_are_ordered() {
    let scriber = Scriber::new(CircleScriber::new(s(1.0)), (10, 10));
    let bounds = scriber.find_extent(&vec![sized(4., -4., 1.)]).unwrap();
    assert!(bounds.x_min.at_most(bounds.x_max));
    assert!(bounds.y_min.at_most(bounds.y_max));
    assert_eq!(bounds.x_min, s(4.));
    assert_eq!(bounds.y_max, s(-4.));
    let extents = with_margin(&bounds, scriber.margin_percentage);
    assert!(n(extents.width) >= 0.0);
    assert!(n(extents.height) >= 0.0);
}

#[test]
fn clouds_without_numbers_have_no_bounds() {
    let scriber = Scriber::new(CircleScriber::new(s(1.0)), (10, 10));
    assert_eq!(scriber.find_extent(&vec![]), Err(HoloError::EmptyInput));
    assert_eq!(
        scriber.find_extent(&vec![sized(f32::NAN, 1., 1.), sized(f32::NAN, 2., 1.)]),
        Err(HoloError::EmptyInput)
    );
    assert_eq!(
        scriber.find_extent(&vec![sized(1., f32::NAN, 1.)]),
        Err(HoloError::EmptyInput)
    );
}

#[test]
fn empty_cloud_is_not_drawn() {
    let scriber = Scriber::new(CircleScriber::new(s(1.0)), (10, 10));
    assert_eq!(
        scriber.scribe(&vec![], extents(0., 0., 1., 1.)),
        Err(HoloError::EmptyInput)
    );
}

#[test]
fn circle_strategy_draws_one_circle_for_each_point() {
    let scriber = Scriber::new(CircleScriber::new(s(1.0)), (30, 40));
    let cloud = vec![sized(1., 2., 3.), sized(4., 5., -6.)];
    let view_box = extents(-1., -2., 8., 9.);
    let drawing = scriber.scribe(&cloud, view_box).unwrap();
    assert_eq!((drawing.width, drawing.height), (30, 40));
    assert_eq!(drawing.view_box, view_box);
    assert_eq!(drawing.stroke, "black");
    assert_eq!(drawing.fill, "none");
    assert_eq!(n(drawing.stroke_width), 0.005);
    assert_eq!(
        drawing.elements,
        vec![
            Element::Circle(circle(1., 2., 3.)),
            Element::Circle(circle(4., 5., -6.)),
        ]
    );
}

#[test]
fn diamond_strategy_draws_one_path_of_all_diamonds() {
    let strategy = DebugScriber {
        plane_start: s(0.),
        plane_end: s(1.),
        min_size: s(1.),
        max_size: s(2.),
    };
    let scriber = Scriber::new(strategy, (30, 40));
    let cloud = vec![sized(1., 2., 3.), sized(4., 5., 6.)];
    let drawing = scriber.scribe(&cloud, extents(0., 0., 1., 1.)).unwrap();
    assert_eq!(drawing.elements.len(), 1);
    match &drawing.elements[0] {
        Element::Path(data) => {
            assert_eq!(data.len(), 12);
            assert_eq!(data[0].kind, CommandKind::Move);
            assert_eq!(data[0].params, vec![s(1.), s(2.)]);
            assert_eq!(data[1].params, vec![s(0.), s(-3.)]);
            assert_eq!(data[6].params, vec![s(4.), s(5.)]);
            assert_eq!(data[11].kind, CommandKind::Line);
            assert_eq!(data[11].params, vec![s(-6.), s(-6.)]);
        }
        other => panic!("unexpected {:?}", other),
    }
}

#[test]
fn strategies_add_to_the_elements_that_are_there() {
    let mut elements = vec![Element::Circle(circle(0., 0., 1.))];
    CircleScriber::new(s(1.0)).scribe_points(&mut elements, &vec![sized(1., 1., 1.)]);
    assert_eq!(
        elements,
        vec![
            Element::Circle(circle(0., 0., 1.)),
            Element::Circle(circle(1., 1., 1.)),
        ]
    );
}

#[test]
fn parsing_a_scribed_drawing_recovers_circles_and_extents() {
    let scriber = Scriber::new(CircleScriber::new(s(1.0)), (100, 50));
    let cloud = vec![
        sized(0.850651, 0., 0.13143276),
        sized(-0.850651, 0.525731, 0.5),
        sized(0., -0.525731, 0.25),
    ];
    let bounds = scriber.find_extent(&cloud).unwrap();
    let view_box = with_margin(&bounds, scriber.margin_percentage);
    let drawing = scriber.scribe(&cloud, view_box).unwrap();
    let source = document(&drawing).to_string();
    let (circles, extents) = parse_circles_with_extents(&source).unwrap();
    assert_eq!(circles.len(), cloud.len());
    let recovered = [
        extents.xmin.parse::<f32>().unwrap(),
        extents.ymin.parse::<f32>().unwrap(),
        extents.width.parse::<f32>().unwrap(),
        extents.height.parse::<f32>().unwrap(),
    ];
    let expected = [
        n(view_box.xmin),
        n(view_box.ymin),
        n(view_box.width),
        n(view_box.height),
    ];
    for (a, b) in recovered.iter().zip(expected.iter()) {
        assert!((a - b).abs() <= 1e-6, "{a} against {b}");
    }
    for (text, point) in circles.iter().zip(cloud.iter()) {
        assert_eq!(text.cx.parse::<f32>().unwrap(), n(point.x));
        assert_eq!(text.cy.parse::<f32>().unwrap(), n(point.y));
        assert_eq!(text.r.parse::<f32>().unwrap(), n(point.size));
        // each number is read back as it was written
        assert_eq!(text.cx, n(point.x).to_string());
        assert_eq!(text.cy, n(point.y).to_string());
        assert_eq!(text.r, n(point.size).to_string());
    }
    assert_eq!(extents.xmin, n(view_box.xmin).to_string());
    assert_eq!(extents.height, n(view_box.height).to_string());
}

#[test]
fn degenerate_geometry_is_refused() {
    let light = Point { x: s(150.), y: s(0.) };
    assert_eq!(check_reflection(circle(0., 0., 100.), light), Ok(()));
    assert_eq!(check_reflection(circle(0., 0., -100.), light), Ok(()));
    assert_eq!(
        check_reflection(circle(0., 0., 0.), light),
        Err(HoloError::DegenerateGeometry)
    );
    assert_eq!(
        check_reflection(circle(0., 0., -0.), light),
        Err(HoloError::DegenerateGeometry)
    );
    assert_eq!(
        check_reflection(circle(150., -0., 3.), light),
        Err(HoloError::DegenerateGeometry)
    );
    assert_eq!(check_reflection(circle(150., 1., 3.), light), Ok(()));
}

#[test]
fn direction_of_the_light() {
    let c = circle(0., 0., 100.);
    let at = |x: f32, y: f32| Point { x: s(x), y: s(y) };
    // on the +X axis from the centre: to one side
    assert_eq!(light_direction(c, at(150., 0.)), Ok(Direction::Oblique));
    assert_eq!(light_direction(c, at(-150., 10.)), Ok(Direction::Oblique));
    assert_eq!(
        light_direction(c, at(0., -150.)),
        Ok(Direction::Vertical { up: true })
    );
    assert_eq!(
        light_direction(c, at(-0., 150.)),
        Ok(Direction::Vertical { up: false })
    );
    assert_eq!(
        light_direction(c, at(0., 0.)),
        Err(HoloError::DegenerateGeometry)
    );
    assert_eq!(
        light_direction(circle(0., 0., 0.), at(1., 1.)),
        Err(HoloError::DegenerateGeometry)
    );
}

fn visualizer(circles: Vec<Circle>) -> Visualizer {
    Visualizer::new(
        circles,
        extents(0., 0., 300., 100.),
        Point { x: s(150.), y: s(-33.) },
    )
}

fn arc(x0: f32, y0: f32, r: f32, x: f32, y: f32) -> ArcGeometry {
    ArcGeometry {
        start: Point { x: s(x0), y: s(y0) },
        end: Point { x: s(x), y: s(y) },
        radius: s(r),
    }
}

#[test]
fn visualizer_checks_its_light_source() {
    let viz = visualizer(vec![circle(0., 0., 1.), circle(5., 5., 2.)]);
    assert_eq!(n(viz.holo_stroke_width), 0.005);
    assert_eq!(viz.check_light_source(), Ok(()));
    let at_centre = visualizer(vec![circle(0., 0., 1.), circle(150., -33., 2.)]);
    assert_eq!(at_centre.check_light_source(), Err(HoloError::DegenerateGeometry));
    assert_eq!(visualizer(vec![]).check_light_source(), Ok(()));
}

#[test]
fn static_hologram_follows_each_circle_by_its_arc() {
    let circles = vec![circle(0., 0., 1.), circle(5., 5., 2.)];
    let viz = visualizer(circles.clone());
    let arcs = vec![arc(1., 0., 1., 0., 1.), arc(7., 5., 2., 5., 7.)];
    let hologram = viz.build_static_hologram(&arcs).unwrap();
    assert_eq!(n(hologram.width), 500.);
    assert_eq!(n(hologram.height), 500.);
    assert_eq!(hologram.view_box, extents(0., 0., 300., 100.));
    assert_eq!(
        hologram.elements,
        vec![
            HologramElement::InputCircle(circles[0]),
            HologramElement::OutputArc(arcs[0].path()),
            HologramElement::InputCircle(circles[1]),
            HologramElement::OutputArc(arcs[1].path()),
        ]
    );
    assert_eq!(arcs[1].path()[1].params[4], s(1.));
}

fn texts(frames: &[&str]) -> Vec<String> {
    frames.iter().map(|f| f.to_string()).collect()
}

#[test]
fn static_hologram_needs_a_direction_to_the_light() {
    // radius zero
    let flat = visualizer(vec![circle(0., 0., 1.), circle(5., 5., 0.)]);
    let arcs = vec![arc(1., 0., 1., 0., 1.), arc(5., 5., 0., 5., 5.)];
    assert_eq!(
        flat.build_static_hologram(&arcs),
        Err(HoloError::DegenerateGeometry)
    );
    // the light at the centre
    let under = visualizer(vec![circle(150., -33., 2.)]);
    assert_eq!(
        under.build_static_hologram(&vec![arc(1., 0., 1., 0., 1.)]),
        Err(HoloError::DegenerateGeometry)
    );
    // and that before the arcs are counted
    assert_eq!(
        under.build_static_hologram(&vec![]),
        Err(HoloError::DegenerateGeometry)
    );
}

#[test]
fn animated_hologram_follows_each_circle_by_its_animation() {
    let circles = vec![circle(0., 0., 1.), circle(5., 5., 2.)];
    let viz = visualizer(circles.clone());
    let start = Point { x: s(300.), y: s(-100.) };
    let end = Point { x: s(400.), y: s(-50.) };
    let frames = vec![texts(&["a", "b"]), texts(&["c"])];
    let hologram = viz
        .build_animated_hologram(&start, &end, s(2.0), &frames)
        .unwrap();
    assert_eq!(n(hologram.width), 500.);
    assert_eq!(n(hologram.height), 500.);
    assert_eq!(hologram.view_box, extents(0., 0., 300., 100.));
    assert_eq!(
        hologram.elements,
        vec![
            HologramElement::InputCircle(circles[0]),
            HologramElement::AnimatedArc(animated_arc(&frames[0], s(2.0)).unwrap()),
            HologramElement::InputCircle(circles[1]),
            HologramElement::AnimatedArc(animated_arc(&frames[1], s(2.0)).unwrap()),
        ]
    );
    match &hologram.elements[1] {
        HologramElement::AnimatedArc(arc) => {
            assert_eq!(arc.values(), "a;b;a");
            assert_eq!(arc.duration_secs, s(2.0));
        }
        other => panic!("unexpected {:?}", other),
    }
}

#[test]
fn animated_hologram_needs_a_duration_above_zero() {
    let start = Point { x: s(300.), y: s(-100.) };
    let end = Point { x: s(400.), y: s(-50.) };
    let one = visualizer(vec![circle(0., 0., 1.)]);
    let none = visualizer(vec![]);
    let degenerate = visualizer(vec![circle(300., -100., 0.)]);
    let frames = vec![texts(&["a", "b"])];
    for bad in [0.0f32, -0.0, -2.0, f32::NEG_INFINITY, f32::NAN] {
        assert_eq!(
            one.build_animated_hologram(&start, &end, s(bad), &frames),
            Err(HoloError::InvalidDuration)
        );
        // whatever else is given
        assert_eq!(
            none.build_animated_hologram(&start, &end, s(bad), &vec![]),
            Err(HoloError::InvalidDuration)
        );
        assert_eq!(
            degenerate.build_animated_hologram(&start, &end, s(bad), &vec![]),
            Err(HoloError::InvalidDuration)
        );
    }
    assert!(one
        .build_animated_hologram(&start, &end, s(f32::MIN_POSITIVE), &frames)
        .is_ok());
}

#[test]
fn animated_hologram_needs_a_direction_to_the_light_at_both_ends() {
    let start = Point { x: s(300.), y: s(-100.) };
    let end = Point { x: s(5.), y: s(5.) };
    let viz = visualizer(vec![circle(0., 0., 1.), circle(5., 5., 2.)]);
    let frames = vec![texts(&["a"]), texts(&["b"])];
    assert_eq!(
        viz.build_animated_hologram(&start, &end, s(1.0), &frames),
        Err(HoloError::DegenerateGeometry)
    );
    assert_eq!(
        viz.build_animated_hologram(&end, &start, s(1.0), &frames),
        Err(HoloError::DegenerateGeometry)
    );
    assert!(viz
        .build_animated_hologram(&start, &start, s(1.0), &frames)
        .is_ok());
}

#[test]
fn animated_hologram_needs_frames_for_each_circle() {
    let start = Point { x: s(300.), y: s(-100.) };
    let end = Point { x: s(400.), y: s(-50.) };
    let viz = visualizer(vec![circle(0., 0., 1.), circle(5., 5., 2.)]);
    assert_eq!(
        viz.build_animated_hologram(&start, &end, s(1.0), &vec![texts(&["a"])]),
        Err(HoloError::MalformedInput)
    );
    assert_eq!(
        viz.build_animated_hologram(&start, &end, s(1.0), &vec![texts(&["a"]), vec![]]),
        Err(HoloError::EmptyInput)
    );
}

#[test]
fn holograms_need_circles_and_an_arc_for_each() {
    let start = Point { x: s(300.), y: s(-100.) };
    let none = visualizer(vec![]);
    assert_eq!(none.build_static_hologram(&vec![]), Err(HoloError::EmptyInput));
    assert_eq!(
        none.build_animated_hologram(&start, &start, s(1.0), &vec![]),
        Err(HoloError::EmptyInput)
    );
    let one = visualizer(vec![circle(0., 0., 1.)]);
    assert_eq!(
        one.build_static_hologram(&vec![]),
        Err(HoloError::MalformedInput)
    );
}
