use holo::animation::{animated_arc, frame_count, AnimatedArc};
use holo::error::HoloError;
use holo::geometry::Point;
use holo::path::{arc_path, data_to_string, push_diamond, CommandKind, PathCommand};
use holo::scalar::Scalar;
use holo::text::{find_char, join, str_eq};
use svg::node::element::path::{Command, Data};

fn s(value: f32) -> Scalar {
    Scalar::from_bits(value.to_bits())
}

fn numbers(params: &[Scalar]) -> Vec<f32> {
    params.iter().map(|p| f32::from_bits(p.to_bits())).collect()
}

fn written(data: &Data) -> Vec<PathCommand<String>> {
    data.iter()
        .map(|command| {
            let (kind, params) = match command {
                Command::Move(_, params) => (CommandKind::Move, params),
                Command::EllipticalArc(_, params) => (CommandKind::EllipticalArc, params),
                Command::Line(_, params) => (CommandKind::Line, params),
                _ => unreachable!(),
            };
            PathCommand {
                kind,
                relative: false,
                params: params.iter().map(|p| format!("{}", p)).collect(),
            }
        })
        .collect()
}

fn write_out(data: &[PathCommand<Scalar>]) -> Vec<PathCommand<String>> {
    data.iter()
        .map(|command| PathCommand {
            kind: command.kind,
            relative: command.relative,
            params: numbers(&command.params).iter().map(|p| format!("{}", p)).collect(),
        })
        .collect()
}

#[test]
fn test_data_to_string() {
    let data = Data::new()
        .move_to((0, 0))
        .elliptical_arc_to((80, 80, 0, 0, 0, 10, 10));
    assert_eq!(
        data_to_string(&written(&data)).unwrap(),
        "M0 0 A80 80 0 0 0 10 10"
    )
}

#[test]
fn data_without_parameters_or_commands() {
    assert_eq!(data_to_string(&vec![]).unwrap(), "");
    let bare = vec![PathCommand {
        kind: CommandKind::Move,
        relative: false,
        params: vec![],
    }];
    assert_eq!(data_to_string(&bare).unwrap(), "M");
    let two = vec![
        PathCommand {
            kind: CommandKind::Move,
            relative: false,
            params: vec!["1.5".to_string(), "-2".to_string()],
        },
        PathCommand {
            kind: CommandKind::EllipticalArc,
            relative: true,
            params: vec![],
        },
    ];
    assert_eq!(data_to_string(&two).unwrap(), "M1.5 -2 A");
}

#[test]
fn lines_cannot_be_written() {
    let data = Data::new().move_to((0, 0)).line_by((0, 50));
    assert_eq!(
        data_to_string(&written(&data)),
        Err(HoloError::MalformedInput)
    );
}

#[test]
fn arc_is_small_and_sweeps_in_the_positive_direction() {
    let start = Point { x: s(1.), y: s(2.) };
    let end = Point { x: s(3.), y: s(4.) };
    let data = arc_path(start, s(100.), end);
    assert_eq!(data.len(), 2);
    assert_eq!(data[0].kind, CommandKind::Move);
    assert!(!data[0].relative);
    assert_eq!(numbers(&data[0].params), vec![1., 2.]);
    assert_eq!(data[1].kind, CommandKind::EllipticalArc);
    assert!(!data[1].relative);
    assert_eq!(numbers(&data[1].params), vec![100., 100., 0., 0., 1., 3., 4.]);
    assert_eq!(
        data_to_string(&write_out(&data)).unwrap(),
        "M1 2 A100 100 0 0 1 3 4"
    );
}

#[test]
fn diamond_has_four_sides_about_its_centre() {
    let mut data = vec![];
    push_diamond(&mut data, s(10.), s(20.), s(2.));
    let kinds: Vec<(CommandKind, bool)> = data.iter().map(|c| (c.kind, c.relative)).collect();
    assert_eq!(
        kinds,
        vec![
            (CommandKind::Move, false),
            (CommandKind::Move, true),
            (CommandKind::Line, true),
            (CommandKind::Line, true),
            (CommandKind::Line, true),
            (CommandKind::Line, true),
        ]
    );
    let params: Vec<Vec<f32>> = data.iter().map(|c| numbers(&c.params)).collect();
    assert_eq!(
        params,
        vec![
            vec![10., 20.],
            vec![0., -2.],
            vec![-2., 2.],
            vec![2., 2.],
            vec![2., -2.],
            vec![-2., -2.],
        ]
    );
    // the outline matches the path that the same steps draw
    let drawn = Data::new()
        .move_to((10., 20.))
        .move_by((0, -2.))
        .line_by((-2., 2.))
        .line_by((2., 2.))
        .line_by((2., -2.))
        .line_by((-2., -2.));
    let drawn: Vec<Vec<f32>> = drawn
        .iter()
        .map(|command| match command {
            Command::Move(_, p) | Command::Line(_, p) => p.to_vec(),
            _ => unreachable!(),
        })
        .collect();
    assert_eq!(params, drawn);
    push_diamond(&mut data, s(0.), s(0.), s(-1.));
    assert_eq!(data.len(), 12);
    assert_eq!(numbers(&data[7].params), vec![0., 1.]);
}

fn frames(texts: &[&str]) -> Vec<String> {
    texts.iter().map(|t| t.to_string()).collect()
}

#[test]
fn light_at_rest_gives_a_single_key_frame() {
    // no sweep: no step, and still one frame to draw
    assert_eq!(frame_count(0), 1);
    let arc = animated_arc(&frames(&["M0 0 A1 1 0 0 1 2 2"]), s(2.0)).unwrap();
    assert_eq!(arc.keyframes, frames(&["M0 0 A1 1 0 0 1 2 2"]));
    assert_eq!(arc.values(), "M0 0 A1 1 0 0 1 2 2");
    assert_eq!(arc.duration_secs, s(2.0));
}

#[test]
fn two_frames_swing_there_and_back() {
    let arc = animated_arc(&frames(&["start", "end"]), s(5.0)).unwrap();
    assert_eq!(arc.keyframes, frames(&["start", "end", "start"]));
    assert_eq!(arc.values(), "start;end;start");
}

#[test]
fn many_frames_swing_without_repeating_the_turning_point() {
    assert_eq!(frame_count(4), 4);
    assert_eq!(frame_count(1), 1);
    let arc = animated_arc(&frames(&["a", "b", "c", "d"]), s(0.5)).unwrap();
    assert_eq!(arc.keyframes, frames(&["a", "b", "c", "d", "c", "b", "a"]));
    assert_eq!(arc.values(), "a;b;c;d;c;b;a");
    assert_eq!(arc.keyframes.first(), arc.keyframes.last());
}

#[test]
fn duration_must_be_above_zero() {
    let two = frames(&["a", "b"]);
    for bad in [0.0f32, -0.0, -2.0, f32::NEG_INFINITY, f32::NAN] {
        assert_eq!(animated_arc(&two, s(bad)), Err(HoloError::InvalidDuration));
    }
    assert!(animated_arc(&two, s(f32::MIN_POSITIVE)).is_ok());
    // the duration is looked at before the frames
    assert_eq!(animated_arc(&vec![], s(0.0)), Err(HoloError::InvalidDuration));
}

#[test]
fn animation_needs_a_frame() {
    assert_eq!(animated_arc(&vec![], s(1.0)), Err(HoloError::EmptyInput));
}

#[test]
fn values_of_no_key_frames_are_empty() {
    let arc = AnimatedArc {
        keyframes: vec![],
        duration_secs: s(1.0),
    };
    assert_eq!(arc.values(), "");
}

#[test]
fn text_helpers() {
    assert_eq!(join(&frames(&["a", "bc", ""]), ", "), "a, bc, ");
    assert_eq!(join(&vec![], ";"), "");
    assert_eq!(find_char("10x50", 'x'), Some(2));
    assert_eq!(find_char("xx", 'x'), Some(0));
    assert_eq!(find_char("1050", 'x'), None);
    assert_eq!(find_char("é×x", 'x'), Some(2));
    assert!(str_eq("mm", "mm"));
    assert!(!str_eq("mm", "m"));
}
