//! Path data: the commands of a path and their text.

use crate::error::HoloError;
use crate::geometry::Point;
use crate::scalar::Scalar;
use vstd::prelude::*;
use vstd::string::*;

verus! {

/// What a command of a path does.
#[derive(Debug, Clone, Copy, PartialEq, Eq, Structural)]
pub enum CommandKind {
    /// Sets the current point.
    Move,
    /// Draws a straight line.
    Line,
    /// Draws an arc of an ellipse.
    EllipticalArc,
}

/// One command of a path. Its parameters are numbers of the type `N`: a
/// [`Scalar`] while the path is geometry, a `String` once it is written out.
#[derive(Debug, Clone, PartialEq)]
pub struct PathCommand<N> {
    pub kind: CommandKind,
    /// Whether the parameters are relative to the current point.
    pub relative: bool,
    pub params: Vec<N>,
}

/// A written command as plain values.
pub struct CommandView {
    pub kind: CommandKind,
    pub relative: bool,
    pub params: Seq<Seq<char>>,
}

impl DeepView for PathCommand<String> {
    type V = CommandView;

    open spec fn deep_view(&self) -> CommandView {
        CommandView { kind: self.kind, relative: self.relative, params: self.params.deep_view() }
    }
}

/// The number one.
pub const ONE_BITS: u32 = 0x3f80_0000;

/// The parameters, each followed by one space.
pub open spec fn params_text(params: Seq<Seq<char>>) -> Seq<char>
    decreases params.len(),
{
    if params.len() == 0 {
        Seq::empty()
    } else {
        params_text(params.drop_last()) + params.last() + seq![' ']
    }
}

/// The letter of a command that can be written: `M` for a move, `A` for an
/// arc, whether relative or not.
pub open spec fn command_letter(kind: CommandKind) -> Option<char> {
    match kind {
        CommandKind::Move => Some('M'),
        CommandKind::EllipticalArc => Some('A'),
        CommandKind::Line => None,
    }
}

/// Whether every command is a move or an arc.
pub open spec fn can_be_written(data: Seq<CommandView>) -> bool {
    forall|i: int| 0 <= i < data.len() ==> command_letter((#[trigger] data[i]).kind).is_some()
}

/// The commands in order, each as its letter and its parameters, every
/// parameter followed by one space.
pub open spec fn spaced_text(data: Seq<CommandView>) -> Seq<char>
    decreases data.len(),
{
    if data.len() == 0 {
        Seq::empty()
    } else {
        spaced_text(data.drop_last()) + seq![command_letter(data.last().kind).unwrap()]
            + params_text(data.last().params)
    }
}

/// The text of path data: [`spaced_text`] without the space after the last
/// parameter.
pub open spec fn path_text(data: Seq<CommandView>) -> Seq<char> {
    if data.len() > 0 && data.last().params.len() > 0 {
        spaced_text(data).drop_last()
    } else {
        spaced_text(data)
    }
}

/// A command of geometry as plain values.
pub struct ScalarCommand {
    pub kind: CommandKind,
    pub relative: bool,
    pub params: Seq<Scalar>,
}

impl View for PathCommand<Scalar> {
    type V = ScalarCommand;

    open spec fn view(&self) -> ScalarCommand {
        ScalarCommand { kind: self.kind, relative: self.relative, params: self.params@ }
    }
}

/// The commands as plain values.
pub open spec fn commands_view(data: Seq<PathCommand<Scalar>>) -> Seq<ScalarCommand> {
    Seq::new(data.len(), |i: int| data[i]@)
}

/// The path of an arc of a circle of the given radius: a move to where it
/// starts, then an arc to where it ends. The arc is never turned, is the
/// lesser of the two arcs between its ends, and sweeps in the positive
/// direction.
pub open spec fn arc_commands(start: Point, radius: Scalar, end: Point) -> Seq<ScalarCommand> {
    seq![
        ScalarCommand {
            kind: CommandKind::Move,
            relative: false,
            params: seq![start.x, start.y],
        },
        ScalarCommand {
            kind: CommandKind::EllipticalArc,
            relative: false,
            params: seq![
                radius,
                radius,
                Scalar { bits: 0 },
                Scalar { bits: 0 },
                Scalar { bits: ONE_BITS },
                end.x,
                end.y,
            ],
        },
    ]
}

/// The outline of a diamond about `(x, y)` that reaches `size` to each
/// side: a move to the centre, a move up to the top corner, then the four
/// sides, each relative to the corner before.
pub open spec fn diamond_commands(x: Scalar, y: Scalar, size: Scalar) -> Seq<ScalarCommand> {
    seq![
        ScalarCommand { kind: CommandKind::Move, relative: false, params: seq![x, y] },
        ScalarCommand {
            kind: CommandKind::Move,
            relative: true,
            params: seq![Scalar { bits: 0 }, size.negated()],
        },
        ScalarCommand {
            kind: CommandKind::Line,
            relative: true,
            params: seq![size.negated(), size],
        },
        ScalarCommand { kind: CommandKind::Line, relative: true, params: seq![size, size] },
        ScalarCommand {
            kind: CommandKind::Line,
            relative: true,
            params: seq![size, size.negated()],
        },
        ScalarCommand {
            kind: CommandKind::Line,
            relative: true,
            params: seq![size.negated(), size.negated()],
        },
    ]
}

/// Writes the parameters of one command, each followed by a space.
fn append_params(text: &mut String, params: &Vec<String>)
    ensures
        final(text)@ == old(text)@ + params_text(params.deep_view()),
{
    let n = params.len();
    let ghost all = params.deep_view();
    let mut i: usize = 0;
    assert(all.take(0) =~= Seq::<Seq<char>>::empty());
    assert(text@ + Seq::<char>::empty() =~= text@);
    while i < n
        invariant
            i <= n,
            n == params@.len(),
            all == params.deep_view(),
            text@ == old(text)@ + params_text(all.take(i as int)),
        decreases n - i,
    {
        proof {
            reveal_strlit(" ");
            assert(" "@ =~= seq![' ']);
            assert(all.take(i + 1).drop_last() =~= all.take(i as int));
            assert(all.take(i + 1).last() == params@[i as int]@);
        }
        let ghost before = text@;
        text.append(params[i].as_str());
        text.append(" ");
        assert(text@ =~= old(text)@ + params_text(all.take(i + 1)));
        i += 1;
    }
    assert(all.take(n as int) =~= all);
}

/// Writes path data as it stands in a drawing, such as
/// `M0 0 A80 80 0 0 0 10 10`.
///
/// Only moves and arcs can be written; data with any other command is
/// refused as malformed.
pub fn data_to_string(data: &Vec<PathCommand<String>>) -> (r: Result<String, HoloError>)
    ensures
        can_be_written(data.deep_view()) ==> r.is_ok() && r.unwrap()@ == path_text(
            data.deep_view(),
        ),
        !can_be_written(data.deep_view()) ==> r == Err::<String, HoloError>(
            HoloError::MalformedInput,
        ),
{
    let n = data.len();
    let ghost all = data.deep_view();
    let mut text = String::new();
    let mut i: usize = 0;
    assert(all.take(0) =~= Seq::<CommandView>::empty());
    while i < n
        invariant
            i <= n,
            n == data@.len(),
            all == data.deep_view(),
            can_be_written(all.take(i as int)),
            text@ == spaced_text(all.take(i as int)),
        decreases n - i,
    {
        proof {
            reveal_strlit("M");
            reveal_strlit("A");
            assert("M"@ =~= seq!['M']);
            assert("A"@ =~= seq!['A']);
            assert(all.take(i + 1).drop_last() =~= all.take(i as int));
            assert(all.take(i + 1).last() == data@[i as int].deep_view());
            assert(all[i as int] == data@[i as int].deep_view());
        }
        match data[i].kind {
            CommandKind::Move => {
                text.append("M");
            },
            CommandKind::EllipticalArc => {
                text.append("A");
            },
            CommandKind::Line => {
                return Err(HoloError::MalformedInput);
            },
        }
        append_params(&mut text, &data[i].params);
        proof {
            assert forall|j: int| 0 <= j < i + 1 implies command_letter(
                (#[trigger] all.take(i + 1)[j]).kind,
            ).is_some() by {
                if j < i {
                    assert(all.take(i + 1)[j] == all.take(i as int)[j]);
                }
            }
        }
        i += 1;
    }
    assert(all.take(n as int) =~= all);
    if n > 0 && data[n - 1].params.len() > 0 {
        assert(all.last() == data@[n - 1].deep_view());
        proof {
            lemma_spaced_text_len(all);
        }
        let len = text.as_str().unicode_len();
        let cut = text.as_str().substring_char(0, len - 1).to_owned();
        assert(cut@ =~= spaced_text(all).drop_last());
        Ok(cut)
    } else {
        if n > 0 {
            assert(all.last() == data@[n - 1].deep_view());
        }
        Ok(text)
    }
}

/// Written data is at least as long as it has commands.
pub proof fn lemma_spaced_text_len(data: Seq<CommandView>)
    ensures
        spaced_text(data).len() >= data.len(),
    decreases data.len(),
{
    if data.len() > 0 {
        lemma_spaced_text_len(data.drop_last());
    }
}

/// One command with the given parameters.
fn command(kind: CommandKind, relative: bool, params: Vec<Scalar>) -> (c: PathCommand<Scalar>)
    ensures
        c@ == (ScalarCommand { kind, relative, params: params@ }),
{
    PathCommand { kind, relative, params }
}

/// The path of an arc of a circle, from `start` to `end`.
pub fn arc_path(start: Point, radius: Scalar, end: Point) -> (data: Vec<PathCommand<Scalar>>)
    ensures
        commands_view(data@) == arc_commands(start, radius, end),
{
    let zero = Scalar { bits: 0 };
    let one = Scalar { bits: ONE_BITS };
    let first = vec![start.x, start.y];
    let second = vec![radius, radius, zero, zero, one, end.x, end.y];
    assert(first@ =~= seq![start.x, start.y]);
    assert(second@ =~= seq![radius, radius, zero, zero, one, end.x, end.y]);
    let data = vec![
        command(CommandKind::Move, false, first),
        command(CommandKind::EllipticalArc, false, second),
    ];
    assert(commands_view(data@) =~= arc_commands(start, radius, end));
    data
}

/// Adds the outline of a diamond about `(x, y)` to `data`.
pub fn push_diamond(data: &mut Vec<PathCommand<Scalar>>, x: Scalar, y: Scalar, size: Scalar)
    ensures
        commands_view(final(data)@) == commands_view(old(data)@) + diamond_commands(x, y, size),
{
    let zero = Scalar { bits: 0 };
    let down = size.neg();
    let centre = vec![x, y];
    let top = vec![zero, down];
    let first = vec![down, size];
    let second = vec![size, size];
    let third = vec![size, down];
    let fourth = vec![down, down];
    proof {
        assert(centre@ =~= seq![x, y]);
        assert(top@ =~= seq![zero, down]);
        assert(first@ =~= seq![down, size]);
        assert(second@ =~= seq![size, size]);
        assert(third@ =~= seq![size, down]);
        assert(fourth@ =~= seq![down, down]);
    }
    data.push(command(CommandKind::Move, false, centre));
    data.push(command(CommandKind::Move, true, top));
    data.push(command(CommandKind::Line, true, first));
    data.push(command(CommandKind::Line, true, second));
    data.push(command(CommandKind::Line, true, third));
    data.push(command(CommandKind::Line, true, fourth));
    assert(commands_view(data@) =~= commands_view(old(data)@) + diamond_commands(x, y, size));
}

} // verus!
