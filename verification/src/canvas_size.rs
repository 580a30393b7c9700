//! The canvas size argument: `width[xheight](mm|cm|m)`.

use crate::cli_error::CliError;
use crate::dimension::{scale_numerals, scaled_size, unit_factor, unit_millimetres, SizeOutcome};
use crate::pattern::{capture_groups, regex_captures};
use crate::text::{find_char, parsed_usize, split_once};
use vstd::prelude::*;
use vstd::string::*;

verus! {

/// A canvas size in millimetres.
#[derive(Debug, Clone, PartialEq)]
pub struct CanvasSize {
    pub width: usize,
    pub height: usize,
}

/// The regular expression of a canvas size: group 1 is the size, group 2
/// the unit.
pub open spec fn canvas_size_pattern() -> Seq<char> {
    r"^(\d+|\d+x\d+)(mm|cm|m)$"@
}

/// The canvas size that the groups of a match stand for. The size group is
/// either one number, taken for both sides, or two numbers around an `x`.
pub open spec fn canvas_size_of(groups: Option<Seq<Option<Seq<char>>>>) -> SizeOutcome {
    match groups {
        Some(g) => if g.len() == 3 && g[1].is_some() && g[2].is_some() {
            match unit_millimetres(g[2].unwrap()) {
                Some(factor) => match split_once(g[1].unwrap(), 'x') {
                    Some((w, h)) => scaled_size(parsed_usize(w), parsed_usize(h), factor),
                    None => scaled_size(
                        parsed_usize(g[1].unwrap()),
                        parsed_usize(g[1].unwrap()),
                        factor,
                    ),
                },
                None => SizeOutcome::BadShape,
            }
        } else {
            SizeOutcome::BadShape
        },
        None => SizeOutcome::BadShape,
    }
}

/// Whether `result` reports `outcome`.
pub open spec fn reports_canvas(result: Result<CanvasSize, CliError>, outcome: SizeOutcome)
    -> bool {
    match outcome {
        SizeOutcome::Size { width, height } => result == Ok::<CanvasSize, CliError>(
            CanvasSize { width, height },
        ),
        SizeOutcome::BadNumber => result matches Err(CliError::InvalidSizeInt(_)),
        SizeOutcome::BadShape => result matches Err(CliError::InvalidSize),
    }
}

/// Turns the capture groups of a canvas size into the size in millimetres.
pub fn canvas_size_from_groups(groups: &Option<Vec<Option<String>>>) -> (r: Result<
    CanvasSize,
    CliError,
>)
    ensures
        reports_canvas(r, canvas_size_of(groups.deep_view())),
{
    let g = match groups {
        Some(g) => g,
        None => {
            return Err(CliError::InvalidSize);
        },
    };
    if g.len() != 3 {
        return Err(CliError::InvalidSize);
    }
    assert(groups.deep_view().unwrap().len() == 3);
    assert(groups.deep_view().unwrap()[1] == g@[1].deep_view());
    assert(groups.deep_view().unwrap()[2] == g@[2].deep_view());
    let (size, unit) = match (&g[1], &g[2]) {
        (Some(size), Some(unit)) => (size.as_str(), unit.as_str()),
        _ => {
            return Err(CliError::InvalidSize);
        },
    };
    let factor = match unit_factor(unit) {
        Some(factor) => factor,
        None => {
            return Err(CliError::InvalidSize);
        },
    };
    let scaled = match find_char(size, 'x') {
        Some(at) => {
            let n = size.unicode_len();
            let width = size.substring_char(0, at);
            let height = size.substring_char(at + 1, n);
            scale_numerals(width, height, factor)
        },
        None => scale_numerals(size, size, factor),
    };
    match scaled {
        Ok((width, height)) => Ok(CanvasSize { width, height }),
        Err(e) => Err(e),
    }
}

/// Parses a canvas size such as `10x50cm` or `2m` into millimetres.
///
/// The text is matched against [`canvas_size_pattern`]; what the groups of
/// the match come to is stated by [`canvas_size_of`].
pub fn parse_size(arg: &str) -> (r: Result<CanvasSize, CliError>)
    ensures
        reports_canvas(r, canvas_size_of(regex_captures(canvas_size_pattern(), arg@))),
{
    let groups = capture_groups(r"^(\d+|\d+x\d+)(mm|cm|m)$", arg);
    canvas_size_from_groups(&groups)
}

} // verus!
