//! The size argument in its earlier form: a width, an optional `x`, an
//! optional height and a unit.

use crate::cli_error::CliError;
use crate::dimension::{scale_numerals, scaled_size, unit_factor, unit_millimetres, SizeOutcome};
use crate::pattern::{capture_groups, regex_captures};
use crate::text::parsed_usize;
use vstd::prelude::*;
use vstd::string::*;

verus! {

/// A size in millimetres.
#[derive(Debug, Clone, PartialEq)]
pub struct Size {
    pub width: usize,
    pub height: usize,
}

/// The regular expression of a size: group 1 is the width, group 2 the
/// height, which may be empty, and group 3 the unit.
pub open spec fn size_pattern() -> Seq<char> {
    r"^(\d+)x?(\d*)(mm|cm|m)$"@
}

/// The text that the height is read from: the height group where it holds
/// anything, the width group else.
pub open spec fn height_text(width: Seq<char>, height: Option<Seq<char>>) -> Seq<char> {
    match height {
        Some(h) => if h.len() > 0 {
            h
        } else {
            width
        },
        None => width,
    }
}

/// The size that the groups of a match stand for.
pub open spec fn size_of(groups: Option<Seq<Option<Seq<char>>>>) -> SizeOutcome {
    match groups {
        Some(g) => if g.len() == 4 && g[1].is_some() && g[3].is_some() {
            match unit_millimetres(g[3].unwrap()) {
                Some(factor) => scaled_size(
                    parsed_usize(g[1].unwrap()),
                    parsed_usize(height_text(g[1].unwrap(), g[2])),
                    factor,
                ),
                None => SizeOutcome::BadShape,
            }
        } else {
            SizeOutcome::BadShape
        },
        None => SizeOutcome::BadShape,
    }
}

/// Whether `result` reports `outcome`.
pub open spec fn reports_size(result: Result<Size, CliError>, outcome: SizeOutcome) -> bool {
    match outcome {
        SizeOutcome::Size { width, height } => result == Ok::<Size, CliError>(
            Size { width, height },
        ),
        SizeOutcome::BadNumber => result matches Err(CliError::InvalidSizeInt(_)),
        SizeOutcome::BadShape => result matches Err(CliError::InvalidSize),
    }
}

/// Turns the capture groups of a size into the size in millimetres.
pub fn size_from_groups(groups: &Option<Vec<Option<String>>>) -> (r: Result<Size, CliError>)
    ensures
        reports_size(r, size_of(groups.deep_view())),
{
    let g = match groups {
        Some(g) => g,
        None => {
            return Err(CliError::InvalidSize);
        },
    };
    if g.len() != 4 {
        return Err(CliError::InvalidSize);
    }
    assert(groups.deep_view().unwrap().len() == 4);
    assert(groups.deep_view().unwrap()[1] == g@[1].deep_view());
    assert(groups.deep_view().unwrap()[2] == g@[2].deep_view());
    assert(groups.deep_view().unwrap()[3] == g@[3].deep_view());
    let (width, unit) = match (&g[1], &g[3]) {
        (Some(width), Some(unit)) => (width.as_str(), unit.as_str()),
        _ => {
            return Err(CliError::InvalidSize);
        },
    };
    let factor = match unit_factor(unit) {
        Some(factor) => factor,
        None => {
            return Err(CliError::InvalidSize);
        },
    };
    let height = match &g[2] {
        Some(height) => if height.as_str().unicode_len() > 0 {
            height.as_str()
        } else {
            width
        },
        None => width,
    };
    match scale_numerals(width, height, factor) {
        Ok((width, height)) => Ok(Size { width, height }),
        Err(e) => Err(e),
    }
}

/// Parses a size such as `10x50cm` or `2m` into millimetres.
///
/// The text is matched against [`size_pattern`]; what the groups of the
/// match come to is stated by [`size_of`].
pub fn parse_size(arg: &str) -> (r: Result<Size, CliError>)
    ensures
        reports_size(r, size_of(regex_captures(size_pattern(), arg@))),
{
    let groups = capture_groups(r"^(\d+)x?(\d*)(mm|cm|m)$", arg);
    size_from_groups(&groups)
}

} // verus!
