//! Lengths with a unit, shared by the two size arguments.

use crate::cli_error::CliError;
use crate::text::{parse_usize, parsed_usize, str_eq};
use vstd::prelude::*;

verus! {

/// What a size argument comes to.
pub enum SizeOutcome {
    /// A width and a height, in millimetres.
    Size { width: usize, height: usize },
    /// The shape is right but a number is no `usize`.
    BadNumber,
    /// The shape is wrong, or the size in millimetres is no `usize`.
    BadShape,
}

/// How many millimetres one unit of length holds.
pub open spec fn unit_millimetres(unit: Seq<char>) -> Option<usize> {
    if unit == seq!['m', 'm'] {
        Some(1usize)
    } else if unit == seq!['c', 'm'] {
        Some(10usize)
    } else if unit == seq!['m'] {
        Some(1000usize)
    } else {
        None
    }
}

/// A width and a height, scaled to millimetres.
pub open spec fn scaled_size(width: Option<usize>, height: Option<usize>, factor: usize)
    -> SizeOutcome {
    match (width, height) {
        (Some(w), Some(h)) => if w * factor <= usize::MAX && h * factor <= usize::MAX {
            SizeOutcome::Size { width: (w * factor) as usize, height: (h * factor) as usize }
        } else {
            SizeOutcome::BadShape
        },
        _ => SizeOutcome::BadNumber,
    }
}

/// Whether `result` reports `outcome`.
pub open spec fn reports(result: Result<(usize, usize), CliError>, outcome: SizeOutcome) -> bool {
    match outcome {
        SizeOutcome::Size { width, height } => result == Ok::<(usize, usize), CliError>(
            (width, height),
        ),
        SizeOutcome::BadNumber => result matches Err(CliError::InvalidSizeInt(_)),
        SizeOutcome::BadShape => result matches Err(CliError::InvalidSize),
    }
}

/// The factor of a unit of length, `None` for a unit that is not known.
pub fn unit_factor(unit: &str) -> (factor: Option<usize>)
    ensures
        factor == unit_millimetres(unit@),
{
    proof {
        reveal_strlit("mm");
        reveal_strlit("cm");
        reveal_strlit("m");
        assert("mm"@ =~= seq!['m', 'm']);
        assert("cm"@ =~= seq!['c', 'm']);
        assert("m"@ =~= seq!['m']);
    }
    if str_eq(unit, "mm") {
        Some(1)
    } else if str_eq(unit, "cm") {
        Some(10)
    } else if str_eq(unit, "m") {
        Some(1000)
    } else {
        None
    }
}

/// Reads the two numerals and scales them by `factor`. The width is read
/// first; a product that overflows is reported as a wrong shape.
pub fn scale_numerals(width: &str, height: &str, factor: usize) -> (r: Result<
    (usize, usize),
    CliError,
>)
    ensures
        reports(r, scaled_size(parsed_usize(width@), parsed_usize(height@), factor)),
{
    let w = match parse_usize(width) {
        Ok(w) => w,
        Err(e) => {
            return Err(CliError::InvalidSizeInt(e));
        },
    };
    let h = match parse_usize(height) {
        Ok(h) => h,
        Err(e) => {
            return Err(CliError::InvalidSizeInt(e));
        },
    };
    match (w.checked_mul(factor), h.checked_mul(factor)) {
        (Some(width_mm), Some(height_mm)) => Ok((width_mm, height_mm)),
        _ => Err(CliError::InvalidSize),
    }
}

} // verus!
