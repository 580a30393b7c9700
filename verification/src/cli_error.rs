//! Errors of the size arguments given on the command line.

use std::num::ParseIntError;
use vstd::prelude::*;

verus! {

/// `std::num::ParseIntError`: the error of the standard library's integer
/// parser, which is carried through and never looked into.
#[verifier::external_type_specification]
#[verifier::external_body]
pub struct ExParseIntError(ParseIntError);

/// Why a size argument was turned down.
#[derive(Debug, PartialEq)]
pub enum CliError {
    /// The size has the right shape but one of its numbers does not fit.
    InvalidSizeInt(ParseIntError),
    /// The size does not have the shape `width[xheight](mm|cm|m)`.
    InvalidSize,
}

impl CliError {
    /// The message shown to the user.
    pub fn message(&self) -> (text: String)
        ensures
            text@ == (match self {
                CliError::InvalidSizeInt(_) => "Invalid int specification for size"@,
                CliError::InvalidSize =>
                    "Invalid size specification, please use the format: width[xheight](mm|cm|m)"@,
            }),
    {
        match self {
            CliError::InvalidSizeInt(_) => "Invalid int specification for size".to_owned(),
            CliError::InvalidSize =>
                "Invalid size specification, please use the format: width[xheight](mm|cm|m)".to_owned(),
        }
    }
}

} // verus!
