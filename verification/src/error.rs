//! The failures of the geometric pipeline.

use vstd::prelude::*;

verus! {

/// Why a step of the pipeline gave no result.
#[derive(Debug, Clone, Copy, PartialEq, Eq, Structural)]
pub enum HoloError {
    /// A face names fewer than three vertices, or a vertex that is not there.
    InvalidMesh,
    /// The drawing source cannot be read as a drawing.
    MalformedInput,
    /// There are no points or circles to work on.
    EmptyInput,
    /// The duration of an animation is not above zero.
    InvalidDuration,
    /// A circle of radius zero, or a light source at the circle's centre.
    DegenerateGeometry,
}

} // verus!
