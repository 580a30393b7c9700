//! Points, circles and viewports.

use crate::scalar::Scalar;
use vstd::prelude::*;

verus! {

/// A point in space.
#[derive(Debug, Clone, Copy, PartialEq, Eq, Structural)]
pub struct Point3 {
    pub x: Scalar,
    pub y: Scalar,
    pub z: Scalar,
}

/// A point of the drawing plane. A light source is such a point.
#[derive(Debug, Clone, Copy, PartialEq, Eq, Structural)]
pub struct Point {
    pub x: Scalar,
    pub y: Scalar,
}

/// A circle of the drawing plane. The radius may be of either sign.
#[derive(Debug, Clone, Copy, PartialEq, Eq, Structural)]
pub struct Circle {
    pub cx: Scalar,
    pub cy: Scalar,
    pub r: Scalar,
}

/// The viewport of a drawing: its least x and y, its width and its height.
#[derive(Debug, Clone, Copy, PartialEq, Eq, Structural)]
pub struct Extents {
    pub xmin: Scalar,
    pub ymin: Scalar,
    pub width: Scalar,
    pub height: Scalar,
}

impl Extents {
    /// The four numbers in the order of a coordinate box.
    pub fn as_tuple(self) -> (t: (Scalar, Scalar, Scalar, Scalar))
        ensures
            t == (self.xmin, self.ymin, self.width, self.height),
    {
        (self.xmin, self.ymin, self.width, self.height)
    }

    /// The viewport that the first four of `numbers` stand for, `None`
    /// where there are fewer.
    pub fn from_vec(numbers: &Vec<Scalar>) -> (extents: Option<Extents>)
        ensures
            extents == (if numbers@.len() >= 4 {
                Some(
                    Extents {
                        xmin: numbers@[0],
                        ymin: numbers@[1],
                        width: numbers@[2],
                        height: numbers@[3],
                    },
                )
            } else {
                None
            }),
    {
        if numbers.len() >= 4 {
            Some(
                Extents {
                    xmin: numbers[0],
                    ymin: numbers[1],
                    width: numbers[2],
                    height: numbers[3],
                },
            )
        } else {
            None
        }
    }
}

} // verus!
