//! Lengths, points and rectangles.
//!
//! A length counts subdivisions of a pixel; which ones is the painter's choice,
//! and the same for all lengths.
use vstd::prelude::*;

verus! {

/// The length nearest to an integer.
pub open spec fn nearest(v: int) -> i64 {
    if v > i64::MAX {
        i64::MAX
    } else if v < i64::MIN {
        i64::MIN
    } else {
        v as i64
    }
}

pub fn plus(a: i64, b: i64) -> (sum: i64)
    ensures
        sum == nearest(a + b),
{
    let exact: i128 = a as i128 + b as i128;
    if exact > i64::MAX as i128 {
        i64::MAX
    } else if exact < i64::MIN as i128 {
        i64::MIN
    } else {
        exact as i64
    }
}

pub fn minus(a: i64, b: i64) -> (difference: i64)
    ensures
        difference == nearest(a - b),
{
    let exact: i128 = a as i128 - b as i128;
    if exact > i64::MAX as i128 {
        i64::MAX
    } else if exact < i64::MIN as i128 {
        i64::MIN
    } else {
        exact as i64
    }
}

#[derive(Clone, Copy, Debug, PartialEq, Eq, Structural)]
pub struct Point {
    pub x: i64,
    pub y: i64,
}

impl Point {
    pub open spec fn zero() -> Point {
        Point { x: 0, y: 0 }
    }

    pub open spec fn spec_plus(self, other: Point) -> Point {
        Point { x: nearest(self.x + other.x), y: nearest(self.y + other.y) }
    }

    pub open spec fn spec_minus(self, other: Point) -> Point {
        Point { x: nearest(self.x - other.x), y: nearest(self.y - other.y) }
    }

    pub fn plus(self, other: Point) -> (sum: Point)
        ensures
            sum == self.spec_plus(other),
    {
        Point { x: plus(self.x, other.x), y: plus(self.y, other.y) }
    }

    pub fn minus(self, other: Point) -> (difference: Point)
        ensures
            difference == self.spec_minus(other),
    {
        Point { x: minus(self.x, other.x), y: minus(self.y, other.y) }
    }
}

/// A rectangle: its upper left corner, and how far it reaches from there.
#[derive(Clone, Copy, Debug, PartialEq, Eq, Structural)]
pub struct Bounds {
    pub origin: Point,
    pub width: i64,
    pub height: i64,
}

impl Bounds {
    /// Whether a point lies in the rectangle; its right and lower edges do not
    /// belong to it.
    pub open spec fn has(self, point: Point) -> bool {
        &&& self.origin.x <= point.x < self.origin.x + self.width
        &&& self.origin.y <= point.y < self.origin.y + self.height
    }

    pub fn contains(self, point: Point) -> (inside: bool)
        ensures
            inside == self.has(point),
    {
        let x: i128 = point.x as i128;
        let y: i128 = point.y as i128;
        let left: i128 = self.origin.x as i128;
        let top: i128 = self.origin.y as i128;
        left <= x && x < left + self.width as i128 && top <= y && y < top + self.height as i128
    }
}

/// What lies between the edges of a rectangle and something inside it.
#[derive(Clone, Copy, Debug, PartialEq, Eq, Structural)]
pub struct Edges {
    pub top: i64,
    pub right: i64,
    pub bottom: i64,
    pub left: i64,
}

impl Edges {
    pub open spec fn none() -> Edges {
        Edges { top: 0, right: 0, bottom: 0, left: 0 }
    }
}

pub open spec fn greater(a: i64, b: i64) -> i64 {
    if a >= b {
        a
    } else {
        b
    }
}

pub fn larger(a: i64, b: i64) -> (most: i64)
    ensures
        most == greater(a, b),
{
    if a >= b {
        a
    } else {
        b
    }
}

} // verus!
