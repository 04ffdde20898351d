//! Sizes, points and the box constraints that a parent hands to a child
//! during layout. Coordinates are unsigned and relative to the parent.
use vstd::prelude::*;

verus! {

#[derive(Clone, Copy, PartialEq, Eq, Structural, Debug)]
pub struct Size {
    pub width: u32,
    pub height: u32,
}

#[derive(Clone, Copy, PartialEq, Eq, Structural, Debug)]
pub struct Point {
    pub x: u32,
    pub y: u32,
}

impl Size {
    pub fn new(width: u32, height: u32) -> (r: Size)
        ensures
            r.width == width,
            r.height == height,
    {
        Size { width, height }
    }
}

impl Point {
    pub open spec fn new_spec(x: u32, y: u32) -> Point {
        Point { x, y }
    }

    pub open spec fn zero_spec() -> Point {
        Point { x: 0, y: 0 }
    }

    /// The origin.
    pub fn zero() -> (r: Point)
        ensures
            r == Point::zero_spec(),
    {
        Point { x: 0, y: 0 }
    }

    pub fn new(x: u32, y: u32) -> (r: Point)
        ensures
            r.x == x,
            r.y == y,
    {
        Point { x, y }
    }
}

/// The sizes a child may take: at least `min` and at most `max` on each axis.
#[derive(Clone, Copy, PartialEq, Eq, Structural, Debug)]
pub struct BoxConstraints {
    pub min: Size,
    pub max: Size,
}

impl BoxConstraints {
    pub open spec fn wf(&self) -> bool {
        self.min.width <= self.max.width && self.min.height <= self.max.height
    }

    pub open spec fn contains(&self, s: Size) -> bool {
        self.min.width <= s.width <= self.max.width && self.min.height <= s.height
            <= self.max.height
    }

    pub open spec fn clamp_spec(lo: u32, hi: u32, v: u32) -> u32 {
        if v < lo {
            lo
        } else if v > hi {
            hi
        } else {
            v
        }
    }

    pub fn new(min: Size, max: Size) -> (r: BoxConstraints)
        requires
            min.width <= max.width,
            min.height <= max.height,
        ensures
            r.min == min,
            r.max == max,
            r.wf(),
    {
        BoxConstraints { min, max }
    }

    /// Constraints that admit exactly one size.
    pub fn tight(s: Size) -> (r: BoxConstraints)
        ensures
            r.min == s,
            r.max == s,
            r.wf(),
    {
        BoxConstraints { min: s, max: s }
    }

    /// The same maximum, with no minimum.
    pub fn loosen(&self) -> (r: BoxConstraints)
        ensures
            r.min == Size::new_spec(0, 0),
            r.max == self.max,
            r.wf(),
    {
        BoxConstraints { min: Size { width: 0, height: 0 }, max: self.max }
    }

    /// Whether `s` lies within the constraints.
    pub fn is_satisfied_by(&self, s: Size) -> (r: bool)
        ensures
            r == self.contains(s),
    {
        self.min.width <= s.width && s.width <= self.max.width && self.min.height <= s.height
            && s.height <= self.max.height
    }

    /// The size nearest to `s` that the constraints admit, axis by axis.
    pub fn constrain(&self, s: Size) -> (r: Size)
        requires
            self.wf(),
        ensures
            self.contains(r),
            r.width == Self::clamp_spec(self.min.width, self.max.width, s.width),
            r.height == Self::clamp_spec(self.min.height, self.max.height, s.height),
            self.contains(s) ==> r == s,
    {
        let width = if s.width < self.min.width {
            self.min.width
        } else if s.width > self.max.width {
            self.max.width
        } else {
            s.width
        };
        let height = if s.height < self.min.height {
            self.min.height
        } else if s.height > self.max.height {
            self.max.height
        } else {
            s.height
        };
        Size { width, height }
    }
}

impl Size {
    pub open spec fn new_spec(width: u32, height: u32) -> Size {
        Size { width, height }
    }
}

} // verus!
