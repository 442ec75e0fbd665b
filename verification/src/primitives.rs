//! Plain geometric primitives: a point and an axis-aligned rectangle, generic
//! over the coordinate type.

use vstd::prelude::*;

verus! {

use vstd::std_specs::ops::AddSpec;
use vstd::std_specs::cmp::PartialOrdSpec;
use core::cmp::Ordering;

/// A point in the plane.
#[derive(Debug)]
pub struct Point<T> {
    pub x: T,
    pub y: T,
}

impl<T> Point<T> {
    /// Builds the point with the given coordinates.
    pub fn new(x: T, y: T) -> (p: Point<T>)
        ensures
            p.x == x,
            p.y == y,
    {
        Point { x, y }
    }
}

/// An axis-aligned rectangle, given by its lower-left corner and its extent.
#[derive(Debug)]
pub struct Rect<T> {
    pub x: T,
    pub y: T,
    pub width: T,
    pub height: T,
}

impl<T> Rect<T> {
    /// Builds the rectangle with the given corner and extent.
    pub fn new(x: T, y: T, width: T, height: T) -> (r: Rect<T>)
        ensures
            r.x == x,
            r.y == y,
            r.width == width,
            r.height == height,
    {
        Rect { x, y, width, height }
    }
}

impl<T> Rect<T> where T: PartialOrd + core::ops::Add<Output = T> + Copy + PartialOrdSpec + AddSpec<Output = T> {
    /// The corner opposite the one the rectangle is anchored at: corner plus
    /// extent in each coordinate.
    pub fn get_upper_right(&self) -> (p: Point<T>)
        requires
            self.x.add_req(self.width),
            self.y.add_req(self.height),
        ensures
            T::obeys_add_spec() ==> p == (Point {
                x: self.x.add_spec(self.width),
                y: self.y.add_spec(self.height),
            }),
    {
        return Point::new(self.x + self.width, self.y + self.height);
    }

    /// Whether the point lies strictly inside the rectangle: strictly greater
    /// than the anchored corner and strictly less than the opposite corner in
    /// both coordinates. A point on the boundary is not contained.
    pub fn contains(&self, point: &Point<T>) -> (r: bool)
        requires
            self.x.add_req(self.width),
            self.y.add_req(self.height),
        ensures
            T::obeys_add_spec() && T::obeys_partial_cmp_spec() ==> r == {
                &&& point.x.partial_cmp_spec(&self.x) matches Some(Ordering::Greater)
                &&& point.x.partial_cmp_spec(&self.x.add_spec(self.width)) matches Some(
                    Ordering::Less,
                )
                &&& point.y.partial_cmp_spec(&self.y) matches Some(Ordering::Greater)
                &&& point.y.partial_cmp_spec(&self.y.add_spec(self.height)) matches Some(
                    Ordering::Less,
                )
            },
    {
        point.x > self.x
            && point.x < self.x + self.width
            && point.y > self.y
            && point.y < self.y + self.height
    }
}

} // verus!
