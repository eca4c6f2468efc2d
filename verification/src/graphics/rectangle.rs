//! Rectangles in whole texture or screen units.

use vstd::prelude::*;

verus! {

/// An axis-aligned rectangle: a frame of a sprite sheet, or a clip that a
/// caller lays over one.
#[derive(Clone, Copy, Debug, PartialEq, Eq, Structural)]
pub struct Rectangle {
    pub x: i32,
    pub y: i32,
    pub width: i32,
    pub height: i32,
}

impl Rectangle {
    /// Every field of `self + other` can be held in an `i32`.
    pub open spec fn sum_fits(self, other: Rectangle) -> bool {
        &&& i32::MIN <= self.x + other.x <= i32::MAX
        &&& i32::MIN <= self.y + other.y <= i32::MAX
        &&& i32::MIN <= self.width + other.width <= i32::MAX
        &&& i32::MIN <= self.height + other.height <= i32::MAX
    }

    /// `self` is the field-by-field sum of `a` and `b`, taken over the integers.
    pub open spec fn is_sum_of(self, a: Rectangle, b: Rectangle) -> bool {
        &&& self.x == a.x + b.x
        &&& self.y == a.y + b.y
        &&& self.width == a.width + b.width
        &&& self.height == a.height + b.height
    }

    /// The rectangle with these four fields.
    pub fn new(x: i32, y: i32, width: i32, height: i32) -> (r: Rectangle)
        ensures
            r == (Rectangle { x, y, width, height }),
    {
        Rectangle { x, y, width, height }
    }

    /// The field-by-field sum of two rectangles, or `None` where a field of it
    /// would leave the range of `i32`.
    pub fn checked_add(self, other: Rectangle) -> (r: Option<Rectangle>)
        ensures
            match r {
                Some(sum) => self.sum_fits(other) && sum.is_sum_of(self, other),
                None => !self.sum_fits(other),
            },
    {
        let x = self.x.checked_add(other.x);
        let y = self.y.checked_add(other.y);
        let width = self.width.checked_add(other.width);
        let height = self.height.checked_add(other.height);
        match (x, y, width, height) {
            (Some(x), Some(y), Some(width), Some(height)) => Some(Rectangle { x, y, width, height }),
            _ => None,
        }
    }
}

} // verus!
