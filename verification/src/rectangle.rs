//! An axis-aligned rectangle with verified area and containment checks.

use vstd::prelude::*;

verus! {

/// A rectangle described by its width and height, in whole units.
#[derive(Debug)]
pub struct Rectangle {
    pub width: u32,
    pub height: u32,
}

impl Rectangle {
    /// The area of the rectangle, `width * height`.
    pub fn area(&self) -> (a: u32)
        requires
            self.width * self.height <= u32::MAX,
        ensures
            a == self.width * self.height,
    {
        self.width * self.height
    }

    /// Whether `other` fits strictly inside `self`: both dimensions of
    /// `other` must be smaller than the corresponding dimension of `self`.
    pub fn can_hold(&self, other: &Rectangle) -> (r: bool)
        ensures
            r == (self.width > other.width && self.height > other.height),
    {
        self.width > other.width && self.height > other.height
    }

    /// A square: both sides have the given size.
    pub fn square(size: u32) -> (r: Self)
        ensures
            r.width == size,
            r.height == size,
    {
        Self { width: size, height: size }
    }

    /// Replaces the width, leaving the height unchanged.
    pub fn set_width(&mut self, width: u32)
        ensures
            final(self).width == width,
            final(self).height == old(self).height,
    {
        self.width = width;
    }

    /// The smallest rectangle at least as wide and at least as tall as
    /// both arguments: the dimension-wise maximum.
    pub fn max(self, other: Rectangle) -> (r: Rectangle)
        ensures
            r.width == if self.width >= other.width { self.width } else { other.width },
            r.height == if self.height >= other.height { self.height } else { other.height },
    {
        Rectangle {
            width: if self.width >= other.width { self.width } else { other.width },
            height: if self.height >= other.height { self.height } else { other.height },
        }
    }
}

/// The area of a borrowed rectangle, as a free function.
pub fn area(rectangle: &Rectangle) -> (a: u32)
    requires
        rectangle.width * rectangle.height <= u32::MAX,
    ensures
        a == rectangle.width * rectangle.height,
{
    rectangle.width * rectangle.height
}

} // verus!
