//! Geometry primitives: plain values with no behaviour beyond construction.

use vstd::prelude::*;

verus! {

/// An axis-aligned rectangle, given by its top-left corner and its extent.
///
/// Nothing is demanded of the extent: a negative width or height is a legal
/// intermediate value, for instance when padding exceeds the border box.
#[derive(Debug, Default, PartialEq, Eq)]
pub struct Rect<T> {
    pub left: T,
    pub top: T,
    pub width: T,
    pub height: T,
}

impl<T> Rect<T> {
    pub fn new(left: T, top: T, width: T, height: T) -> (rect: Rect<T>)
        ensures
            rect == (Rect { left, top, width, height }),
    {
        Rect { left, top, width, height }
    }
}

impl<T: Copy> Clone for Rect<T> {
    fn clone(&self) -> (copy: Rect<T>)
        ensures
            copy == *self,
    {
        *self
    }
}

impl<T: Copy> Copy for Rect<T> {}

impl View for Rect<i64> {
    type V = Rect<int>;

    /// The rectangle over the mathematical integers.
    open spec fn view(&self) -> Rect<int> {
        Rect {
            left: self.left as int,
            top: self.top as int,
            width: self.width as int,
            height: self.height as int,
        }
    }
}

impl Rect<int> {
    /// Every coordinate can be stored in a machine layout unit.
    pub open spec fn representable(self) -> bool {
        &&& i64::MIN <= self.left <= i64::MAX
        &&& i64::MIN <= self.top <= i64::MAX
        &&& i64::MIN <= self.width <= i64::MAX
        &&& i64::MIN <= self.height <= i64::MAX
    }
}

/// One side of a box.
#[derive(Clone, Copy, Debug, PartialEq, Eq)]
pub enum Side {
    Top,
    Right,
    Bottom,
    Left,
}

/// The axis along which children are placed.
#[derive(Clone, Copy, Debug, PartialEq, Eq)]
pub enum Direction {
    Horizontal,
    Vertical,
}

impl Default for Direction {
    fn default() -> (direction: Direction)
        ensures
            direction == Direction::Horizontal,
    {
        Direction::Horizontal
    }
}

} // verus!
