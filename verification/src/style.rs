//! Declared style: what the author of a tree asks for.

use vstd::prelude::*;

verus! {

/// The padding, in layout units, of a side whose padding is declared `Auto`.
pub const DEFAULT_PADDING: i64 = 16;

/// One value for each side of a box.
#[derive(Debug, Default, PartialEq, Eq)]
pub struct SidesArray<T> {
    pub top: T,
    pub right: T,
    pub bottom: T,
    pub left: T,
}

/// An RGBA colour, each channel from 0 (none) to 255 (full).
#[derive(Clone, Copy, Debug, Default, PartialEq, Eq)]
pub struct Color {
    pub r: u8,
    pub g: u8,
    pub b: u8,
    pub a: u8,
}

impl Color {
    pub fn new(r: u8, g: u8, b: u8, a: u8) -> (color: Color)
        ensures
            color == (Color { r, g, b, a }),
    {
        Color { r, g, b, a }
    }
}

/// A size as declared: left to the layout, fixed, or relative.
///
/// `Percent` can be declared but no layout pass resolves it.
#[derive(Clone, Copy, Debug, PartialEq, Eq)]
pub enum DeclaredSize {
    Auto,
    Pixels(i64),
    Percent(i64),
}

impl DeclaredSize {
    /// The size in layout units where one is determined without context:
    /// the declared number for `Pixels`, the default padding for `Auto`.
    pub open spec fn pixels(self) -> int {
        match self {
            DeclaredSize::Pixels(p) => p as int,
            DeclaredSize::Auto => DEFAULT_PADDING as int,
            DeclaredSize::Percent(_) => arbitrary(),
        }
    }

    /// The size in layout units. A percentage has none, so it is not accepted.
    pub fn unwrap_as_pixels(&self) -> (pixels: i64)
        requires
            !(self is Percent),
        ensures
            pixels == self.pixels(),
            self is Auto ==> pixels == 16,
            self matches DeclaredSize::Pixels(p) ==> pixels == p,
    {
        match *self {
            DeclaredSize::Pixels(p) => p,
            DeclaredSize::Auto => DEFAULT_PADDING,
            DeclaredSize::Percent(_) => unreached(),
        }
    }
}

impl Default for DeclaredSize {
    fn default() -> (size: DeclaredSize)
        ensures
            size == DeclaredSize::Auto,
    {
        DeclaredSize::Auto
    }
}

/// The style an author declares for one element. Layout reads it and never
/// writes it.
#[derive(Debug)]
pub struct DeclaredStyle {
    pub width: DeclaredSize,
    pub height: DeclaredSize,
    pub background_color: Color,
    pub padding_color: Color,
    pub padding: SidesArray<DeclaredSize>,
}

impl DeclaredStyle {
    /// The style with nothing declared: automatic sizes and padding, and
    /// transparent black for both colours.
    pub open spec fn unset() -> DeclaredStyle {
        DeclaredStyle {
            width: DeclaredSize::Auto,
            height: DeclaredSize::Auto,
            background_color: Color { r: 0, g: 0, b: 0, a: 0 },
            padding_color: Color { r: 0, g: 0, b: 0, a: 0 },
            padding: SidesArray {
                top: DeclaredSize::Auto,
                right: DeclaredSize::Auto,
                bottom: DeclaredSize::Auto,
                left: DeclaredSize::Auto,
            },
        }
    }
}

impl Default for DeclaredStyle {
    fn default() -> (style: DeclaredStyle)
        ensures
            style == DeclaredStyle::unset(),
    {
        DeclaredStyle {
            width: DeclaredSize::Auto,
            height: DeclaredSize::Auto,
            background_color: Color { r: 0, g: 0, b: 0, a: 0 },
            padding_color: Color { r: 0, g: 0, b: 0, a: 0 },
            padding: SidesArray {
                top: DeclaredSize::Auto,
                right: DeclaredSize::Auto,
                bottom: DeclaredSize::Auto,
                left: DeclaredSize::Auto,
            },
        }
    }
}

} // verus!
