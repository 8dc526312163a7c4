//! Colors and re-exports of the geometric types used when drawing.

pub use crate::geometry::Point;
pub use crate::geometry::Rect;

use vstd::prelude::*;

verus! {

/// An RGBA color with 8-bit channels; 255 is full intensity or full
/// opacity.
#[derive(Debug, Copy, Clone, PartialEq, Eq, Structural)]
pub struct Color {
    pub r: u8,
    pub g: u8,
    pub b: u8,
    pub a: u8,
}

impl Color {
    pub fn new(r: u8, g: u8, b: u8, a: u8) -> (c: Color)
        ensures
            c == (Color { r, g, b, a }),
    {
        Color { r, g, b, a }
    }

    /// A fully opaque color.
    pub fn rgb(r: u8, g: u8, b: u8) -> (c: Color)
        ensures
            c == (Color { r, g, b, a: 255u8 }),
    {
        Color::new(r, g, b, 255)
    }

    /// Builds a color from four 8-bit channel values.
    pub fn rgba_u8(r: u8, g: u8, b: u8, a: u8) -> (c: Color)
        ensures
            c == (Color { r, g, b, a }),
    {
        Color::new(r, g, b, a)
    }

    pub fn white() -> (c: Color)
        ensures
            c == (Color { r: 255u8, g: 255u8, b: 255u8, a: 255u8 }),
    {
        Color::rgb(255, 255, 255)
    }

    pub fn black() -> (c: Color)
        ensures
            c == (Color { r: 0u8, g: 0u8, b: 0u8, a: 255u8 }),
    {
        Color::rgb(0, 0, 0)
    }

    pub fn red() -> (c: Color)
        ensures
            c == (Color { r: 255u8, g: 0u8, b: 0u8, a: 255u8 }),
    {
        Color::rgb(255, 0, 0)
    }

    pub fn green() -> (c: Color)
        ensures
            c == (Color { r: 0u8, g: 255u8, b: 0u8, a: 255u8 }),
    {
        Color::rgb(0, 255, 0)
    }

    pub fn blue() -> (c: Color)
        ensures
            c == (Color { r: 0u8, g: 0u8, b: 255u8, a: 255u8 }),
    {
        Color::rgb(0, 0, 255)
    }

    pub fn yellow() -> (c: Color)
        ensures
            c == (Color { r: 255u8, g: 255u8, b: 0u8, a: 255u8 }),
    {
        Color::rgb(255, 255, 0)
    }

    pub fn magenta() -> (c: Color)
        ensures
            c == (Color { r: 255u8, g: 0u8, b: 255u8, a: 255u8 }),
    {
        Color::rgb(255, 0, 255)
    }

    pub fn cyan() -> (c: Color)
        ensures
            c == (Color { r: 0u8, g: 255u8, b: 255u8, a: 255u8 }),
    {
        Color::rgb(0, 255, 255)
    }

    pub fn transparent() -> (c: Color)
        ensures
            c == (Color { r: 0u8, g: 0u8, b: 0u8, a: 0u8 }),
    {
        Color::new(0, 0, 0, 0)
    }
}

} // verus!
