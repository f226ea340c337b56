//! Positions, areas and colours as the lessons hand them to the renderer.

use vstd::prelude::*;

verus! {

/// A pixel position in the window.
#[derive(Clone, Copy, Debug, PartialEq, Eq)]
pub struct Point {
    pub x: i32,
    pub y: i32,
}

/// An area of the window: its top left corner and its size.
#[derive(Clone, Copy, Debug, PartialEq, Eq)]
pub struct Rect {
    pub x: i32,
    pub y: i32,
    pub width: u32,
    pub height: u32,
}

/// A colour by its red, green and blue parts.
#[derive(Clone, Copy, Debug, PartialEq, Eq)]
pub struct Rgb {
    pub red: u8,
    pub green: u8,
    pub blue: u8,
}

/// A colour by its name.
#[derive(Clone, Copy, Debug, PartialEq, Eq)]
pub enum Pen {
    White,
    Red,
    Green,
    Blue,
    Yellow,
}

} // verus!
