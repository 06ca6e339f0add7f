//! Core state and rendering logic of a terminal music-player front end.
//!
//! The library owns the view state (navigation, selection cursors, search
//! input), the lyric time-synchronization engine, the accent-colour
//! extraction from album artwork, and the glyph renderer that maps bitmap
//! fonts onto sub-cell Unicode block characters. Network transport and the
//! terminal drawing surface live outside the library and hand it plain
//! values.

pub mod chars;
pub mod colour;
pub mod config;
pub mod cursor;
pub mod format;
pub mod glyph;
pub mod lyrics;
pub mod model;
pub mod player;
pub mod playlist;
pub mod search;
pub mod state;
pub mod style;

use vstd::prelude::*;

verus! {

/// Terminal window dimensions in cells.
#[derive(Debug, Default, PartialEq, Eq, Structural, Clone, Copy)]
pub struct WindowSize {
    pub height: u16,
    pub width: u16,
}

/// A rectangular region of the terminal, in cells.
#[derive(Debug, Default, PartialEq, Eq, Structural, Clone, Copy)]
pub struct Rect {
    pub x: u16,
    pub y: u16,
    pub width: u16,
    pub height: u16,
}

impl Rect {
    /// Whether the cell at `(column, row)` lies inside this region.
    pub open spec fn spec_contains(&self, column: u16, row: u16) -> bool {
        &&& self.x <= column < self.x + self.width
        &&& self.y <= row < self.y + self.height
    }

    pub fn contains(&self, column: u16, row: u16) -> (r: bool)
        ensures
            r == self.spec_contains(column, row),
    {
        self.x <= column && (column as u32) < (self.x as u32) + (self.width as u32) && self.y <= row
            && (row as u32) < (self.y as u32) + (self.height as u32)
    }
}

/// Physical thumbnail bounds derived from the window size: a quarter of the
/// width and, below a 7-row header, half of the remaining height.
pub fn window_width_height(width: u16, height: u16) -> (r: (u32, u32))
    ensures
        r.0 == width as u32 / 4,
        r.1 == (if height >= 7 { (height - 7) as u32 / 2 } else { 0u32 }),
{
    let window_width = width as u32 / 4;
    let window_height = (height.saturating_sub(7) as u32) / 2;

    (window_width, window_height)
}

} // verus!
