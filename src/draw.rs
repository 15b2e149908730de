//! Drawing commands that the engine hands to its host.
use vstd::prelude::*;

verus! {

/// The colours the engine draws with.
#[derive(Clone, Copy, Debug, PartialEq, Eq, Structural)]
pub enum Color {
    Yellow,
    Red,
    Black,
    Navy,
}

/// One drawing command. Coordinates are screen cells: column, then row,
/// with (0, 0) at the top left.
#[derive(Clone, Copy, Debug, PartialEq, Eq)]
pub enum Draw {
    /// Clear the whole screen.
    Clear,
    /// Clear the whole screen to a background colour.
    ClearTo { bg: Color },
    /// Set one cell to a glyph.
    Glyph { x: i32, y: i32, fg: Color, bg: Color, glyph: char },
    /// Print text starting at a cell.
    Print { x: i32, y: i32, text: &'static str },
    /// Print a label followed by a number in decimal, starting at a cell.
    PrintNumber { x: i32, y: i32, label: &'static str, value: i32 },
    /// Print text centred on a row.
    PrintCentered { y: i32, text: &'static str },
    /// Print a label, a number in decimal, then a suffix, centred on a row.
    PrintNumberCentered { y: i32, label: &'static str, value: i32, suffix: &'static str },
}

} // verus!
