use vstd::prelude::*;

verus! {

/// The direction a keyboard-controlled body faces.
#[derive(Debug, Clone, Copy, PartialEq, Eq, Structural)]
pub enum Direction {
    Up,
    Down,
    Left,
    Right,
}

/// The row of the sprite sheet that holds the frames for `direction`.
pub open spec fn spreadsheet_row_of(direction: Direction) -> i32 {
    match direction {
        Direction::Up => 3,
        Direction::Down => 0,
        Direction::Left => 1,
        Direction::Right => 2,
    }
}

/// Picks the sprite-sheet row for a facing direction.
pub fn direction_spreadsheet_row(direction: Direction) -> (r: i32)
    ensures
        r == spreadsheet_row_of(direction),
        0 <= r < 4,
{
    match direction {
        Direction::Up => 3,
        Direction::Down => 0,
        Direction::Left => 1,
        Direction::Right => 2,
    }
}

/// Marks a body that takes its movement from the keyboard.
#[derive(Debug, Clone, Copy, Default)]
pub struct KeyboardControlled;

/// The presentation zoom level: the renderer draws at a factor of
/// two to the power of this level.
#[derive(Debug, Clone, Copy, PartialEq, Eq, Structural)]
pub struct Scale(pub i32);

/// A request, taken once per tick, to change the zoom level by one step.
#[derive(Debug, Clone, Copy, PartialEq, Eq, Structural)]
pub enum ScaleCommand {
    Reduce,
    Increase,
}

} // verus!
