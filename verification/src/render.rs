//! Drawing commands.
//!
//! The game controller does not touch a rendering surface. Instead it
//! describes one frame as an ordered list of commands; the host maps each
//! command to its drawing backend. The order encodes the visual layering:
//! snake first, then food, then the border, then the game-over overlay.

use vstd::prelude::*;

verus! {

/// One drawing instruction, in grid coordinates. Rectangles span `w` by `h`
/// cells starting at `(x, y)`.
#[derive(Clone, Copy, PartialEq, Eq, Structural, Debug)]
pub enum DrawCmd {
    /// One cell of the snake body.
    SnakeBlock { x: i32, y: i32 },
    /// The food cell.
    FoodBlock { x: i32, y: i32 },
    /// One of the four border bars.
    BorderRect { x: i32, y: i32, w: i32, h: i32 },
    /// The translucent overlay shown while the game is over.
    GameOverRect { x: i32, y: i32, w: i32, h: i32 },
}

} // verus!
