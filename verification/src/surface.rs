//! What one frame writes to the terminal surface, as a list of operations
//! for the caller to perform in order.

use vstd::prelude::*;
use crate::world::{Viewport, WorldState};

verus! {

/// A foreground colour.
#[derive(Clone, Copy, Debug, PartialEq, Eq, Structural)]
pub enum Color {
    White,
    Rgb { r: u8, g: u8, b: u8 },
}

/// The two fixed texts of a frame.
#[derive(Clone, Copy, Debug, PartialEq, Eq, Structural)]
pub enum Text {
    /// The line of instructions in the top left corner.
    Instructions,
    /// The glyph that stands for the player.
    Glyph,
}

/// One operation on the terminal surface.
#[derive(Clone, Copy, Debug, PartialEq, Eq, Structural)]
pub enum SurfaceOp {
    /// Erase the whole visible surface.
    Clear,
    /// Set the colour of the text written from here on.
    SetForeground(Color),
    /// Move the write cursor; the top left cell is `(0, 0)`.
    MoveTo { column: u16, row: u16 },
    /// Write a text at the write cursor.
    Write(Text),
    /// Make everything queued so far visible at once.
    Flush,
}

impl Text {
    /// The characters of the text.
    pub open spec fn content(self) -> Seq<char> {
        match self {
            Text::Instructions => "move with wasd, press q to exit"@,
            Text::Glyph => "[]"@,
        }
    }

    /// The text as a string.
    pub fn as_str(self) -> (s: &'static str)
        ensures
            s@ == self.content(),
    {
        match self {
            Text::Instructions => "move with wasd, press q to exit",
            Text::Glyph => "[]",
        }
    }
}

/// Character columns that one world cell takes on the surface.
pub const CELL_WIDTH: u16 = 2;

/// Whether the cell can be addressed on a surface: its column and its row
/// fit the `u16` coordinates of the write cursor.
pub open spec fn addressable(world: WorldState) -> bool {
    &&& 0 <= world.x
    &&& world.x * CELL_WIDTH <= u16::MAX
    &&& 0 <= world.y <= u16::MAX
}

/// The frame that shows `world`: the surface cleared, the instructions in
/// white in the top left corner, the glyph in red at column `2 * x` and row
/// `y`, and a flush.
pub open spec fn frame_plan(world: WorldState) -> Seq<SurfaceOp> {
    seq![
        SurfaceOp::Clear,
        SurfaceOp::SetForeground(Color::White),
        SurfaceOp::MoveTo { column: 0, row: 0 },
        SurfaceOp::Write(Text::Instructions),
        SurfaceOp::MoveTo { column: (world.x * CELL_WIDTH) as u16, row: world.y as u16 },
        SurfaceOp::SetForeground(Color::Rgb { r: 255, g: 0, b: 0 }),
        SurfaceOp::Write(Text::Glyph),
        SurfaceOp::Flush,
    ]
}

/// Lists the operations of the frame that shows `world`.
pub fn compose_frame(world: WorldState) -> (ops: Vec<SurfaceOp>)
    requires
        addressable(world),
    ensures
        ops@ == frame_plan(world),
{
    let column: u16 = (world.x * CELL_WIDTH as i32) as u16;
    let row: u16 = world.y as u16;
    let mut ops: Vec<SurfaceOp> = Vec::new();
    ops.push(SurfaceOp::Clear);
    ops.push(SurfaceOp::SetForeground(Color::White));
    ops.push(SurfaceOp::MoveTo { column: 0, row: 0 });
    ops.push(SurfaceOp::Write(Text::Instructions));
    ops.push(SurfaceOp::MoveTo { column, row });
    ops.push(SurfaceOp::SetForeground(Color::Rgb { r: 255, g: 0, b: 0 }));
    ops.push(SurfaceOp::Write(Text::Glyph));
    ops.push(SurfaceOp::Flush);
    assert(ops@ =~= frame_plan(world));
    ops
}

/// A cell of the world that a viewport shows can be addressed.
pub proof fn lemma_within_is_addressable(world: WorldState, viewport: Viewport)
    requires
        world.within(viewport),
    ensures
        addressable(world),
{
}

/// The glyph is as wide as a world cell, so the glyph of a cell inside the
/// world is drawn wholly on the surface: it starts at column `2 * x`, ends
/// before the surface's right edge, and stands on one of its rows.
pub proof fn lemma_glyph_on_surface(world: WorldState, viewport: Viewport)
    requires
        world.within(viewport),
    ensures
        Text::Glyph.content().len() == CELL_WIDTH,
        frame_plan(world)[4] == (SurfaceOp::MoveTo {
            column: (2 * world.x) as u16,
            row: world.y as u16,
        }),
        0 <= 2 * world.x,
        2 * world.x + Text::Glyph.content().len() <= viewport.width,
        0 <= world.y < viewport.height,
{
    reveal_strlit("[]");
}

} // verus!
