//! The simulated world: the cell of one glyph, and the bounds that the
//! terminal's size puts on it.

use vstd::prelude::*;
use crate::input::Control;

verus! {

/// The size of the visible surface in character cells.
#[derive(Clone, Copy, Debug, PartialEq, Eq, Structural)]
pub struct Viewport {
    pub width: u16,
    pub height: u16,
}

impl Viewport {
    /// Columns of the world. A world cell is two characters wide, because a
    /// character cell is about twice as tall as it is wide.
    pub open spec fn world_width(self) -> int {
        self.width as int / 2
    }

    /// Rows of the world.
    pub open spec fn world_height(self) -> int {
        self.height as int
    }

    /// Whether the world has at least one cell.
    pub open spec fn has_cells(self) -> bool {
        self.width >= 2 && self.height >= 1
    }

    /// Tells whether the world has at least one cell.
    pub fn is_inhabitable(&self) -> (yes: bool)
        ensures
            yes == self.has_cells(),
    {
        self.width >= 2 && self.height >= 1
    }
}

/// One step up from `v`; a coordinate at the top of its type stays there.
pub open spec fn bump(v: i32) -> i32 {
    if v < i32::MAX {
        (v + 1) as i32
    } else {
        v
    }
}

/// One step down from `v`; a coordinate at the bottom of its type stays there.
pub open spec fn dip(v: i32) -> i32 {
    if v > i32::MIN {
        (v - 1) as i32
    } else {
        v
    }
}

/// The columns that a control asks the glyph to move, to the right.
pub open spec fn step_x(control: Control) -> int {
    match control {
        Control::Left => -1,
        Control::Right => 1,
        _ => 0,
    }
}

/// The rows that a control asks the glyph to move, downwards.
pub open spec fn step_y(control: Control) -> int {
    match control {
        Control::Up => -1,
        Control::Down => 1,
        _ => 0,
    }
}

/// `v` brought into `0 ..= extent - 1`: first raised to zero, then lowered
/// below `extent`. With no cell to stand on (`extent == 0`) this is `-1`.
pub open spec fn clamp_axis(v: int, extent: int) -> int {
    let raised = if v < 0 { 0 } else { v };
    if raised >= extent {
        extent - 1
    } else {
        raised
    }
}

/// The logical cell of the glyph.
#[derive(Clone, Copy, Debug, PartialEq, Eq, Structural)]
pub struct WorldState {
    pub x: i32,
    pub y: i32,
}

impl WorldState {
    /// The state at startup.
    pub open spec fn origin() -> WorldState {
        WorldState { x: 0, y: 0 }
    }

    /// The state after one control: a direction moves one coordinate by one,
    /// anything else leaves the state alone.
    pub open spec fn moved(self, control: Control) -> WorldState {
        match control {
            Control::Up => WorldState { x: self.x, y: dip(self.y) },
            Control::Down => WorldState { x: self.x, y: bump(self.y) },
            Control::Left => WorldState { x: dip(self.x), y: self.y },
            Control::Right => WorldState { x: bump(self.x), y: self.y },
            Control::Quit => self,
            Control::Ignored => self,
        }
    }

    /// The state brought into the world that `viewport` shows.
    pub open spec fn clamped(self, viewport: Viewport) -> WorldState {
        WorldState {
            x: clamp_axis(self.x as int, viewport.world_width()) as i32,
            y: clamp_axis(self.y as int, viewport.world_height()) as i32,
        }
    }

    /// Whether the cell lies in the world that `viewport` shows.
    pub open spec fn within(self, viewport: Viewport) -> bool {
        &&& 0 <= self.x < viewport.world_width()
        &&& 0 <= self.y < viewport.world_height()
    }

    /// The state at startup, `(0, 0)`.
    pub fn new() -> (world: WorldState)
        ensures
            world == WorldState::origin(),
    {
        WorldState { x: 0, y: 0 }
    }

    /// Applies one control.
    pub fn shift(&mut self, control: Control)
        ensures
            *final(self) == old(self).moved(control),
    {
        match control {
            Control::Up => {
                if self.y > i32::MIN {
                    self.y = self.y - 1;
                }
            },
            Control::Down => {
                if self.y < i32::MAX {
                    self.y = self.y + 1;
                }
            },
            Control::Left => {
                if self.x > i32::MIN {
                    self.x = self.x - 1;
                }
            },
            Control::Right => {
                if self.x < i32::MAX {
                    self.x = self.x + 1;
                }
            },
            Control::Quit => {},
            Control::Ignored => {},
        }
    }

    /// Brings the cell into the world that `viewport` shows: `x` into
    /// `0 ..= width / 2 - 1` and `y` into `0 ..= height - 1`. A cell that is
    /// inside already does not move.
    pub fn clamp(&mut self, viewport: Viewport)
        ensures
            *final(self) == old(self).clamped(viewport),
            viewport.has_cells() ==> final(self).within(viewport),
            old(self).within(viewport) ==> *final(self) == *old(self),
    {
        let world_width: i32 = viewport.width as i32 / 2;
        let world_height: i32 = viewport.height as i32;
        if self.x < 0 {
            self.x = 0;
        }
        if self.y < 0 {
            self.y = 0;
        }
        if self.x >= world_width {
            self.x = world_width - 1;
        }
        if self.y >= world_height {
            self.y = world_height - 1;
        }
    }

    /// Tells whether the cell lies in the world that `viewport` shows.
    pub fn is_within(&self, viewport: Viewport) -> (yes: bool)
        ensures
            yes == self.within(viewport),
    {
        0 <= self.x && self.x < viewport.width as i32 / 2 && 0 <= self.y && self.y
            < viewport.height as i32
    }
}

/// Away from the limits of `i32` a control moves the glyph by exactly the
/// step it asks for: one cell along one axis for a direction, none for
/// anything else.
pub proof fn lemma_move_is_one_step(world: WorldState, control: Control)
    requires
        i32::MIN < world.x < i32::MAX,
        i32::MIN < world.y < i32::MAX,
    ensures
        world.moved(control).x == world.x + step_x(control),
        world.moved(control).y == world.y + step_y(control),
{
}

/// Clamping is idempotent, and it moves each coordinate no further than to
/// the nearest cell of the world.
pub proof fn lemma_clamp_is_nearest(world: WorldState, viewport: Viewport)
    requires
        viewport.has_cells(),
    ensures
        world.clamped(viewport).clamped(viewport) == world.clamped(viewport),
        world.x < 0 ==> world.clamped(viewport).x == 0,
        world.x >= viewport.world_width() ==> world.clamped(viewport).x == viewport.world_width()
            - 1,
        world.y < 0 ==> world.clamped(viewport).y == 0,
        world.y >= viewport.world_height() ==> world.clamped(viewport).y
            == viewport.world_height() - 1,
{
}

} // verus!
