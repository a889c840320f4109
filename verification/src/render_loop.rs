//! The render and control loop as a state machine. The caller hands over the
//! key presses that arrived and the size of the terminal; the loop says
//! whether to go on and what to draw.
//!
//! One frame is one call of [`RenderLoop::feed`] with the pending key
//! presses, then, unless that call ended the loop, one call of
//! [`RenderLoop::frame`] with the size that the terminal has at that moment.
//! The loop is over when `feed` returns `Terminating`, which is its regular
//! end, or when `frame` returns `NoRoom` or an operation on the terminal
//! fails, which are its failures.

use vstd::prelude::*;
use crate::input::{control_for, control_of, Control};
use crate::surface::{compose_frame, frame_plan, lemma_within_is_addressable, SurfaceOp};
use crate::world::{lemma_move_is_one_step, step_x, step_y, Viewport, WorldState};

verus! {

/// Whether the loop goes on.
#[derive(Clone, Copy, Debug, PartialEq, Eq, Structural)]
pub enum LoopState {
    /// Frames are drawn and key presses move the glyph.
    Running,
    /// A quit was handled. Nothing leaves this state.
    Terminating,
}

/// What a frame asks of the caller.
#[derive(Debug, PartialEq, Eq)]
pub enum Frame {
    /// Perform these operations in order, then go on with the next frame.
    Draw(Vec<SurfaceOp>),
    /// The terminal is too small to hold a single world cell, so there is
    /// nothing to draw the glyph on: the loop has failed.
    NoRoom,
    /// The loop is terminating: no frame is drawn.
    Stopped,
}

/// The loop: its state and the world it shows.
#[derive(Clone, Copy, Debug, PartialEq, Eq, Structural)]
pub struct RenderLoop {
    pub state: LoopState,
    pub world: WorldState,
}

impl RenderLoop {
    /// The loop at startup: running, with the glyph at `(0, 0)`.
    pub open spec fn initial() -> RenderLoop {
        RenderLoop { state: LoopState::Running, world: WorldState::origin() }
    }

    /// The loop after one key press. A running loop stops on the quit key
    /// and otherwise moves the world by the key's control; a terminating
    /// loop stays as it is.
    pub open spec fn handled(self, key: char) -> RenderLoop {
        match self.state {
            LoopState::Terminating => self,
            LoopState::Running => match control_for(key) {
                Control::Quit => RenderLoop { state: LoopState::Terminating, world: self.world },
                control => RenderLoop {
                    state: LoopState::Running,
                    world: self.world.moved(control),
                },
            },
        }
    }

    /// The loop after a batch of key presses, handled in the order in which
    /// they arrived.
    pub open spec fn fed(self, keys: Seq<char>) -> RenderLoop
        decreases keys.len(),
    {
        if keys.len() == 0 {
            self
        } else {
            self.fed(keys.drop_last()).handled(keys.last())
        }
    }

    /// The loop after the clamp of a frame: a running loop has its world
    /// brought into the viewport, a terminating loop stays as it is.
    pub open spec fn framed(self, viewport: Viewport) -> RenderLoop {
        match self.state {
            LoopState::Terminating => self,
            LoopState::Running => RenderLoop {
                state: LoopState::Running,
                world: self.world.clamped(viewport),
            },
        }
    }

    /// What a frame draws: the frame of the clamped world while the loop
    /// runs and the viewport has a cell for the glyph, nothing otherwise.
    pub open spec fn drawn(self, viewport: Viewport) -> Option<Seq<SurfaceOp>> {
        if self.state is Running && viewport.has_cells() {
            Some(frame_plan(self.world.clamped(viewport)))
        } else {
            None
        }
    }

    /// A loop at startup.
    pub fn new() -> (fresh: RenderLoop)
        ensures
            fresh == RenderLoop::initial(),
    {
        RenderLoop { state: LoopState::Running, world: WorldState::new() }
    }

    /// Handles one key press and returns the state that the loop is in
    /// afterwards.
    pub fn handle(&mut self, key: char) -> (state: LoopState)
        ensures
            *final(self) == old(self).handled(key),
            state == final(self).state,
    {
        match self.state {
            LoopState::Terminating => {},
            LoopState::Running => {
                let control = control_of(key);
                match control {
                    Control::Quit => {
                        self.state = LoopState::Terminating;
                    },
                    _ => {
                        self.world.shift(control);
                    },
                }
            },
        }
        self.state
    }

    /// The drain of a frame: handles the pending key presses in order. The
    /// moves add up and are not clamped here. A quit ends the loop on the
    /// spot: the key presses behind it in the batch are dropped. Returns the
    /// state that the loop is in afterwards; on `Terminating` the caller
    /// draws no frame.
    pub fn feed(&mut self, keys: &[char]) -> (state: LoopState)
        ensures
            *final(self) == old(self).fed(keys@),
            state == final(self).state,
    {
        let mut i: usize = 0;
        while i < keys.len()
            invariant
                i <= keys.len(),
                *self == old(self).fed(keys@.take(i as int)),
            decreases keys.len() - i,
        {
            if let LoopState::Terminating = self.state {
                proof {
                    let done = keys@.take(i as int);
                    let rest = keys@.skip(i as int);
                    assert(done + rest =~= keys@);
                    lemma_batches_join(*old(self), done, rest);
                    lemma_terminating_absorbs(*self, rest);
                }
                return self.state;
            }
            proof {
                assert(keys@.take(i + 1).drop_last() =~= keys@.take(i as int));
            }
            self.handle(keys[i]);
            i = i + 1;
        }
        proof {
            assert(keys@.take(i as int) =~= keys@);
        }
        self.state
    }

    /// The rest of a frame, for the size that the terminal has now.
    ///
    /// A terminating loop changes nothing and returns `Stopped`. A running
    /// loop clamps its world into the viewport. If the viewport has a world
    /// cell, two columns by one row at least, the glyph then stands in the
    /// world and `Draw` holds the operations that show it. If it has none,
    /// the clamp leaves `-1` on each axis without a cell and the result is
    /// `NoRoom`.
    pub fn frame(&mut self, viewport: Viewport) -> (frame: Frame)
        ensures
            *final(self) == old(self).framed(viewport),
            match frame {
                Frame::Draw(ops) => old(self).drawn(viewport) == Some(ops@),
                Frame::NoRoom => old(self).state is Running && !viewport.has_cells(),
                Frame::Stopped => old(self).state is Terminating,
            },
            frame is Draw ==> final(self).world.within(viewport),
    {
        match self.state {
            LoopState::Terminating => Frame::Stopped,
            LoopState::Running => {
                self.world.clamp(viewport);
                if viewport.is_inhabitable() {
                    proof {
                        lemma_within_is_addressable(self.world, viewport);
                    }
                    Frame::Draw(compose_frame(self.world))
                } else {
                    Frame::NoRoom
                }
            },
        }
    }
}

/// A terminating loop takes no key press.
pub proof fn lemma_terminating_absorbs(stopped: RenderLoop, keys: Seq<char>)
    requires
        stopped.state is Terminating,
    ensures
        stopped.fed(keys) == stopped,
    decreases keys.len(),
{
    if keys.len() > 0 {
        lemma_terminating_absorbs(stopped, keys.drop_last());
    }
}

/// Once a quit was handled the loop is over for good: no key press of a
/// later batch changes the state or the world, and no frame is drawn.
pub proof fn lemma_quit_is_final(stopped: RenderLoop, keys: Seq<char>, viewport: Viewport)
    requires
        stopped.state is Terminating,
    ensures
        stopped.fed(keys) == stopped,
        stopped.fed(keys).framed(viewport) == stopped,
        stopped.fed(keys).drawn(viewport) is None,
{
    lemma_terminating_absorbs(stopped, keys);
}

/// A quit takes priority over what is queued behind it: of a batch with a
/// quit in it, the key presses before the quit are applied, the loop
/// terminates, and the key presses behind the quit are dropped.
pub proof fn lemma_quit_cuts_batch(
    start: RenderLoop,
    before: Seq<char>,
    quit: char,
    after: Seq<char>,
)
    requires
        control_for(quit) == Control::Quit,
    ensures
        start.fed(before.push(quit) + after) == start.fed(before.push(quit)),
        start.fed(before.push(quit)).state is Terminating,
        start.fed(before.push(quit)).world == start.fed(before).world,
{
    let cut = before.push(quit);
    assert(cut.drop_last() =~= before);
    lemma_batches_join(start, cut, after);
    lemma_terminating_absorbs(start.fed(cut), after);
}

/// Key presses are handled in the order in which they arrived, wherever the
/// stream is cut into batches: feeding one batch and then another is feeding
/// the two joined.
pub proof fn lemma_batches_join(start: RenderLoop, first: Seq<char>, second: Seq<char>)
    ensures
        start.fed(first).fed(second) == start.fed(first + second),
    decreases second.len(),
{
    if second.len() == 0 {
        assert(first + second =~= first);
    } else {
        lemma_batches_join(start, first, second.drop_last());
        assert((first + second).drop_last() =~= first + second.drop_last());
        assert((first + second).last() == second.last());
    }
}

/// The key press that arrived first is handled first: feeding a batch is
/// handling its first key press and then feeding the rest.
pub proof fn lemma_first_in_first_handled(start: RenderLoop, keys: Seq<char>)
    requires
        keys.len() > 0,
    ensures
        start.fed(keys) == start.handled(keys[0]).fed(keys.drop_first()),
{
    let head = seq![keys[0]];
    assert(head.drop_last() =~= Seq::<char>::empty());
    assert(start.fed(head) == start.fed(head.drop_last()).handled(head.last()));
    assert(start.fed(Seq::<char>::empty()) == start);
    assert(head + keys.drop_first() =~= keys);
    lemma_batches_join(start, head, keys.drop_first());
}

/// Whether no key press of the batch is the quit key.
pub open spec fn quit_free(keys: Seq<char>) -> bool {
    forall|i: int| 0 <= i < keys.len() ==> control_for(#[trigger] keys[i]) != Control::Quit
}

/// After every frame the glyph stands in the world: whatever the world was
/// before, whatever key presses were fed, and whatever size the terminal
/// has, as long as it has a cell at all, the frame of a running loop leaves
/// `0 <= x < width / 2` and `0 <= y < height`, and it is drawn. A running
/// loop that is fed no quit is still running.
pub proof fn lemma_frame_keeps_glyph_in_world(start: RenderLoop, keys: Seq<char>, viewport: Viewport)
    requires
        viewport.has_cells(),
    ensures
        start.fed(keys).framed(viewport).state is Running ==> start.fed(keys).framed(
            viewport,
        ).world.within(viewport),
        start.fed(keys).framed(viewport).state is Running ==> start.fed(keys).drawn(viewport)
            is Some,
        start.state is Running && quit_free(keys) ==> start.fed(keys).framed(viewport).state
            is Running,
    decreases keys.len(),
{
    if keys.len() > 0 {
        lemma_frame_keeps_glyph_in_world(start, keys.drop_last(), viewport);
        if quit_free(keys) {
            assert(control_for(keys[keys.len() - 1]) != Control::Quit);
            assert forall|i: int| 0 <= i < keys.drop_last().len() implies control_for(
                #[trigger] keys.drop_last()[i],
            ) != Control::Quit by {
                assert(keys.drop_last()[i] == keys[i]);
            }
        }
    }
}

/// The columns that a batch of key presses asks the glyph to move in all.
pub open spec fn net_x(keys: Seq<char>) -> int
    decreases keys.len(),
{
    if keys.len() == 0 {
        0
    } else {
        net_x(keys.drop_last()) + step_x(control_for(keys.last()))
    }
}

/// The rows that a batch of key presses asks the glyph to move in all.
pub open spec fn net_y(keys: Seq<char>) -> int
    decreases keys.len(),
{
    if keys.len() == 0 {
        0
    } else {
        net_y(keys.drop_last()) + step_y(control_for(keys.last()))
    }
}

/// The moves of a batch add up, unclamped: a running loop that is fed a
/// batch without a quit ends with the glyph moved by the sum of the steps,
/// which can be more than one cell. This holds wherever the batch is too
/// short to reach a limit of `i32` from the cell it starts at.
pub proof fn lemma_moves_add_up(start: RenderLoop, keys: Seq<char>)
    requires
        start.state is Running,
        quit_free(keys),
        i32::MIN + keys.len() <= start.world.x <= i32::MAX - keys.len(),
        i32::MIN + keys.len() <= start.world.y <= i32::MAX - keys.len(),
    ensures
        start.fed(keys).state is Running,
        start.fed(keys).world.x == start.world.x + net_x(keys),
        start.fed(keys).world.y == start.world.y + net_y(keys),
        -keys.len() <= net_x(keys) <= keys.len(),
        -keys.len() <= net_y(keys) <= keys.len(),
    decreases keys.len(),
{
    if keys.len() > 0 {
        let front = keys.drop_last();
        assert forall|i: int| 0 <= i < front.len() implies control_for(#[trigger] front[i])
            != Control::Quit by {
            assert(front[i] == keys[i]);
        }
        assert(control_for(keys[keys.len() - 1]) != Control::Quit);
        lemma_moves_add_up(start, front);
        lemma_move_is_one_step(start.fed(front).world, control_for(keys.last()));
    }
}

} // verus!
