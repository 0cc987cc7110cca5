//! The interaction state machine: playback mode, cursor and grid, driven by
//! input events and by the generation clock.
use vstd::prelude::*;
use crate::grid::{Grid, GridError, all_dead, in_bounds, toggled_at, lemma_toggle_twice};
use crate::evolution::{evolve, next_generation};
use crate::pattern::{stamp_pattern, origin_fits, stamped};

verus! {

/// Whether generations advance on each tick.
#[derive(Clone, Copy, Debug, PartialEq, Eq, Structural)]
pub enum Mode {
    Running,
    Paused,
}

/// A one-cell step of the cursor. `Up` and `Down` change `cursor_y`, `Left` and
/// `Right` change `cursor_x`.
#[derive(Clone, Copy, Debug, PartialEq, Eq, Structural)]
pub enum Direction {
    Up,
    Down,
    Left,
    Right,
}

/// The keys the controller reacts to; every other key is `Other`.
#[derive(Clone, Copy, Debug, PartialEq, Eq, Structural)]
pub enum Key {
    Space,
    Tab,
    Up,
    Down,
    Left,
    Right,
    Enter,
    Escape,
    Other,
}

/// One input event, as delivered by the input source.
#[derive(Clone, Copy, Debug, PartialEq, Eq, Structural)]
pub enum Event {
    /// A pointer button was released at pixel `(x, y)`; pixels map one to one to cells.
    PointerReleased { x: i32, y: i32 },
    KeyPressed(Key),
    CloseRequested,
}

/// Whether the loop goes on after an event.
#[derive(Clone, Copy, Debug, PartialEq, Eq, Structural)]
pub enum Flow {
    Continue,
    Quit,
}

pub open spec fn toggled_mode(m: Mode) -> Mode {
    match m {
        Mode::Running => Mode::Paused,
        Mode::Paused => Mode::Running,
    }
}

/// The cursor's `x` after a step in `dir` on a grid of side `dim`; it stays put
/// at an edge.
pub open spec fn moved_x(x: int, dir: Direction, dim: int) -> int {
    match dir {
        Direction::Left => if x > 0 {
            x - 1
        } else {
            x
        },
        Direction::Right => if x + 1 < dim {
            x + 1
        } else {
            x
        },
        _ => x,
    }
}

/// The cursor's `y` after a step in `dir` on a grid of side `dim`; it stays put
/// at an edge.
pub open spec fn moved_y(y: int, dir: Direction, dim: int) -> int {
    match dir {
        Direction::Up => if y > 0 {
            y - 1
        } else {
            y
        },
        Direction::Down => if y + 1 < dim {
            y + 1
        } else {
            y
        },
        _ => y,
    }
}

/// Whether a step in `dir` from `(x, y)` would leave a grid of side `dim`.
pub open spec fn at_edge(x: int, y: int, dir: Direction, dim: int) -> bool {
    match dir {
        Direction::Up => y == 0,
        Direction::Down => y == dim - 1,
        Direction::Left => x == 0,
        Direction::Right => x == dim - 1,
    }
}

pub open spec fn key_direction(k: Key) -> Option<Direction> {
    match k {
        Key::Up => Some(Direction::Up),
        Key::Down => Some(Direction::Down),
        Key::Left => Some(Direction::Left),
        Key::Right => Some(Direction::Right),
        _ => None,
    }
}

pub open spec fn flow_after(event: Event) -> Flow {
    match event {
        Event::CloseRequested => Flow::Quit,
        Event::KeyPressed(Key::Escape) => Flow::Quit,
        _ => Flow::Continue,
    }
}

/// Pausing twice in a row gives back the mode one started from.
pub proof fn lemma_pause_twice(m: Mode)
    ensures
        toggled_mode(toggled_mode(m)) == m,
{
}

/// A step towards an edge the cursor already stands on leaves it where it is.
pub proof fn lemma_move_at_edge(x: int, y: int, dir: Direction, dim: int)
    requires
        0 <= x < dim,
        0 <= y < dim,
        at_edge(x, y, dir, dim),
    ensures
        moved_x(x, dir, dim) == x,
        moved_y(y, dir, dim) == y,
{
}

/// The simulation: its grid, playback mode, cursor and tick delay.
#[derive(Clone, Debug)]
pub struct Controller {
    pub grid: Grid,
    pub mode: Mode,
    pub cursor_x: usize,
    pub cursor_y: usize,
    pub tick_delay_ms: u64,
}

impl Controller {
    /// The grid is square and the cursor is on it (or at the origin of an empty grid).
    pub open spec fn wf(&self) -> bool {
        &&& self.grid.wf()
        &&& (self.cursor_x < self.grid.dim() || self.cursor_x == 0)
        &&& (self.cursor_y < self.grid.dim() || self.cursor_y == 0)
    }

    /// Everything but the grid is as in `other`.
    pub open spec fn same_controls(&self, other: Controller) -> bool {
        &&& self.mode == other.mode
        &&& self.cursor_x == other.cursor_x
        &&& self.cursor_y == other.cursor_y
        &&& self.tick_delay_ms == other.tick_delay_ms
    }

    /// The state after a pointer release at `(x, y)`: the pattern is stamped there
    /// where it fits, and nothing changes elsewhere.
    pub open spec fn after_pointer(self, next: Controller, x: i32, y: i32) -> bool {
        if x >= 0 && y >= 0 && origin_fits(self.grid.dim() as int, x as int, y as int) {
            next.same_controls(self) && next.grid@ == stamped(self.grid@, x as int, y as int)
        } else {
            next == self
        }
    }

    /// The state after a key press.
    pub open spec fn after_key(self, next: Controller, k: Key) -> bool {
        match k {
            Key::Space => {
                &&& next.mode == toggled_mode(self.mode)
                &&& next.grid == self.grid
                &&& next.cursor_x == self.cursor_x
                &&& next.cursor_y == self.cursor_y
                &&& next.tick_delay_ms == self.tick_delay_ms
            },
            Key::Tab => {
                &&& next.same_controls(self)
                &&& next.grid.dim() == self.grid.dim()
                &&& all_dead(next.grid@)
            },
            Key::Enter => {
                &&& next.same_controls(self)
                &&& self.grid.dim() > 0 ==> next.grid@ == toggled_at(
                    self.grid@,
                    self.cursor_x as int,
                    self.cursor_y as int,
                )
                &&& self.grid.dim() == 0 ==> next.grid == self.grid
            },
            _ => match key_direction(k) {
                Some(dir) => {
                    &&& next.cursor_x == moved_x(self.cursor_x as int, dir, self.grid.dim() as int)
                    &&& next.cursor_y == moved_y(self.cursor_y as int, dir, self.grid.dim() as int)
                    &&& next.grid == self.grid
                    &&& next.mode == self.mode
                    &&& next.tick_delay_ms == self.tick_delay_ms
                },
                None => next == self,
            },
        }
    }

    /// A running controller over an all-dead grid, cursor at the origin.
    pub fn new(dimension: usize, tick_delay_ms: u64) -> (c: Controller)
        ensures
            c.wf(),
            c.grid.dim() == dimension,
            all_dead(c.grid@),
            c.mode == Mode::Running,
            c.cursor_x == 0,
            c.cursor_y == 0,
            c.tick_delay_ms == tick_delay_ms,
    {
        Controller { grid: Grid::new(dimension), mode: Mode::Running, cursor_x: 0, cursor_y: 0, tick_delay_ms }
    }

    pub fn is_paused(&self) -> (b: bool)
        ensures
            b == (self.mode == Mode::Paused),
    {
        self.mode == Mode::Paused
    }

    /// Switches between running and paused; the grid is not touched.
    pub fn toggle_pause(&mut self)
        ensures
            final(self).mode == toggled_mode(old(self).mode),
            final(self).grid == old(self).grid,
            final(self).cursor_x == old(self).cursor_x,
            final(self).cursor_y == old(self).cursor_y,
            final(self).tick_delay_ms == old(self).tick_delay_ms,
    {
        self.mode = match self.mode {
            Mode::Running => Mode::Paused,
            Mode::Paused => Mode::Running,
        };
    }

    /// Kills every cell; mode and cursor stay.
    pub fn clear_grid(&mut self)
        requires
            old(self).wf(),
        ensures
            final(self).wf(),
            final(self).grid.dim() == old(self).grid.dim(),
            all_dead(final(self).grid@),
            final(self).same_controls(*old(self)),
    {
        self.grid.clear();
    }

    /// Moves the cursor one cell in `dir`, clamped to the grid.
    pub fn move_cursor(&mut self, dir: Direction)
        requires
            old(self).wf(),
        ensures
            final(self).wf(),
            final(self).cursor_x == moved_x(old(self).cursor_x as int, dir, old(self).grid.dim() as int),
            final(self).cursor_y == moved_y(old(self).cursor_y as int, dir, old(self).grid.dim() as int),
            final(self).grid == old(self).grid,
            final(self).mode == old(self).mode,
            final(self).tick_delay_ms == old(self).tick_delay_ms,
    {
        let n = self.grid.dimension();
        match dir {
            Direction::Up => {
                if self.cursor_y > 0 {
                    self.cursor_y = self.cursor_y - 1;
                }
            },
            Direction::Down => {
                if self.cursor_y < n && n - self.cursor_y > 1 {
                    self.cursor_y = self.cursor_y + 1;
                }
            },
            Direction::Left => {
                if self.cursor_x > 0 {
                    self.cursor_x = self.cursor_x - 1;
                }
            },
            Direction::Right => {
                if self.cursor_x < n && n - self.cursor_x > 1 {
                    self.cursor_x = self.cursor_x + 1;
                }
            },
        }
    }

    /// Flips the cell under the cursor. On an empty grid there is no such cell
    /// and nothing changes.
    pub fn confirm_at_cursor(&mut self)
        requires
            old(self).wf(),
        ensures
            final(self).wf(),
            final(self).same_controls(*old(self)),
            old(self).grid.dim() > 0 ==> final(self).grid@ == toggled_at(
                old(self).grid@,
                old(self).cursor_x as int,
                old(self).cursor_y as int,
            ),
            old(self).grid.dim() == 0 ==> final(self).grid == old(self).grid,
    {
        let _ = self.grid.toggle(self.cursor_x, self.cursor_y);
    }

    /// Stamps the seed pattern at `(row, col)`; an origin where it does not fit
    /// is rejected with `OutOfBounds` and changes nothing.
    pub fn stamp_at(&mut self, row: usize, col: usize) -> (r: Result<(), GridError>)
        requires
            old(self).wf(),
        ensures
            final(self).wf(),
            final(self).same_controls(*old(self)),
            origin_fits(old(self).grid.dim() as int, row as int, col as int) ==> r == Ok::<
                (),
                GridError,
            >(()) && final(self).grid@ == stamped(old(self).grid@, row as int, col as int),
            !origin_fits(old(self).grid.dim() as int, row as int, col as int) ==> r == Err::<
                (),
                GridError,
            >(GridError::OutOfBounds) && *final(self) == *old(self),
    {
        stamp_pattern(&mut self.grid, row, col)
    }

    /// One generation step: a running controller replaces its grid by the next
    /// generation, a paused one keeps it.
    pub fn tick(&mut self)
        requires
            old(self).wf(),
        ensures
            final(self).wf(),
            final(self).same_controls(*old(self)),
            old(self).mode == Mode::Running ==> final(self).grid@ == next_generation(old(self).grid@),
            old(self).mode == Mode::Paused ==> final(self).grid == old(self).grid,
    {
        if self.mode == Mode::Running {
            self.grid = evolve(&self.grid);
        }
    }

    /// Applies one input event and says whether the loop goes on. A rejected
    /// stamp is ignored.
    pub fn handle_event(&mut self, event: Event) -> (flow: Flow)
        requires
            old(self).wf(),
        ensures
            final(self).wf(),
            flow == flow_after(event),
            match event {
                Event::PointerReleased { x, y } => old(self).after_pointer(*final(self), x, y),
                Event::KeyPressed(k) => old(self).after_key(*final(self), k),
                Event::CloseRequested => *final(self) == *old(self),
            },
    {
        match event {
            Event::PointerReleased { x, y } => {
                if x >= 0 && y >= 0 {
                    let _ = self.stamp_at(x as usize, y as usize);
                }
                Flow::Continue
            },
            Event::KeyPressed(key) => match key {
                Key::Space => {
                    self.toggle_pause();
                    Flow::Continue
                },
                Key::Tab => {
                    self.clear_grid();
                    Flow::Continue
                },
                Key::Up => {
                    self.move_cursor(Direction::Up);
                    Flow::Continue
                },
                Key::Down => {
                    self.move_cursor(Direction::Down);
                    Flow::Continue
                },
                Key::Left => {
                    self.move_cursor(Direction::Left);
                    Flow::Continue
                },
                Key::Right => {
                    self.move_cursor(Direction::Right);
                    Flow::Continue
                },
                Key::Enter => {
                    self.confirm_at_cursor();
                    Flow::Continue
                },
                Key::Escape => Flow::Quit,
                Key::Other => Flow::Continue,
            },
            Event::CloseRequested => Flow::Quit,
        }
    }
}

/// Confirming twice at the same cursor position gives the cell back its state,
/// and the whole grid with it.
pub proof fn lemma_confirm_twice(grid: Grid, x: int, y: int)
    requires
        grid.wf(),
        in_bounds(grid@, x, y),
    ensures
        toggled_at(toggled_at(grid@, x, y), x, y) == grid@,
        toggled_at(toggled_at(grid@, x, y), x, y)[x][y] == grid@[x][y],
{
    lemma_toggle_twice(grid@, x, y);
}

} // verus!
