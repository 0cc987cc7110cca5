//! The square cell grid, its boundary-aware accessors and neighbour counting.
use vstd::prelude::*;

verus! {

/// The state of one cell.
#[derive(Clone, Copy, Debug, PartialEq, Eq, Structural)]
pub enum CellState {
    Dead,
    Alive,
}

/// Failure of a grid access that addresses a coordinate outside the grid.
#[derive(Clone, Copy, Debug, PartialEq, Eq, Structural)]
pub enum GridError {
    OutOfBounds,
}

/// The opposite state of a cell.
pub open spec fn flipped(s: CellState) -> CellState {
    match s {
        CellState::Dead => CellState::Alive,
        CellState::Alive => CellState::Dead,
    }
}

/// Every row is as long as there are rows.
pub open spec fn is_square(cells: Seq<Seq<CellState>>) -> bool {
    forall|i: int| 0 <= i < cells.len() ==> #[trigger] cells[i].len() == cells.len()
}

pub open spec fn in_bounds(cells: Seq<Seq<CellState>>, r: int, c: int) -> bool {
    0 <= r < cells.len() && 0 <= c < cells.len()
}

/// A coordinate outside the grid holds no live cell.
pub open spec fn alive_at(cells: Seq<Seq<CellState>>, r: int, c: int) -> bool {
    in_bounds(cells, r, c) && cells[r][c] == CellState::Alive
}

pub open spec fn live_value(cells: Seq<Seq<CellState>>, r: int, c: int) -> int {
    if alive_at(cells, r, c) {
        1
    } else {
        0
    }
}

/// Number of live cells among the eight around `(r, c)`, the cell itself excluded.
pub open spec fn live_neighbors(cells: Seq<Seq<CellState>>, r: int, c: int) -> int {
    live_value(cells, r - 1, c - 1) + live_value(cells, r - 1, c) + live_value(cells, r - 1, c + 1)
        + live_value(cells, r, c - 1) + live_value(cells, r, c + 1)
        + live_value(cells, r + 1, c - 1) + live_value(cells, r + 1, c) + live_value(
        cells,
        r + 1,
        c + 1,
    )
}

pub open spec fn all_dead(cells: Seq<Seq<CellState>>) -> bool {
    forall|r: int, c: int| in_bounds(cells, r, c) ==> #[trigger] cells[r][c] == CellState::Dead
}

/// The cells with the one at `(r, c)` flipped.
pub open spec fn toggled_at(cells: Seq<Seq<CellState>>, r: int, c: int) -> Seq<Seq<CellState>> {
    cells.update(r, cells[r].update(c, flipped(cells[r][c])))
}

/// The count around a cell depends only on the cells of its neighbourhood that lie
/// inside the grid: neither the cell itself nor any coordinate outside
/// `[0, dimension)` contributes to it.
pub proof fn lemma_neighbors_local(a: Seq<Seq<CellState>>, b: Seq<Seq<CellState>>, r: int, c: int)
    requires
        is_square(a),
        is_square(b),
        a.len() == b.len(),
        forall|i: int, j: int|
            in_bounds(a, i, j) && r - 1 <= i <= r + 1 && c - 1 <= j <= c + 1 && !(i == r && j
                == c) ==> #[trigger] a[i][j] == b[i][j],
    ensures
        live_neighbors(a, r, c) == live_neighbors(b, r, c),
        0 <= live_neighbors(a, r, c) <= 8,
{
    assert(a[r - 1][c - 1] == b[r - 1][c - 1] || !in_bounds(a, r - 1, c - 1));
    assert(a[r - 1][c] == b[r - 1][c] || !in_bounds(a, r - 1, c));
    assert(a[r - 1][c + 1] == b[r - 1][c + 1] || !in_bounds(a, r - 1, c + 1));
    assert(a[r][c - 1] == b[r][c - 1] || !in_bounds(a, r, c - 1));
    assert(a[r][c + 1] == b[r][c + 1] || !in_bounds(a, r, c + 1));
    assert(a[r + 1][c - 1] == b[r + 1][c - 1] || !in_bounds(a, r + 1, c - 1));
    assert(a[r + 1][c] == b[r + 1][c] || !in_bounds(a, r + 1, c));
    assert(a[r + 1][c + 1] == b[r + 1][c + 1] || !in_bounds(a, r + 1, c + 1));
}

/// Flipping the same cell twice restores the grid.
pub proof fn lemma_toggle_twice(cells: Seq<Seq<CellState>>, r: int, c: int)
    requires
        is_square(cells),
        in_bounds(cells, r, c),
    ensures
        toggled_at(toggled_at(cells, r, c), r, c) == cells,
{
    let once = toggled_at(cells, r, c);
    assert(once[r] =~= cells[r].update(c, flipped(cells[r][c])));
    assert(once[r].update(c, flipped(once[r][c])) =~= cells[r]);
    assert(toggled_at(once, r, c) =~= cells);
}

/// A square grid of cells whose side never changes after construction.
#[derive(Clone, Debug)]
pub struct Grid {
    rows: Vec<Vec<CellState>>,
}

impl View for Grid {
    type V = Seq<Seq<CellState>>;

    closed spec fn view(&self) -> Seq<Seq<CellState>> {
        self.rows@.map_values(|row: Vec<CellState>| row@)
    }
}

impl Grid {
    pub open spec fn dim(&self) -> nat {
        self@.len()
    }

    pub open spec fn wf(&self) -> bool {
        is_square(self@)
    }

    /// Builds a grid from rows that already form a square.
    pub(crate) fn from_rows(rows: Vec<Vec<CellState>>) -> (g: Grid)
        requires
            forall|i: int| 0 <= i < rows@.len() ==> #[trigger] rows@[i]@.len() == rows@.len(),
        ensures
            g.wf(),
            g.dim() == rows@.len(),
            forall|r: int, c: int|
                0 <= r < rows@.len() && 0 <= c < rows@.len() ==> #[trigger] g@[r][c]
                    == rows@[r]@[c],
    {
        let g = Grid { rows };
        assert(is_square(g@)) by {
            assert forall|i: int| 0 <= i < g@.len() implies #[trigger] g@[i].len() == g@.len() by {
                assert(g@[i] == g.rows@[i]@);
            }
        }
        g
    }

    /// An all-dead grid of `dimension` by `dimension` cells.
    pub fn new(dimension: usize) -> (g: Grid)
        ensures
            g.wf(),
            g.dim() == dimension,
            all_dead(g@),
    {
        let mut rows: Vec<Vec<CellState>> = Vec::new();
        let mut i: usize = 0;
        while i < dimension
            invariant
                i <= dimension,
                rows@.len() == i,
                forall|r: int| 0 <= r < i ==> #[trigger] rows@[r]@.len() == dimension,
                forall|r: int, c: int|
                    0 <= r < i && 0 <= c < dimension ==> #[trigger] rows@[r]@[c] == CellState::Dead,
            decreases dimension - i,
        {
            let mut row: Vec<CellState> = Vec::new();
            let mut j: usize = 0;
            while j < dimension
                invariant
                    j <= dimension,
                    row@.len() == j,
                    forall|c: int| 0 <= c < j ==> #[trigger] row@[c] == CellState::Dead,
                decreases dimension - j,
            {
                row.push(CellState::Dead);
                j = j + 1;
            }
            rows.push(row);
            i = i + 1;
        }
        Grid::from_rows(rows)
    }

    /// Side length of the grid.
    pub fn dimension(&self) -> (n: usize)
        ensures
            n == self.dim(),
    {
        self.rows.len()
    }

    /// The state at `(row, col)`, or `OutOfBounds` outside the grid.
    pub fn get(&self, row: usize, col: usize) -> (r: Result<CellState, GridError>)
        requires
            self.wf(),
        ensures
            in_bounds(self@, row as int, col as int) ==> r == Ok::<CellState, GridError>(
                self@[row as int][col as int],
            ),
            !in_bounds(self@, row as int, col as int) ==> r == Err::<CellState, GridError>(
                GridError::OutOfBounds,
            ),
    {
        let n = self.rows.len();
        if row < n && col < n {
            assert(self.rows@[row as int]@ == self@[row as int]);
            Ok(self.rows[row][col])
        } else {
            Err(GridError::OutOfBounds)
        }
    }

    /// Whether `(row, col)` holds a live cell; a coordinate outside the grid holds none.
    pub fn is_alive(&self, row: usize, col: usize) -> (b: bool)
        requires
            self.wf(),
        ensures
            b == alive_at(self@, row as int, col as int),
    {
        match self.get(row, col) {
            Ok(s) => s == CellState::Alive,
            Err(_) => false,
        }
    }

    fn live_value(&self, row: usize, col: usize) -> (v: u8)
        requires
            self.wf(),
        ensures
            v as int == live_value(self@, row as int, col as int),
    {
        if self.is_alive(row, col) {
            1
        } else {
            0
        }
    }

    /// Number of live cells among the eight neighbours of `(row, col)`. Neighbours
    /// outside the grid count as dead: the edges do not wrap around.
    pub fn count_live_neighbors(&self, row: usize, col: usize) -> (n: u8)
        requires
            self.wf(),
        ensures
            n as int == live_neighbors(self@, row as int, col as int),
            n <= 8,
    {
        let dim = self.rows.len();
        let mut n: u8 = 0;
        if row > 0 {
            if col > 0 {
                n = n + self.live_value(row - 1, col - 1);
            }
            n = n + self.live_value(row - 1, col);
            if col < usize::MAX {
                n = n + self.live_value(row - 1, col + 1);
            }
        }
        if col > 0 {
            n = n + self.live_value(row, col - 1);
        }
        if col < usize::MAX {
            n = n + self.live_value(row, col + 1);
        }
        if row < usize::MAX {
            if col > 0 {
                n = n + self.live_value(row + 1, col - 1);
            }
            n = n + self.live_value(row + 1, col);
            if col < usize::MAX {
                n = n + self.live_value(row + 1, col + 1);
            }
        }
        n
    }

    /// Writes `state` at `(row, col)`; outside the grid nothing changes and
    /// `OutOfBounds` is returned.
    pub fn set(&mut self, row: usize, col: usize, state: CellState) -> (r: Result<(), GridError>)
        requires
            old(self).wf(),
        ensures
            final(self).wf(),
            in_bounds(old(self)@, row as int, col as int) ==> r == Ok::<(), GridError>(())
                && final(self)@ == old(self)@.update(
                row as int,
                old(self)@[row as int].update(col as int, state),
            ),
            !in_bounds(old(self)@, row as int, col as int) ==> r == Err::<(), GridError>(
                GridError::OutOfBounds,
            ) && *final(self) == *old(self),
    {
        let n = self.rows.len();
        if row < n && col < n {
            assert(self.rows@[row as int]@ == self@[row as int]);
            self.rows[row][col] = state;
            proof {
                let before = old(self)@;
                let after = self@;
                let expected = before.update(row as int, before[row as int].update(col as int, state));
                assert(after =~= expected) by {
                    assert forall|i: int| 0 <= i < after.len() implies after[i] == expected[i] by {
                        assert(after[i] == self.rows@[i]@);
                        assert(before[i] == old(self).rows@[i]@);
                    }
                }
                assert(is_square(after));
            }
            Ok(())
        } else {
            Err(GridError::OutOfBounds)
        }
    }

    /// Flips the cell at `(row, col)` between dead and alive; outside the grid
    /// nothing changes and `OutOfBounds` is returned.
    pub fn toggle(&mut self, row: usize, col: usize) -> (r: Result<(), GridError>)
        requires
            old(self).wf(),
        ensures
            final(self).wf(),
            in_bounds(old(self)@, row as int, col as int) ==> r == Ok::<(), GridError>(())
                && final(self)@ == toggled_at(old(self)@, row as int, col as int),
            !in_bounds(old(self)@, row as int, col as int) ==> r == Err::<(), GridError>(
                GridError::OutOfBounds,
            ) && *final(self) == *old(self),
    {
        match self.get(row, col) {
            Ok(CellState::Alive) => self.set(row, col, CellState::Dead),
            Ok(CellState::Dead) => self.set(row, col, CellState::Alive),
            Err(e) => Err(e),
        }
    }

    /// Sets every cell to dead, keeping the dimension.
    pub fn clear(&mut self)
        requires
            old(self).wf(),
        ensures
            final(self).wf(),
            final(self).dim() == old(self).dim(),
            all_dead(final(self)@),
    {
        let n = self.rows.len();
        *self = Grid::new(n);
    }
}

} // verus!
