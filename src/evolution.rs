//! One generation of the Game of Life rule, computed from the previous
//! generation only.
use vstd::prelude::*;
use crate::grid::{CellState, Grid, is_square, in_bounds, alive_at, live_value, live_neighbors, all_dead};

verus! {

/// The life rule for one cell: a live cell survives with two or three live
/// neighbours, a dead cell is born with exactly three.
pub open spec fn rule(current: CellState, neighbors: int) -> CellState {
    match current {
        CellState::Alive => if neighbors == 2 || neighbors == 3 {
            CellState::Alive
        } else {
            CellState::Dead
        },
        CellState::Dead => if neighbors == 3 {
            CellState::Alive
        } else {
            CellState::Dead
        },
    }
}

/// The next generation: every cell follows the rule, applied to counts taken
/// on `cells` alone.
pub open spec fn next_generation(cells: Seq<Seq<CellState>>) -> Seq<Seq<CellState>> {
    Seq::new(
        cells.len(),
        |r: int| Seq::new(cells.len(), |c: int| rule(cells[r][c], live_neighbors(cells, r, c))),
    )
}

/// The grid after `k` generations.
pub open spec fn generations(cells: Seq<Seq<CellState>>, k: nat) -> Seq<Seq<CellState>>
    decreases k,
{
    if k == 0 {
        cells
    } else {
        next_generation(generations(cells, (k - 1) as nat))
    }
}

/// The state of a cell in the next generation, given its current state and its
/// number of live neighbours.
pub fn next_state(current: CellState, neighbors: u8) -> (s: CellState)
    ensures
        s == rule(current, neighbors as int),
{
    match current {
        CellState::Alive => if neighbors < 2 || neighbors > 3 {
            CellState::Dead
        } else {
            CellState::Alive
        },
        CellState::Dead => if neighbors == 3 {
            CellState::Alive
        } else {
            CellState::Dead
        },
    }
}

/// The next generation of `grid`, built as a fresh grid; `grid` is only read.
pub fn evolve(grid: &Grid) -> (next: Grid)
    requires
        grid.wf(),
    ensures
        next.wf(),
        next@ == next_generation(grid@),
{
    let n = grid.dimension();
    let mut rows: Vec<Vec<CellState>> = Vec::new();
    let mut i: usize = 0;
    while i < n
        invariant
            grid.wf(),
            n == grid.dim(),
            i <= n,
            rows@.len() == i,
            forall|r: int| 0 <= r < i ==> #[trigger] rows@[r]@.len() == n,
            forall|r: int, c: int|
                0 <= r < i && 0 <= c < n ==> #[trigger] rows@[r]@[c] == rule(
                    grid@[r][c],
                    live_neighbors(grid@, r, c),
                ),
        decreases n - i,
    {
        let mut row: Vec<CellState> = Vec::new();
        let mut j: usize = 0;
        while j < n
            invariant
                grid.wf(),
                n == grid.dim(),
                i < n,
                j <= n,
                row@.len() == j,
                forall|c: int|
                    0 <= c < j ==> #[trigger] row@[c] == rule(
                        grid@[i as int][c],
                        live_neighbors(grid@, i as int, c),
                    ),
            decreases n - j,
        {
            let current = match grid.get(i, j) {
                Ok(s) => s,
                Err(_) => CellState::Dead,
            };
            let neighbors = grid.count_live_neighbors(i, j);
            row.push(next_state(current, neighbors));
            j = j + 1;
        }
        rows.push(row);
        i = i + 1;
    }
    let next = Grid::from_rows(rows);
    assert(next@ =~= next_generation(grid@)) by {
        assert forall|r: int| 0 <= r < n implies #[trigger] next@[r] =~= next_generation(grid@)[r] by {
            assert forall|c: int| 0 <= c < n implies next@[r][c] == next_generation(grid@)[r][c] by {
                assert(next@[r][c] == rows@[r]@[c]);
            }
        }
    }
    next
}

/// A grid with no live cell stays without any: nothing is born from nothing.
pub proof fn lemma_dead_grid_stays_dead(cells: Seq<Seq<CellState>>)
    requires
        is_square(cells),
        all_dead(cells),
    ensures
        all_dead(next_generation(cells)),
        next_generation(cells) == cells,
{
    let next = next_generation(cells);
    assert forall|r: int, c: int| in_bounds(next, r, c) implies #[trigger] next[r][c]
        == CellState::Dead by {
        assert(live_neighbors(cells, r, c) == 0) by {
            lemma_no_live_neighbor_when_dead(cells, r, c);
        }
    }
    assert(next =~= cells) by {
        assert forall|r: int| 0 <= r < cells.len() implies #[trigger] next[r] =~= cells[r] by {
            assert forall|c: int| 0 <= c < cells.len() implies next[r][c] == cells[r][c] by {
                assert(in_bounds(next, r, c));
            }
        }
    }
}

proof fn lemma_no_live_neighbor_when_dead(cells: Seq<Seq<CellState>>, r: int, c: int)
    requires
        all_dead(cells),
    ensures
        live_neighbors(cells, r, c) == 0,
{
    assert(!alive_at(cells, r - 1, c - 1) || !in_bounds(cells, r - 1, c - 1));
    assert(cells[r - 1][c - 1] == CellState::Dead || !in_bounds(cells, r - 1, c - 1));
    assert(cells[r - 1][c] == CellState::Dead || !in_bounds(cells, r - 1, c));
    assert(cells[r - 1][c + 1] == CellState::Dead || !in_bounds(cells, r - 1, c + 1));
    assert(cells[r][c - 1] == CellState::Dead || !in_bounds(cells, r, c - 1));
    assert(cells[r][c + 1] == CellState::Dead || !in_bounds(cells, r, c + 1));
    assert(cells[r + 1][c - 1] == CellState::Dead || !in_bounds(cells, r + 1, c - 1));
    assert(cells[r + 1][c] == CellState::Dead || !in_bounds(cells, r + 1, c));
    assert(cells[r + 1][c + 1] == CellState::Dead || !in_bounds(cells, r + 1, c + 1));
}

/// A cell with no live neighbour is dead in the next generation, whatever its
/// state now.
pub proof fn lemma_isolated_cell_dies(cells: Seq<Seq<CellState>>, r: int, c: int)
    requires
        is_square(cells),
        in_bounds(cells, r, c),
        live_neighbors(cells, r, c) == 0,
    ensures
        next_generation(cells)[r][c] == CellState::Dead,
{
}

pub open spec fn in_block(r0: int, c0: int, r: int, c: int) -> bool {
    r0 <= r <= r0 + 1 && c0 <= c <= c0 + 1
}

/// The 2×2 block at `(r0, c0)` is alive, and every other cell at distance at
/// most two from it is dead.
pub open spec fn isolated_block(cells: Seq<Seq<CellState>>, r0: int, c0: int) -> bool {
    &&& in_bounds(cells, r0, c0)
    &&& in_bounds(cells, r0 + 1, c0 + 1)
    &&& forall|r: int, c: int|
        in_bounds(cells, r, c) && r0 - 2 <= r <= r0 + 3 && c0 - 2 <= c <= c0 + 3 ==> (
        #[trigger] cells[r][c] == CellState::Alive <==> in_block(r0, c0, r, c))
}

/// An isolated 2×2 block is a still life: after one generation the block and
/// the ring of cells around it are as they were.
pub proof fn lemma_block_is_still(cells: Seq<Seq<CellState>>, r0: int, c0: int)
    requires
        is_square(cells),
        isolated_block(cells, r0, c0),
    ensures
        forall|r: int, c: int|
            in_bounds(cells, r, c) && r0 - 1 <= r <= r0 + 2 && c0 - 1 <= c <= c0 + 2
                ==> #[trigger] next_generation(cells)[r][c] == cells[r][c],
{
    assert forall|x: int, y: int| r0 - 2 <= x <= r0 + 3 && c0 - 2 <= y <= c0 + 3 implies
        #[trigger] live_value(cells, x, y) == if in_block(r0, c0, x, y) { 1int } else { 0int } by {
        if in_bounds(cells, x, y) {
            assert(cells[x][y] == CellState::Alive <==> in_block(r0, c0, x, y));
        }
    }
}

/// A grid whose only live cells form a 2×2 block does not change from one
/// generation to the next.
pub proof fn lemma_lone_block_fixed(cells: Seq<Seq<CellState>>, r0: int, c0: int)
    requires
        is_square(cells),
        in_bounds(cells, r0, c0),
        in_bounds(cells, r0 + 1, c0 + 1),
        forall|r: int, c: int|
            in_bounds(cells, r, c) ==> (#[trigger] cells[r][c] == CellState::Alive <==> in_block(
                r0,
                c0,
                r,
                c,
            )),
    ensures
        next_generation(cells) == cells,
{
    lemma_block_is_still(cells, r0, c0);
    let next = next_generation(cells);
    assert forall|x: int, y: int| #![auto] live_value(cells, x, y) == if in_block(r0, c0, x, y) {
        1int
    } else {
        0int
    } by {
        if in_bounds(cells, x, y) {
            assert(cells[x][y] == CellState::Alive <==> in_block(r0, c0, x, y));
        }
    }
    assert(next =~= cells) by {
        assert forall|r: int| 0 <= r < cells.len() implies #[trigger] next[r] =~= cells[r] by {
            assert forall|c: int| 0 <= c < cells.len() implies next[r][c] == cells[r][c] by {
                assert(in_bounds(cells, r, c));
                assert(cells[r][c] == CellState::Alive <==> in_block(r0, c0, r, c));
            }
        }
    }
}

/// A grid whose only live cells form a 2×2 block is the same after any number
/// of generations.
pub proof fn lemma_lone_block_stable(cells: Seq<Seq<CellState>>, r0: int, c0: int, k: nat)
    requires
        is_square(cells),
        in_bounds(cells, r0, c0),
        in_bounds(cells, r0 + 1, c0 + 1),
        forall|r: int, c: int|
            in_bounds(cells, r, c) ==> (#[trigger] cells[r][c] == CellState::Alive <==> in_block(
                r0,
                c0,
                r,
                c,
            )),
    ensures
        generations(cells, k) == cells,
    decreases k,
{
    if k > 0 {
        lemma_lone_block_stable(cells, r0, c0, (k - 1) as nat);
        lemma_lone_block_fixed(cells, r0, c0);
    }
}

} // verus!
