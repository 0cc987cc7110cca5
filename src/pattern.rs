//! Stamping the fixed spaceship-like seed pattern onto a grid.
use vstd::prelude::*;
use crate::grid::{CellState, Grid, GridError, is_square};

verus! {

/// Whether `(r, c)` is one of the nine cells the pattern sets when anchored at
/// `(r0, c0)`. The offsets are (0,0) (0,1) (0,2) (0,3) (1,-1) (1,3) (2,3) (3,-1) (3,2).
pub open spec fn in_pattern(r0: int, c0: int, r: int, c: int) -> bool {
    ||| (r == r0 && c0 <= c <= c0 + 3)
    ||| (r == r0 + 1 && (c == c0 - 1 || c == c0 + 3))
    ||| (r == r0 + 2 && c == c0 + 3)
    ||| (r == r0 + 3 && (c == c0 - 1 || c == c0 + 2))
}

/// Whether the whole pattern anchored at `(r0, c0)` lies inside a grid of side
/// `dim`, with the origin's row at least one.
pub open spec fn origin_fits(dim: int, r0: int, c0: int) -> bool {
    1 <= r0 && r0 + 3 < dim && 1 <= c0 && c0 + 3 < dim
}

/// The cells with the pattern anchored at `(r0, c0)` set alive.
pub open spec fn stamped(cells: Seq<Seq<CellState>>, r0: int, c0: int) -> Seq<Seq<CellState>> {
    Seq::new(
        cells.len(),
        |r: int|
            Seq::new(
                cells.len(),
                |c: int|
                    if in_pattern(r0, c0, r, c) {
                        CellState::Alive
                    } else {
                        cells[r][c]
                    },
            ),
    )
}

/// Sets the nine cells of the pattern alive at `(origin_row, origin_col)`. An
/// origin where the pattern would not fit is rejected with `OutOfBounds` and the
/// grid is left as it was.
pub fn stamp_pattern(grid: &mut Grid, origin_row: usize, origin_col: usize) -> (r: Result<(), GridError>)
    requires
        old(grid).wf(),
    ensures
        final(grid).wf(),
        origin_fits(old(grid).dim() as int, origin_row as int, origin_col as int) ==> r == Ok::<
            (),
            GridError,
        >(()) && final(grid)@ == stamped(old(grid)@, origin_row as int, origin_col as int),
        !origin_fits(old(grid).dim() as int, origin_row as int, origin_col as int) ==> r == Err::<
            (),
            GridError,
        >(GridError::OutOfBounds) && *final(grid) == *old(grid),
{
    let n = grid.dimension();
    if origin_row < 1 || origin_row >= n || n - origin_row <= 3 || origin_col < 1 || origin_col >= n
        || n - origin_col <= 3 {
        return Err(GridError::OutOfBounds);
    }
    let x = origin_row;
    let y = origin_col;
    let _ = grid.set(x, y, CellState::Alive);
    let _ = grid.set(x, y + 1, CellState::Alive);
    let _ = grid.set(x, y + 2, CellState::Alive);
    let _ = grid.set(x, y + 3, CellState::Alive);
    let _ = grid.set(x + 1, y - 1, CellState::Alive);
    let _ = grid.set(x + 1, y + 3, CellState::Alive);
    let _ = grid.set(x + 2, y + 3, CellState::Alive);
    let _ = grid.set(x + 3, y - 1, CellState::Alive);
    let _ = grid.set(x + 3, y + 2, CellState::Alive);
    proof {
        let before = old(grid)@;
        let expected = stamped(before, x as int, y as int);
        assert(grid@ =~= expected) by {
            assert forall|r: int| 0 <= r < before.len() implies #[trigger] grid@[r] =~= expected[r] by {
                assert(grid@[r].len() == before.len());
                assert(before[r].len() == before.len());
            }
        }
    }
    Ok(())
}

} // verus!
