//! What a renderer shows for each cell, derived from the grid and the session.
use vstd::prelude::*;

use crate::grid::{Grid, GridView};
use crate::position::Position;
use crate::search::PathfindingAlgorithm;
use crate::session::{GameState, SessionView};

verus! {

/// The visual state of one cell.
#[derive(Clone, Copy, Debug, PartialEq, Eq, Structural)]
pub enum Tile {
    Open,
    Blocked,
    Path,
    Start,
    Goal,
}

/// The tile of `p`, by precedence: goal, start, path cell, blocked, open.
pub open spec fn tile_of(s: SessionView, g: GridView, p: Position) -> Tile {
    if p == s.goal {
        Tile::Goal
    } else if p == s.start {
        Tile::Start
    } else if s.path.contains(p) {
        Tile::Path
    } else if g.is_blocked(p) {
        Tile::Blocked
    } else {
        Tile::Open
    }
}

/// The cell at row-major index `i` of a grid `width` cells wide.
pub open spec fn cell_at(width: int, i: int) -> Position {
    Position((i % width) as i32, (i / width) as i32)
}

impl PathfindingAlgorithm {
    /// Cost overlays are shown for every strategy but BFS, which ignores costs.
    pub fn shows_costs(self) -> (r: bool)
        ensures
            r == (self != PathfindingAlgorithm::BFS),
    {
        match self {
            PathfindingAlgorithm::BFS => false,
            _ => true,
        }
    }
}

fn path_contains(path: &Vec<Position>, p: Position) -> (r: bool)
    ensures
        r == path@.contains(p),
{
    let mut i: usize = 0;
    while i < path.len()
        invariant
            i <= path@.len(),
            forall|j: int| 0 <= j < i ==> path@[j] != p,
        decreases path.len() - i,
    {
        if path[i] == p {
            return true;
        }
        i = i + 1;
    }
    false
}

/// The tile of the cell `p` of the grid.
pub fn cell_tile(state: &GameState, grid: &Grid, p: Position) -> (r: Tile)
    requires
        grid@.wf(),
        grid@.in_bounds(p),
    ensures
        r == tile_of(state@, grid@, p),
{
    if p == state.goal {
        Tile::Goal
    } else if p == state.start {
        Tile::Start
    } else if path_contains(&state.path, p) {
        Tile::Path
    } else if grid.blocked[grid.xy_idx(p.0, p.1)] {
        Tile::Blocked
    } else {
        Tile::Open
    }
}

/// The tiles of all cells, row-major.
pub fn draw_path_tilemap(state: &GameState, grid: &Grid) -> (r: Vec<Tile>)
    requires
        grid@.wf(),
    ensures
        r@.len() == grid@.cell_count(),
        forall|i: int|
            0 <= i < r@.len() ==> #[trigger] r@[i] == tile_of(
                state@,
                grid@,
                cell_at(grid@.width, i),
            ),
{
    let mut out: Vec<Tile> = Vec::new();
    let mut y: i32 = 0;
    while y < grid.height
        invariant
            grid@.wf(),
            0 <= y <= grid@.height,
            out@.len() == y * grid@.width,
            forall|i: int|
                0 <= i < out@.len() ==> #[trigger] out@[i] == tile_of(
                    state@,
                    grid@,
                    cell_at(grid@.width, i),
                ),
        decreases grid@.height - y,
    {
        let mut x: i32 = 0;
        while x < grid.width
            invariant
                grid@.wf(),
                0 <= y < grid@.height,
                0 <= x <= grid@.width,
                out@.len() == y * grid@.width + x,
                forall|i: int|
                    0 <= i < out@.len() ==> #[trigger] out@[i] == tile_of(
                        state@,
                        grid@,
                        cell_at(grid@.width, i),
                    ),
            decreases grid@.width - x,
        {
            let t = cell_tile(state, grid, Position(x, y));
            proof {
                let w = grid@.width;
                let i = y * w + x;
                assert(i % w == x as int && i / w == y as int) by (nonlinear_arith)
                    requires
                        i == y * w + x,
                        0 <= x < w,
                        0 <= y,
                ;
            }
            out.push(t);
            x = x + 1;
        }
        proof {
            assert((y + 1) * grid@.width == y * grid@.width + grid@.width) by (nonlinear_arith);
        }
        y = y + 1;
    }
    assert(grid@.height * grid@.width == grid@.cell_count()) by (nonlinear_arith);
    out
}

} // verus!
