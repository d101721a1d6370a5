//! Shortest-path search over a grid: breadth-first, Dijkstra and A*.
use vstd::prelude::*;

use crate::grid::{Grid, GridView};
use crate::position::{manhattan, Position};

verus! {

/// The three interchangeable search strategies.
#[derive(Clone, Copy, Debug, PartialEq, Eq, Structural)]
pub enum PathfindingAlgorithm {
    AStar,
    BFS,
    Dijkstra,
}

impl GridView {
    /// `q` is a walk: at least one cell, each next cell one move from the one before.
    pub open spec fn is_walk(self, q: Seq<Position>) -> bool {
        &&& q.len() >= 1
        &&& forall|i: int| 0 <= i < q.len() - 1 ==> #[trigger] self.adjacent(q[i], q[i + 1])
    }

    /// `q` is a walk from `start` to `goal`.
    pub open spec fn is_route(self, start: Position, goal: Position, q: Seq<Position>) -> bool {
        &&& self.is_walk(q)
        &&& q[0] == start
        &&& q.last() == goal
    }

    /// Total cost of a walk: the sum of the costs of the cells it enters.
    pub open spec fn walk_cost(self, q: Seq<Position>) -> int
        decreases q.len(),
    {
        if q.len() <= 1 {
            0
        } else {
            self.walk_cost(q.drop_last()) + self.entry_cost(q.last())
        }
    }

    /// Some walk leads from `start` to `goal`.
    pub open spec fn connects(self, start: Position, goal: Position) -> bool {
        exists|q: Seq<Position>| self.is_route(start, goal, q)
    }

    /// `start` is a blocked cell of the grid.
    pub open spec fn start_blocked(self, start: Position) -> bool {
        self.in_bounds(start) && self.is_blocked(start)
    }

    /// A search from `start` to `goal` succeeds: they coincide, or `start` is
    /// not blocked and some walk connects them.
    pub open spec fn solvable(self, start: Position, goal: Position) -> bool {
        start == goal || (!self.start_blocked(start) && self.connects(start, goal))
    }

    /// `p` is a route from `start` to `goal` with no fewer steps than any other.
    pub open spec fn is_fewest_steps_route(self, start: Position, goal: Position, p: Seq<Position>) -> bool {
        &&& self.is_route(start, goal, p)
        &&& forall|q: Seq<Position>| #[trigger] self.is_route(start, goal, q) ==> p.len() <= q.len()
    }

    /// `p` is a route from `start` to `goal` of cost `c`, and no route costs less.
    pub open spec fn is_cheapest_route(self, start: Position, goal: Position, p: Seq<Position>, c: int) -> bool {
        &&& self.is_route(start, goal, p)
        &&& c == self.walk_cost(p)
        &&& forall|q: Seq<Position>| #[trigger] self.is_route(start, goal, q) ==> c <= self.walk_cost(q)
    }
}

proof fn lemma_walk_prefix(g: GridView, q: Seq<Position>, n: int)
    requires
        g.is_walk(q),
        1 <= n <= q.len(),
    ensures
        g.is_walk(q.subrange(0, n)),
{
    let r = q.subrange(0, n);
    assert forall|i: int| 0 <= i < r.len() - 1 implies #[trigger] g.adjacent(r[i], r[i + 1]) by {
        assert(g.adjacent(q[i], q[i + 1]));
    }
}

/// A walk costs at least one per step, so never less than zero.
proof fn lemma_walk_cost_lower_bound(g: GridView, q: Seq<Position>)
    requires
        g.wf(),
        g.is_walk(q),
    ensures
        g.walk_cost(q) >= q.len() - 1,
    decreases q.len(),
{
    if q.len() > 1 {
        let n = q.len() as int;
        lemma_walk_prefix(g, q, n - 1);
        assert(q.drop_last() =~= q.subrange(0, n - 1));
        lemma_walk_cost_lower_bound(g, q.drop_last());
        let j = n - 2;
        assert(g.adjacent(q[j], q[j + 1]));
        crate::grid::lemma_index_in_range(g.width, g.height, q.last().0 as int, q.last().1 as int);
        assert(crate::grid::valid_cost(g.costs[g.index(q.last())]));
    }
}

/// The one-cell walk `[start]` is both a fewest-steps and a cheapest route to `start`.
proof fn lemma_single_cell_route(g: GridView, start: Position)
    requires
        g.wf(),
    ensures
        g.is_fewest_steps_route(start, start, seq![start]),
        g.is_cheapest_route(start, start, seq![start], 0),
{
    assert forall|q: Seq<Position>| #[trigger] g.is_route(start, start, q) implies 0 <= g.walk_cost(q) by {
        lemma_walk_cost_lower_bound(g, q);
    }
}

/// Two cheapest routes between the same cells cost the same: Dijkstra's and
/// A*'s results, each a cheapest route, agree on the cost, which no route undercuts.
pub proof fn lemma_cheapest_routes_agree(
    g: GridView,
    start: Position,
    goal: Position,
    p1: Seq<Position>,
    c1: int,
    p2: Seq<Position>,
    c2: int,
)
    requires
        g.is_cheapest_route(start, goal, p1, c1),
        g.is_cheapest_route(start, goal, p2, c2),
    ensures
        c1 == c2,
        forall|q: Seq<Position>| #[trigger] g.is_route(start, goal, q) ==> c1 <= g.walk_cost(q),
{
    assert(g.is_route(start, goal, p1));
    assert(g.is_route(start, goal, p2));
}

/// A goal whose every neighbor within the grid is blocked cannot be reached
/// from a different start in the grid: every strategy finds no path.
pub proof fn lemma_enclosed_goal_unsolvable(g: GridView, start: Position, goal: Position)
    requires
        g.wf(),
        g.in_bounds(start),
        start != goal,
        forall|b: Position|
            g.in_bounds(b) && #[trigger] g.move_allowed(b.0 - goal.0, b.1 - goal.1) ==> g.is_blocked(b),
    ensures
        !g.solvable(start, goal),
{
    if !g.start_blocked(start) {
        assert forall|q: Seq<Position>| !g.is_route(start, goal, q) by {
            if g.is_route(start, goal, q) {
                let n = q.len() as int;
                assert(n >= 2);
                let b = q[n - 2];
                let j = n - 2;
                assert(g.adjacent(q[j], q[j + 1]));
                assert(g.move_allowed(b.0 - goal.0, b.1 - goal.1));
                if n == 2 {
                    assert(g.is_blocked(start));
                } else {
                    let k = n - 3;
                    assert(g.adjacent(q[k], q[k + 1]));
                    assert(g.is_blocked(b));
                }
            }
        }
    }
}

/// Relies on `pathfinding::directed::bfs::bfs`: given the moves of
/// `Grid::successor_positions`, it returns a path with the fewest steps from
/// `start` to `goal`, both included, or `None` when no path exists.
#[verifier::external_body]
fn bfs_route(grid: &Grid, start: &Position, goal: &Position) -> (r: Option<Vec<Position>>)
    requires
        grid@.wf(),
    ensures
        r is Some <==> grid@.connects(*start, *goal),
        r matches Some(p) ==> grid@.is_fewest_steps_route(*start, *goal, p@),
{
    pathfinding::prelude::bfs(start, |p| grid.successor_positions(p), |p| reached(p, goal))
}

/// Relies on `pathfinding::directed::dijkstra::dijkstra`: given the moves and
/// entry costs of `Grid::weighted_successors` (all at least 1), it returns a
/// cheapest path from `start` to `goal`, both included, or `None` when no path
/// exists. Sums stay far below `u128::MAX`, so its additions do not overflow.
#[verifier::external_body]
fn dijkstra_route(grid: &Grid, start: &Position, goal: &Position) -> (r: Option<Vec<Position>>)
    requires
        grid@.wf(),
    ensures
        r is Some <==> grid@.connects(*start, *goal),
        r matches Some(p) ==> grid@.is_cheapest_route(*start, *goal, p@, grid@.walk_cost(p@)),
{
    pathfinding::prelude::dijkstra(start, |p| grid.weighted_successors(p), |p| reached(p, goal)).map(
        |(path, _)| path,
    )
}

/// Relies on `pathfinding::directed::astar::astar`, with the Manhattan distance
/// to `goal` as heuristic: it returns a path from `start` to `goal`, both
/// included, or `None` when no path exists. Without diagonal moves every step
/// changes the Manhattan distance by 1 and costs at least 1, so the heuristic
/// never overestimates and the path is a cheapest one.
#[verifier::external_body]
fn astar_route(grid: &Grid, start: &Position, goal: &Position) -> (r: Option<Vec<Position>>)
    requires
        grid@.wf(),
    ensures
        r is Some <==> grid@.connects(*start, *goal),
        r matches Some(p) ==> grid@.is_route(*start, *goal, p@),
        r matches Some(p) ==> !grid@.allow_diagonals ==> grid@.is_cheapest_route(
            *start,
            *goal,
            p@,
            grid@.walk_cost(p@),
        ),
{
    pathfinding::prelude::astar(
        start,
        |p| grid.weighted_successors(p),
        |p| estimate(p, goal),
        |p| reached(p, goal),
    ).map(|(path, _)| path)
}

/// Total cost of the walk `path`: the sum of the costs of the cells it enters.
pub fn route_cost(grid: &Grid, path: &Vec<Position>) -> (r: u128)
    requires
        grid@.wf(),
        grid@.is_walk(path@),
    ensures
        r as int == grid@.walk_cost(path@),
{
    let mut total: u128 = 0;
    let mut i: usize = 1;
    assert(path@.subrange(0, 1).len() == 1);
    while i < path.len()
        invariant
            1 <= i <= path@.len(),
            grid@.wf(),
            grid@.is_walk(path@),
            total as int == grid@.walk_cost(path@.subrange(0, i as int)),
            total <= (i - 1) * (i32::MAX as int),
        decreases path.len() - i,
    {
        let p = path[i];
        let ghost j = i - 1;
        assert(grid@.adjacent(path@[j], path@[j + 1]));
        let idx = grid.xy_idx(p.0, p.1);
        let c: i32 = match grid.costs[idx] {
            Some(c) => c,
            None => 1,
        };
        assert(crate::grid::valid_cost(grid.costs@[idx as int]));
        proof {
            assert(usize::MAX <= u64::MAX);
            assert(i * (i32::MAX as int) <= u64::MAX * (i32::MAX as int)) by (nonlinear_arith)
                requires
                    i <= usize::MAX,
                    usize::MAX <= u64::MAX,
            ;
            assert((i - 1) * (i32::MAX as int) + i32::MAX == i * (i32::MAX as int)) by (nonlinear_arith);
        }
        total = total + c as u128;
        i = i + 1;
        assert(path@.subrange(0, i as int).drop_last() =~= path@.subrange(0, i - 1));
    }
    assert(path@.subrange(0, path@.len() as int) =~= path@);
    total
}

/// Searches a path from `start` to `goal` with `algorithm`. A start equal to
/// the goal gives the one-cell path of cost 0; a blocked start gives no path;
/// otherwise there is a path exactly when some walk connects the two. The
/// path's cost is the sum of the costs of the cells it enters. Breadth-first
/// search finds one of fewest steps, Dijkstra one of least cost, and so does
/// A* on a grid without diagonal moves.
pub fn find_path(
    grid: &Grid,
    algorithm: PathfindingAlgorithm,
    start: &Position,
    goal: &Position,
) -> (r: Option<(Vec<Position>, u128)>)
    requires
        grid@.wf(),
    ensures
        r is Some <==> grid@.solvable(*start, *goal),
        r matches Some((p, c)) ==> grid@.is_route(*start, *goal, p@) && c as int == grid@.walk_cost(p@),
        *start == *goal ==> (r matches Some((p, c)) && p@ == seq![*start] && c == 0),
        r matches Some((p, c)) ==> algorithm == PathfindingAlgorithm::BFS
            ==> grid@.is_fewest_steps_route(*start, *goal, p@),
        r matches Some((p, c)) ==> algorithm == PathfindingAlgorithm::Dijkstra
            ==> grid@.is_cheapest_route(*start, *goal, p@, c as int),
        r matches Some((p, c)) ==> (algorithm == PathfindingAlgorithm::AStar
            && !grid@.allow_diagonals) ==> grid@.is_cheapest_route(*start, *goal, p@, c as int),
{
    if *start == *goal {
        proof {
            lemma_single_cell_route(grid@, *start);
        }
        let path = vec![*start];
        assert(path@ =~= seq![*start]);
        return Some((path, 0));
    }
    if 0 <= start.0 && start.0 < grid.width && 0 <= start.1 && start.1 < grid.height {
        let idx = grid.xy_idx(start.0, start.1);
        if grid.blocked[idx] {
            return None;
        }
    }
    let found = match algorithm {
        PathfindingAlgorithm::BFS => bfs_route(grid, start, goal),
        PathfindingAlgorithm::Dijkstra => dijkstra_route(grid, start, goal),
        PathfindingAlgorithm::AStar => astar_route(grid, start, goal),
    };
    match found {
        Some(path) => {
            let cost = route_cost(grid, &path);
            Some((path, cost))
        },
        None => None,
    }
}

/// The search has arrived at `goal`.
fn reached(p: &Position, goal: &Position) -> (r: bool)
    ensures
        r == (*p == *goal),
{
    *p == *goal
}

/// Manhattan distance to `goal`, the A* estimate of the remaining cost.
fn estimate(p: &Position, goal: &Position) -> (r: u128)
    ensures
        r as int == manhattan(*p, *goal),
{
    p.distance(goal) as u128
}

} // verus!
