//! The edit/solve session: placement mode, strategy, markers, solved path and
//! step cursor, and the commands that change them and the grid.
use vstd::prelude::*;

use crate::error::CommandError;
use crate::grid::{adjusted_cost, Grid, GridView};
use crate::position::Position;
use crate::search::{find_path, PathfindingAlgorithm};

verus! {

/// What a click on the grid does.
#[derive(Clone, Copy, Debug, PartialEq, Eq, Structural)]
pub enum PlacementMode {
    Path,
    Obstacle,
    Start,
    Goal,
    IncreaseCost,
    DecreaseCost,
}

/// The notification that an accepted command emits: collaborators redraw
/// from the grid and the session.
#[derive(Clone, Copy, Debug, PartialEq, Eq, Structural)]
pub struct MapUpdatedEvent {}

/// One user intent, applied by [`GameState::apply`].
#[derive(Clone, Copy, Debug, PartialEq, Eq, Structural)]
pub enum Command {
    /// Open, block, or move the start or goal to a cell, per the placement mode.
    Edit(Position),
    /// Raise or lower a cell's cost by one, per the placement mode.
    AdjustCost(Position),
    SetPlacementMode(PlacementMode),
    /// Select a strategy; this also resets the path.
    SelectStrategy(PathfindingAlgorithm),
    /// Select the strategy before the current one.
    CycleAlgorithmLeft,
    /// Select the strategy after the current one.
    CycleAlgorithmRight,
    Solve,
    Step,
    /// Drop the path; the grid stays.
    Reset,
    /// Drop the path, restore the default markers and clear the grid.
    Clear,
}

/// The session store.
#[derive(Debug)]
pub struct GameState {
    pub pathfinding_algorithm: PathfindingAlgorithm,
    pub placement_mode: PlacementMode,
    pub start: Position,
    pub goal: Position,
    pub path: Vec<Position>,
    pub step: usize,
    pub default_start: Position,
    pub default_goal: Position,
    pub default_cost: i32,
}

/// The abstract value of a [`GameState`].
pub struct SessionView {
    pub pathfinding_algorithm: PathfindingAlgorithm,
    pub placement_mode: PlacementMode,
    pub start: Position,
    pub goal: Position,
    pub path: Seq<Position>,
    pub step: int,
    pub default_start: Position,
    pub default_goal: Position,
    pub default_cost: i32,
}

impl View for GameState {
    type V = SessionView;

    open spec fn view(&self) -> SessionView {
        SessionView {
            pathfinding_algorithm: self.pathfinding_algorithm,
            placement_mode: self.placement_mode,
            start: self.start,
            goal: self.goal,
            path: self.path@,
            step: self.step as int,
            default_start: self.default_start,
            default_goal: self.default_goal,
            default_cost: self.default_cost,
        }
    }
}

/// The grid and the session together: what collaborators render from.
pub struct Snapshot {
    pub session: SessionView,
    pub grid: GridView,
}

pub open spec fn snapshot(state: &GameState, grid: &Grid) -> Snapshot {
    Snapshot { session: state@, grid: grid@ }
}

/// The strategy before `a`: A* to Dijkstra to BFS to A*.
pub open spec fn cycled_left(a: PathfindingAlgorithm) -> PathfindingAlgorithm {
    match a {
        PathfindingAlgorithm::AStar => PathfindingAlgorithm::Dijkstra,
        PathfindingAlgorithm::BFS => PathfindingAlgorithm::AStar,
        PathfindingAlgorithm::Dijkstra => PathfindingAlgorithm::BFS,
    }
}

/// The strategy after `a`: A* to BFS to Dijkstra to A*.
pub open spec fn cycled_right(a: PathfindingAlgorithm) -> PathfindingAlgorithm {
    match a {
        PathfindingAlgorithm::AStar => PathfindingAlgorithm::BFS,
        PathfindingAlgorithm::BFS => PathfindingAlgorithm::Dijkstra,
        PathfindingAlgorithm::Dijkstra => PathfindingAlgorithm::AStar,
    }
}

pub open spec fn accepted(s: Snapshot) -> (Result<MapUpdatedEvent, CommandError>, Snapshot) {
    (Ok(MapUpdatedEvent {}), s)
}

pub open spec fn refused(s: Snapshot, e: CommandError) -> (Result<MapUpdatedEvent, CommandError>, Snapshot) {
    (Err(e), s)
}

impl SessionView {
    /// No path, cursor at 0.
    pub open spec fn dirty(self) -> SessionView {
        SessionView { path: Seq::empty(), step: 0, ..self }
    }
}

impl Snapshot {
    /// The grid is well formed, markers and defaults lie in it, the default cost
    /// is positive, and the path is empty with the cursor at 0, or a walk from
    /// start to goal with the cursor on one of its cells.
    pub open spec fn wf(self) -> bool {
        let s = self.session;
        let g = self.grid;
        &&& g.wf()
        &&& g.in_bounds(s.start)
        &&& g.in_bounds(s.goal)
        &&& g.in_bounds(s.default_start)
        &&& g.in_bounds(s.default_goal)
        &&& s.default_cost >= 1
        &&& s.path.len() == 0 ==> s.step == 0
        &&& s.path.len() > 0 ==> 0 <= s.step < s.path.len() && g.is_route(s.start, s.goal, s.path)
    }

    /// `Edit(p)`: in path or obstacle mode open or block `p`, in start or goal
    /// mode move that marker to `p`; the path is dropped.
    pub open spec fn edit(self, p: Position) -> (Result<MapUpdatedEvent, CommandError>, Snapshot) {
        let s = self.session;
        let g = self.grid;
        match s.placement_mode {
            PlacementMode::IncreaseCost | PlacementMode::DecreaseCost => refused(self, CommandError::WrongMode),
            _ => if !g.in_bounds(p) {
                refused(self, CommandError::OutOfBounds)
            } else {
                match s.placement_mode {
                    PlacementMode::Start => if p == s.goal {
                        refused(self, CommandError::InvalidTarget)
                    } else {
                        accepted(Snapshot { session: SessionView { start: p, ..s }.dirty(), grid: g })
                    },
                    PlacementMode::Goal => if p == s.start {
                        refused(self, CommandError::InvalidTarget)
                    } else {
                        accepted(Snapshot { session: SessionView { goal: p, ..s }.dirty(), grid: g })
                    },
                    _ => if p == s.start || p == s.goal {
                        refused(self, CommandError::InvalidTarget)
                    } else {
                        accepted(
                            Snapshot {
                                session: s.dirty(),
                                grid: GridView {
                                    blocked: g.blocked.update(
                                        g.index(p),
                                        s.placement_mode == PlacementMode::Obstacle,
                                    ),
                                    ..g
                                },
                            },
                        )
                    },
                }
            },
        }
    }

    /// `AdjustCost(p)`: raise (or lower, never below 1) the set cost of `p` by
    /// one; the path is dropped.
    pub open spec fn adjust_cost(self, p: Position) -> (Result<MapUpdatedEvent, CommandError>, Snapshot) {
        let s = self.session;
        let g = self.grid;
        let delta: int = if s.placement_mode == PlacementMode::IncreaseCost {
            1
        } else {
            -1
        };
        if s.placement_mode != PlacementMode::IncreaseCost && s.placement_mode
            != PlacementMode::DecreaseCost {
            refused(self, CommandError::WrongMode)
        } else if !g.in_bounds(p) {
            refused(self, CommandError::OutOfBounds)
        } else if p == s.start || p == s.goal {
            refused(self, CommandError::InvalidTarget)
        } else if g.costs[g.index(p)] is None {
            refused(self, CommandError::UnsetCost)
        } else {
            accepted(
                Snapshot {
                    session: s.dirty(),
                    grid: GridView {
                        costs: g.costs.update(g.index(p), adjusted_cost(g.costs[g.index(p)], delta)),
                        ..g
                    },
                },
            )
        }
    }

    /// `Step`: advance the cursor, wrapping from the last cell to the first.
    pub open spec fn step(self) -> (Result<MapUpdatedEvent, CommandError>, Snapshot) {
        let s = self.session;
        if s.path.len() == 0 {
            refused(self, CommandError::EmptyPath)
        } else {
            let next = if s.step < s.path.len() - 1 {
                s.step + 1
            } else {
                0
            };
            accepted(Snapshot { session: SessionView { step: next, ..s }, grid: self.grid })
        }
    }

    /// `SelectStrategy(a)`: select `a` and drop the path.
    pub open spec fn select(self, a: PathfindingAlgorithm) -> (Result<MapUpdatedEvent, CommandError>, Snapshot) {
        accepted(
            Snapshot {
                session: SessionView { pathfinding_algorithm: a, ..self.session }.dirty(),
                grid: self.grid,
            },
        )
    }

    /// `Clear`: drop the path, restore the default markers, and make every
    /// cell open with the default cost.
    pub open spec fn clear(self) -> (Result<MapUpdatedEvent, CommandError>, Snapshot) {
        let s = self.session;
        accepted(
            Snapshot {
                session: SessionView { start: s.default_start, goal: s.default_goal, ..s }.dirty(),
                grid: self.grid.cleared(Some(s.default_cost)),
            },
        )
    }

    /// What every command but `Solve` does: the result and the next snapshot.
    pub open spec fn transition(self, cmd: Command) -> (Result<MapUpdatedEvent, CommandError>, Snapshot) {
        match cmd {
            Command::Edit(p) => self.edit(p),
            Command::AdjustCost(p) => self.adjust_cost(p),
            Command::SetPlacementMode(m) => accepted(
                Snapshot { session: SessionView { placement_mode: m, ..self.session }, grid: self.grid },
            ),
            Command::SelectStrategy(a) => self.select(a),
            Command::CycleAlgorithmLeft => self.select(cycled_left(self.session.pathfinding_algorithm)),
            Command::CycleAlgorithmRight => self.select(cycled_right(self.session.pathfinding_algorithm)),
            // what `Solve` leaves depends on the search: see `solved`
            Command::Solve => accepted(self),
            Command::Step => self.step(),
            Command::Reset => accepted(Snapshot { session: self.session.dirty(), grid: self.grid }),
            Command::Clear => self.clear(),
        }
    }

    /// `next` is what `Solve` may leave from `self`: the grid and all but the
    /// path and cursor unchanged; a path exactly when the search succeeds,
    /// running from start to goal, with the cursor on its last cell, of fewest
    /// steps under BFS and of least cost under Dijkstra and, without diagonal
    /// moves, under A*; the one-cell path when start and goal coincide.
    pub open spec fn solved(self, next: Snapshot) -> bool {
        let s = self.session;
        let g = self.grid;
        let p = next.session.path;
        &&& next.grid == g
        &&& next.session == SessionView { path: p, step: next.session.step, ..s }
        &&& p.len() > 0 <==> g.solvable(s.start, s.goal)
        &&& p.len() == 0 ==> next.session.step == 0
        &&& p.len() > 0 ==> {
            &&& g.is_route(s.start, s.goal, p)
            &&& next.session.step == p.len() - 1
            &&& s.pathfinding_algorithm == PathfindingAlgorithm::BFS ==> g.is_fewest_steps_route(
                s.start,
                s.goal,
                p,
            )
            &&& s.pathfinding_algorithm == PathfindingAlgorithm::Dijkstra ==> g.is_cheapest_route(
                s.start,
                s.goal,
                p,
                g.walk_cost(p),
            )
            &&& (s.pathfinding_algorithm == PathfindingAlgorithm::AStar && !g.allow_diagonals)
                ==> g.is_cheapest_route(s.start, s.goal, p, g.walk_cost(p))
        }
        &&& s.start == s.goal ==> p == seq![s.start]
    }
}

impl PathfindingAlgorithm {
    /// The strategy before this one.
    pub fn cycle_left(self) -> (r: PathfindingAlgorithm)
        ensures
            r == cycled_left(self),
    {
        match self {
            PathfindingAlgorithm::AStar => PathfindingAlgorithm::Dijkstra,
            PathfindingAlgorithm::BFS => PathfindingAlgorithm::AStar,
            PathfindingAlgorithm::Dijkstra => PathfindingAlgorithm::BFS,
        }
    }

    /// The strategy after this one.
    pub fn cycle_right(self) -> (r: PathfindingAlgorithm)
        ensures
            r == cycled_right(self),
    {
        match self {
            PathfindingAlgorithm::AStar => PathfindingAlgorithm::BFS,
            PathfindingAlgorithm::BFS => PathfindingAlgorithm::Dijkstra,
            PathfindingAlgorithm::Dijkstra => PathfindingAlgorithm::AStar,
        }
    }
}

/// `Edit(clicked)`; see [`Snapshot::edit`].
pub fn placement_system(state: &mut GameState, grid: &mut Grid, clicked: Position) -> (r: Result<
    MapUpdatedEvent,
    CommandError,
>)
    requires
        snapshot(old(state), old(grid)).wf(),
    ensures
        snapshot(final(state), final(grid)).wf(),
        (r, snapshot(final(state), final(grid))) == snapshot(old(state), old(grid)).edit(clicked),
{
    let mode = state.placement_mode;
    if mode == PlacementMode::IncreaseCost || mode == PlacementMode::DecreaseCost {
        return Err(CommandError::WrongMode);
    }
    if clicked.0 < 0 || clicked.0 >= grid.width || clicked.1 < 0 || clicked.1 >= grid.height {
        return Err(CommandError::OutOfBounds);
    }
    match mode {
        PlacementMode::Start => {
            if clicked == state.goal {
                return Err(CommandError::InvalidTarget);
            }
            state.start = clicked;
        },
        PlacementMode::Goal => {
            if clicked == state.start {
                return Err(CommandError::InvalidTarget);
            }
            state.goal = clicked;
        },
        _ => {
            if clicked == state.start || clicked == state.goal {
                return Err(CommandError::InvalidTarget);
            }
            let _ = grid.set_blocked(&clicked, mode == PlacementMode::Obstacle);
        },
    }
    state.path = Vec::new();
    state.step = 0;
    Ok(MapUpdatedEvent {  })
}

/// `AdjustCost(clicked)`; see [`Snapshot::adjust_cost`].
pub fn cost_system(state: &mut GameState, grid: &mut Grid, clicked: Position) -> (r: Result<
    MapUpdatedEvent,
    CommandError,
>)
    requires
        snapshot(old(state), old(grid)).wf(),
    ensures
        snapshot(final(state), final(grid)).wf(),
        (r, snapshot(final(state), final(grid))) == snapshot(old(state), old(grid)).adjust_cost(
            clicked,
        ),
{
    let mode = state.placement_mode;
    if mode != PlacementMode::IncreaseCost && mode != PlacementMode::DecreaseCost {
        return Err(CommandError::WrongMode);
    }
    if clicked.0 < 0 || clicked.0 >= grid.width || clicked.1 < 0 || clicked.1 >= grid.height {
        return Err(CommandError::OutOfBounds);
    }
    if clicked == state.start || clicked == state.goal {
        return Err(CommandError::InvalidTarget);
    }
    let idx = grid.xy_idx(clicked.0, clicked.1);
    match grid.costs[idx] {
        Some(_) => {},
        None => {
            return Err(CommandError::UnsetCost);
        },
    }
    let delta: i32 = if mode == PlacementMode::IncreaseCost {
        1
    } else {
        -1
    };
    let _ = grid.set_cost(&clicked, delta);
    state.path = Vec::new();
    state.step = 0;
    Ok(MapUpdatedEvent {  })
}

/// `Step`; see [`Snapshot::step`].
pub fn step_system(state: &mut GameState, grid: &Grid) -> (r: Result<MapUpdatedEvent, CommandError>)
    requires
        snapshot(old(state), grid).wf(),
    ensures
        snapshot(final(state), grid).wf(),
        (r, snapshot(final(state), grid)) == snapshot(old(state), grid).step(),
{
    if state.path.len() == 0 {
        return Err(CommandError::EmptyPath);
    }
    if state.step < state.path.len() - 1 {
        state.step = state.step + 1;
    } else {
        state.step = 0;
    }
    Ok(MapUpdatedEvent {  })
}

/// `Solve`: search with the selected strategy and keep the path found, the
/// cursor on its last cell, or no path; see [`Snapshot::solved`].
pub fn solve_system(state: &mut GameState, grid: &Grid) -> (r: Result<MapUpdatedEvent, CommandError>)
    requires
        snapshot(old(state), grid).wf(),
    ensures
        snapshot(final(state), grid).wf(),
        r is Ok,
        snapshot(old(state), grid).solved(snapshot(final(state), grid)),
{
    match find_path(grid, state.pathfinding_algorithm, &state.start, &state.goal) {
        Some((p, _)) => {
            let n = p.len();
            state.path = p;
            state.step = n - 1;
        },
        None => {
            state.path = Vec::new();
            state.step = 0;
        },
    }
    Ok(MapUpdatedEvent {  })
}

/// `Reset`: drop the path; the grid stays.
pub fn reset_system(state: &mut GameState, grid: &Grid) -> (r: Result<MapUpdatedEvent, CommandError>)
    requires
        snapshot(old(state), grid).wf(),
    ensures
        snapshot(final(state), grid).wf(),
        (r, snapshot(final(state), grid)) == snapshot(old(state), grid).transition(Command::Reset),
{
    state.path = Vec::new();
    state.step = 0;
    Ok(MapUpdatedEvent {  })
}

/// `Clear`; see [`Snapshot::clear`].
pub fn clear_system(state: &mut GameState, grid: &mut Grid) -> (r: Result<MapUpdatedEvent, CommandError>)
    requires
        snapshot(old(state), old(grid)).wf(),
    ensures
        snapshot(final(state), final(grid)).wf(),
        (r, snapshot(final(state), final(grid))) == snapshot(old(state), old(grid)).clear(),
{
    state.path = Vec::new();
    state.step = 0;
    state.start = state.default_start;
    state.goal = state.default_goal;
    grid.reset(Some(state.default_cost));
    Ok(MapUpdatedEvent {  })
}

/// `SelectStrategy(algorithm)`; see [`Snapshot::select`].
pub fn change_pathfinding_algorithm_system(
    state: &mut GameState,
    grid: &Grid,
    algorithm: PathfindingAlgorithm,
) -> (r: Result<MapUpdatedEvent, CommandError>)
    requires
        snapshot(old(state), grid).wf(),
    ensures
        snapshot(final(state), grid).wf(),
        (r, snapshot(final(state), grid)) == snapshot(old(state), grid).select(algorithm),
{
    state.pathfinding_algorithm = algorithm;
    state.path = Vec::new();
    state.step = 0;
    Ok(MapUpdatedEvent {  })
}

impl GameState {
    /// A session with start and goal at their defaults, no path, BFS selected
    /// and obstacle placement; `Clear` restores the markers and clears the grid
    /// to `default_cost`.
    pub fn new(default_start: Position, default_goal: Position, default_cost: i32) -> (r: GameState)
        requires
            default_cost >= 1,
        ensures
            r@ == (SessionView {
                pathfinding_algorithm: PathfindingAlgorithm::BFS,
                placement_mode: PlacementMode::Obstacle,
                start: default_start,
                goal: default_goal,
                path: Seq::empty(),
                step: 0,
                default_start,
                default_goal,
                default_cost,
            }),
    {
        GameState {
            pathfinding_algorithm: PathfindingAlgorithm::BFS,
            placement_mode: PlacementMode::Obstacle,
            start: default_start,
            goal: default_goal,
            path: Vec::new(),
            step: 0,
            default_start,
            default_goal,
            default_cost,
        }
    }

    /// Applies one command to this session and `grid`. Every command but
    /// `Solve` does exactly what [`Snapshot::transition`] says; `Solve` is
    /// always accepted and leaves what [`Snapshot::solved`] allows.
    pub fn apply(&mut self, grid: &mut Grid, cmd: Command) -> (r: Result<MapUpdatedEvent, CommandError>)
        requires
            snapshot(old(self), old(grid)).wf(),
        ensures
            snapshot(final(self), final(grid)).wf(),
            !(cmd is Solve) ==> (r, snapshot(final(self), final(grid))) == snapshot(
                old(self),
                old(grid),
            ).transition(cmd),
            cmd is Solve ==> r is Ok && final(grid)@ == old(grid)@ && snapshot(
                old(self),
                old(grid),
            ).solved(snapshot(final(self), final(grid))),
    {
        match cmd {
            Command::Edit(p) => placement_system(self, grid, p),
            Command::AdjustCost(p) => cost_system(self, grid, p),
            Command::SetPlacementMode(m) => {
                self.placement_mode = m;
                Ok(MapUpdatedEvent {  })
            },
            Command::SelectStrategy(a) => change_pathfinding_algorithm_system(self, grid, a),
            Command::CycleAlgorithmLeft => {
                let a = self.pathfinding_algorithm.cycle_left();
                change_pathfinding_algorithm_system(self, grid, a)
            },
            Command::CycleAlgorithmRight => {
                let a = self.pathfinding_algorithm.cycle_right();
                change_pathfinding_algorithm_system(self, grid, a)
            },
            Command::Solve => solve_system(self, grid),
            Command::Step => step_system(self, grid),
            Command::Reset => reset_system(self, grid),
            Command::Clear => clear_system(self, grid),
        }
    }
}

/// The session the application starts with: start (16, 32), goal (48, 32),
/// default cost 1, BFS selected, obstacle placement.
pub fn setup_game() -> (r: GameState)
    ensures
        r@ == (SessionView {
            pathfinding_algorithm: PathfindingAlgorithm::BFS,
            placement_mode: PlacementMode::Obstacle,
            start: Position(16, 32),
            goal: Position(48, 32),
            path: Seq::empty(),
            step: 0,
            default_start: Position(16, 32),
            default_goal: Position(48, 32),
            default_cost: 1,
        }),
{
    GameState::new(Position(16, 32), Position(48, 32), 1)
}

/// Clearing twice leaves the same grid and session as clearing once.
pub proof fn lemma_clear_idempotent(s: Snapshot)
    ensures
        s.clear().1.clear() == s.clear(),
{
}

} // verus!
