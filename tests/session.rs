use grid_pathfinding::{
    cell_tile, clear_system, draw_path_tilemap, find_path, placement_system, setup_game, setup_map,
    solve_system, step_system, Command, CommandError, GameState, Grid, MapUpdatedEvent,
    PathfindingAlgorithm, PlacementMode, Position, Tile,
};

fn line_session() -> (GameState, Grid) {
    (GameState::new(Position(0, 0), Position(3, 0), 1), Grid::new(4, 1, false))
}

fn ok() -> Result<MapUpdatedEvent, CommandError> {
    Ok(MapUpdatedEvent {})
}

#[test]
fn step_wraps_from_last_index_to_zero() {
    let (mut s, mut g) = line_session();
    assert_eq!(s.apply(&mut g, Command::Solve), ok());
    assert_eq!(s.path.len(), 4);
    assert_eq!(s.step, 3);
    assert_eq!(s.apply(&mut g, Command::Step), ok());
    assert_eq!(s.step, 0);
    assert_eq!(s.apply(&mut g, Command::Step), ok());
    assert_eq!(s.step, 1);
}

#[test]
fn step_without_path_is_refused() {
    let (mut s, g) = line_session();
    assert_eq!(step_system(&mut s, &g), Err(CommandError::EmptyPath));
    assert_eq!(s.step, 0);
}

#[test]
fn solve_keeps_the_path_of_the_selected_strategy() {
    let (mut s, mut g) = line_session();
    for a in [PathfindingAlgorithm::BFS, PathfindingAlgorithm::Dijkstra, PathfindingAlgorithm::AStar] {
        assert_eq!(s.apply(&mut g, Command::SelectStrategy(a)), ok());
        assert_eq!(s.pathfinding_algorithm, a);
        assert!(s.path.is_empty());
        assert_eq!(solve_system(&mut s, &g), ok());
        assert_eq!(s.path, find_path(&g, a, &Position(0, 0), &Position(3, 0)).unwrap().0);
    }
}

#[test]
fn failed_solve_leaves_no_path() {
    let (mut s, mut g) = line_session();
    assert_eq!(s.apply(&mut g, Command::Edit(Position(2, 0))), ok());
    assert_eq!(s.apply(&mut g, Command::Solve), ok());
    assert!(s.path.is_empty());
    assert_eq!(s.step, 0);
}

#[test]
fn solve_with_start_on_goal_gives_one_cell_path() {
    let mut g = Grid::new(3, 3, false);
    let mut s = GameState::new(Position(1, 1), Position(1, 1), 1);
    for a in [PathfindingAlgorithm::BFS, PathfindingAlgorithm::Dijkstra, PathfindingAlgorithm::AStar] {
        s.apply(&mut g, Command::SelectStrategy(a)).unwrap();
        s.apply(&mut g, Command::Solve).unwrap();
        assert_eq!(s.path, vec![Position(1, 1)]);
        assert_eq!(s.step, 0);
    }
}

#[test]
fn edits_invalidate_the_path() {
    let mut g = Grid::new(4, 2, false);
    let mut s = GameState::new(Position(0, 0), Position(3, 0), 1);
    s.apply(&mut g, Command::Solve).unwrap();
    assert!(!s.path.is_empty());
    assert_eq!(placement_system(&mut s, &mut g, Position(1, 1)), ok());
    assert!(g.blocked[g.xy_idx(1, 1)]);
    assert!(s.path.is_empty());
    assert_eq!(s.step, 0);
}

#[test]
fn edit_modes_open_block_and_move_markers() {
    let mut g = Grid::new(4, 2, false);
    let mut s = GameState::new(Position(0, 0), Position(3, 0), 1);
    s.apply(&mut g, Command::Edit(Position(2, 1))).unwrap();
    assert!(g.blocked[g.xy_idx(2, 1)]);
    s.apply(&mut g, Command::SetPlacementMode(PlacementMode::Path)).unwrap();
    s.apply(&mut g, Command::Edit(Position(2, 1))).unwrap();
    assert!(!g.blocked[g.xy_idx(2, 1)]);
    s.apply(&mut g, Command::SetPlacementMode(PlacementMode::Start)).unwrap();
    s.apply(&mut g, Command::Edit(Position(1, 1))).unwrap();
    assert_eq!(s.start, Position(1, 1));
    s.apply(&mut g, Command::SetPlacementMode(PlacementMode::Goal)).unwrap();
    s.apply(&mut g, Command::Edit(Position(2, 0))).unwrap();
    assert_eq!(s.goal, Position(2, 0));
}

#[test]
fn edits_on_markers_or_outside_are_refused() {
    let mut g = Grid::new(4, 2, false);
    let mut s = GameState::new(Position(0, 0), Position(3, 0), 1);
    assert_eq!(s.apply(&mut g, Command::Edit(Position(0, 0))), Err(CommandError::InvalidTarget));
    assert_eq!(s.apply(&mut g, Command::Edit(Position(3, 0))), Err(CommandError::InvalidTarget));
    assert_eq!(s.apply(&mut g, Command::Edit(Position(4, 0))), Err(CommandError::OutOfBounds));
    assert_eq!(s.apply(&mut g, Command::Edit(Position(0, -1))), Err(CommandError::OutOfBounds));
    s.apply(&mut g, Command::SetPlacementMode(PlacementMode::Start)).unwrap();
    assert_eq!(s.apply(&mut g, Command::Edit(Position(3, 0))), Err(CommandError::InvalidTarget));
    assert_eq!(s.apply(&mut g, Command::Edit(Position(0, 0))), ok());
    s.apply(&mut g, Command::SetPlacementMode(PlacementMode::IncreaseCost)).unwrap();
    assert_eq!(s.apply(&mut g, Command::Edit(Position(1, 1))), Err(CommandError::WrongMode));
    assert_eq!(g.blocked, vec![false; 8]);
}

#[test]
fn cost_adjustments_follow_the_mode() {
    let mut g = Grid::new(4, 2, false);
    let mut s = GameState::new(Position(0, 0), Position(3, 0), 1);
    let i = g.xy_idx(1, 1);
    assert_eq!(s.apply(&mut g, Command::AdjustCost(Position(1, 1))), Err(CommandError::WrongMode));
    s.apply(&mut g, Command::SetPlacementMode(PlacementMode::IncreaseCost)).unwrap();
    s.apply(&mut g, Command::AdjustCost(Position(1, 1))).unwrap();
    s.apply(&mut g, Command::AdjustCost(Position(1, 1))).unwrap();
    assert_eq!(g.costs[i], Some(3));
    s.apply(&mut g, Command::SetPlacementMode(PlacementMode::DecreaseCost)).unwrap();
    for _ in 0..4 {
        s.apply(&mut g, Command::AdjustCost(Position(1, 1))).unwrap();
    }
    assert_eq!(g.costs[i], Some(1));
    assert_eq!(s.apply(&mut g, Command::AdjustCost(Position(3, 0))), Err(CommandError::InvalidTarget));
    assert_eq!(s.apply(&mut g, Command::AdjustCost(Position(9, 9))), Err(CommandError::OutOfBounds));
    g.costs[i] = None;
    assert_eq!(s.apply(&mut g, Command::AdjustCost(Position(1, 1))), Err(CommandError::UnsetCost));
}

#[test]
fn reset_drops_the_path_and_keeps_the_grid() {
    let (mut s, mut g) = line_session();
    s.apply(&mut g, Command::Solve).unwrap();
    s.apply(&mut g, Command::Step).unwrap();
    assert_eq!(s.apply(&mut g, Command::Reset), ok());
    assert!(s.path.is_empty());
    assert_eq!(s.step, 0);
    assert_eq!(g.costs, vec![Some(1); 4]);
}

#[test]
fn clear_twice_equals_clear_once() {
    let mut g = Grid::new(5, 5, false);
    let mut s = GameState::new(Position(0, 0), Position(4, 4), 2);
    s.apply(&mut g, Command::Edit(Position(2, 2))).unwrap();
    s.apply(&mut g, Command::SetPlacementMode(PlacementMode::Goal)).unwrap();
    s.apply(&mut g, Command::Edit(Position(1, 4))).unwrap();
    s.apply(&mut g, Command::Solve).unwrap();
    assert_eq!(clear_system(&mut s, &mut g), ok());
    let once = (s.start, s.goal, s.path.clone(), s.step, g.costs.clone(), g.blocked.clone());
    assert_eq!(s.apply(&mut g, Command::Clear), ok());
    let twice = (s.start, s.goal, s.path.clone(), s.step, g.costs.clone(), g.blocked.clone());
    assert_eq!(once, twice);
    assert_eq!(once.0, Position(0, 0));
    assert_eq!(once.1, Position(4, 4));
    assert_eq!(once.4, vec![Some(2); 25]);
    assert_eq!(once.5, vec![false; 25]);
    assert_eq!(s.placement_mode, PlacementMode::Goal);
}

#[test]
fn cycling_walks_through_the_strategies() {
    let (mut s, mut g) = line_session();
    s.apply(&mut g, Command::Solve).unwrap();
    assert_eq!(s.apply(&mut g, Command::CycleAlgorithmRight), ok());
    assert_eq!(s.pathfinding_algorithm, PathfindingAlgorithm::Dijkstra);
    assert!(s.path.is_empty());
    s.apply(&mut g, Command::CycleAlgorithmRight).unwrap();
    assert_eq!(s.pathfinding_algorithm, PathfindingAlgorithm::AStar);
    s.apply(&mut g, Command::CycleAlgorithmRight).unwrap();
    assert_eq!(s.pathfinding_algorithm, PathfindingAlgorithm::BFS);
    s.apply(&mut g, Command::CycleAlgorithmLeft).unwrap();
    assert_eq!(s.pathfinding_algorithm, PathfindingAlgorithm::AStar);
    assert_eq!(PathfindingAlgorithm::Dijkstra.cycle_left(), PathfindingAlgorithm::BFS);
    assert_eq!(PathfindingAlgorithm::AStar.cycle_left(), PathfindingAlgorithm::Dijkstra);
}

#[test]
fn setup_game_defaults() {
    let s = setup_game();
    assert_eq!(s.start, Position(16, 32));
    assert_eq!(s.goal, Position(48, 32));
    assert_eq!(s.pathfinding_algorithm, PathfindingAlgorithm::BFS);
    assert_eq!(s.placement_mode, PlacementMode::Obstacle);
    assert!(s.path.is_empty());
    let mut s = s;
    let mut g = setup_map();
    s.apply(&mut g, Command::Solve).unwrap();
    assert_eq!(s.path.len(), 33);
}

#[test]
fn tiles_follow_precedence() {
    let mut g = Grid::new(4, 2, false);
    let mut s = GameState::new(Position(0, 0), Position(3, 0), 1);
    s.apply(&mut g, Command::Edit(Position(1, 1))).unwrap();
    s.apply(&mut g, Command::Solve).unwrap();
    assert_eq!(cell_tile(&s, &g, Position(0, 0)), Tile::Start);
    assert_eq!(cell_tile(&s, &g, Position(3, 0)), Tile::Goal);
    assert_eq!(cell_tile(&s, &g, Position(1, 0)), Tile::Path);
    assert_eq!(cell_tile(&s, &g, Position(1, 1)), Tile::Blocked);
    assert_eq!(cell_tile(&s, &g, Position(0, 1)), Tile::Open);
    let tiles = draw_path_tilemap(&s, &g);
    assert_eq!(
        tiles,
        vec![
            Tile::Start,
            Tile::Path,
            Tile::Path,
            Tile::Goal,
            Tile::Open,
            Tile::Blocked,
            Tile::Open,
            Tile::Open,
        ]
    );
}

#[test]
fn cost_overlays_hidden_only_for_bfs() {
    assert!(!PathfindingAlgorithm::BFS.shows_costs());
    assert!(PathfindingAlgorithm::Dijkstra.shows_costs());
    assert!(PathfindingAlgorithm::AStar.shows_costs());
}
