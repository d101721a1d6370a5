//! A grid pathfinding engine: a grid of traversal costs and obstacles, three
//! interchangeable shortest-path strategies over it, and the edit/solve session
//! that governs how edits, solving, stepping and resetting interact.
pub mod error;
pub mod grid;
pub mod position;
pub mod render;
pub mod search;
pub mod session;

pub use error::CommandError;
pub use grid::{setup_map, Grid, GridView, Successor, MAP_HEIGHT, MAP_WIDTH};
pub use position::Position;
pub use render::{cell_tile, draw_path_tilemap, Tile};
pub use search::{find_path, route_cost, PathfindingAlgorithm};
pub use session::{
    change_pathfinding_algorithm_system, clear_system, cost_system, placement_system, reset_system,
    setup_game, solve_system, step_system, Command, GameState, MapUpdatedEvent, PlacementMode,
};
