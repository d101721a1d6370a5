use grid_pathfinding::{setup_map, CommandError, Grid, Position, Successor, MAP_HEIGHT, MAP_WIDTH};

fn positions(s: &[Successor]) -> Vec<Position> {
    s.iter().map(|s| s.position).collect()
}

#[test]
fn new_grid_is_open_with_cost_one() {
    let g = Grid::new(3, 2, false);
    assert_eq!(g.costs, vec![Some(1); 6]);
    assert_eq!(g.blocked, vec![false; 6]);
    assert_eq!(g.width, 3);
    assert_eq!(g.height, 2);
}

#[test]
fn setup_map_is_sixty_four_square_without_diagonals() {
    let g = setup_map();
    assert_eq!(g.width, MAP_WIDTH);
    assert_eq!(g.height, MAP_HEIGHT);
    assert_eq!(g.costs.len(), 64 * 64);
    assert!(!g.allow_diagonals);
}

#[test]
fn xy_idx_is_row_major() {
    let g = Grid::new(5, 4, false);
    assert_eq!(g.xy_idx(0, 0), 0);
    assert_eq!(g.xy_idx(4, 0), 4);
    assert_eq!(g.xy_idx(0, 1), 5);
    assert_eq!(g.xy_idx(3, 2), 13);
}

#[test]
fn distance_is_manhattan() {
    assert_eq!(Position(1, 1).distance(&Position(4, -3)), 7);
    assert_eq!(Position(2, 2).distance(&Position(2, 2)), 0);
    assert_eq!(Position(i32::MIN, 0).distance(&Position(i32::MAX, 0)), u32::MAX as u64);
}

#[test]
fn successors_of_center_without_diagonals_in_scan_order() {
    let g = Grid::new(3, 3, false);
    let s = g.get_successors(&Position(1, 1));
    assert_eq!(
        positions(&s),
        vec![Position(1, 0), Position(0, 1), Position(2, 1), Position(1, 2)]
    );
    assert!(s.iter().all(|s| s.cost == 1));
}

#[test]
fn successors_of_center_with_diagonals_in_scan_order() {
    let g = Grid::new(3, 3, true);
    let s = g.get_successors(&Position(1, 1));
    assert_eq!(
        positions(&s),
        vec![
            Position(0, 0),
            Position(1, 0),
            Position(2, 0),
            Position(0, 1),
            Position(2, 1),
            Position(0, 2),
            Position(1, 2),
            Position(2, 2),
        ]
    );
}

#[test]
fn successors_stay_inside_the_grid() {
    let g = Grid::new(3, 3, true);
    let s = g.get_successors(&Position(0, 0));
    assert_eq!(positions(&s), vec![Position(1, 0), Position(0, 1), Position(1, 1)]);
    let g = Grid::new(1, 1, true);
    assert!(g.get_successors(&Position(0, 0)).is_empty());
}

#[test]
fn successors_skip_blocked_cells_and_report_entry_costs() {
    let mut g = Grid::new(3, 3, false);
    g.set_blocked(&Position(1, 0), true).unwrap();
    let i = g.xy_idx(2, 1);
    g.costs[i] = Some(7);
    let j = g.xy_idx(1, 2);
    g.costs[j] = None;
    let s = g.get_successors(&Position(1, 1));
    assert_eq!(
        s,
        vec![
            Successor { position: Position(0, 1), cost: 1 },
            Successor { position: Position(2, 1), cost: 7 },
            Successor { position: Position(1, 2), cost: 1 },
        ]
    );
}

#[test]
fn successor_bounds_hold_everywhere_on_a_small_grid() {
    for diag in [false, true] {
        let mut g = Grid::new(4, 3, diag);
        g.set_blocked(&Position(1, 1), true).unwrap();
        g.set_blocked(&Position(3, 2), true).unwrap();
        for y in -1..4 {
            for x in -1..5 {
                let s = g.get_successors(&Position(x, y));
                assert!(s.len() <= if diag { 8 } else { 4 });
                for n in &s {
                    let p = n.position;
                    assert!(0 <= p.0 && p.0 < 4 && 0 <= p.1 && p.1 < 3);
                    assert!(!g.blocked[g.xy_idx(p.0, p.1)]);
                }
            }
        }
    }
}

#[test]
fn successor_helpers_follow_get_successors() {
    let mut g = Grid::new(3, 3, false);
    let i = g.xy_idx(2, 1);
    g.costs[i] = Some(4);
    assert_eq!(
        g.successor_positions(&Position(1, 1)),
        vec![Position(1, 0), Position(0, 1), Position(2, 1), Position(1, 2)]
    );
    assert_eq!(
        g.weighted_successors(&Position(1, 1)),
        vec![(Position(1, 0), 1), (Position(0, 1), 1), (Position(2, 1), 4), (Position(1, 2), 1)]
    );
}

#[test]
fn set_cost_floors_at_one_and_keeps_unset() {
    let mut g = Grid::new(2, 2, false);
    let p = Position(1, 0);
    let i = g.xy_idx(1, 0);
    g.set_cost(&p, 3).unwrap();
    assert_eq!(g.costs[i], Some(4));
    g.set_cost(&p, -1).unwrap();
    assert_eq!(g.costs[i], Some(3));
    g.set_cost(&p, -10).unwrap();
    assert_eq!(g.costs[i], Some(1));
    g.set_cost(&p, i32::MAX).unwrap();
    assert_eq!(g.costs[i], Some(i32::MAX));
    g.costs[i] = None;
    g.set_cost(&p, 5).unwrap();
    assert_eq!(g.costs[i], None);
}

#[test]
fn out_of_bounds_edits_are_refused() {
    let mut g = Grid::new(2, 2, false);
    assert_eq!(g.set_blocked(&Position(2, 0), true), Err(CommandError::OutOfBounds));
    assert_eq!(g.set_blocked(&Position(0, -1), true), Err(CommandError::OutOfBounds));
    assert_eq!(g.set_cost(&Position(-1, 0), 1), Err(CommandError::OutOfBounds));
    assert_eq!(g.blocked, vec![false; 4]);
    assert_eq!(g.costs, vec![Some(1); 4]);
}

#[test]
fn reset_opens_every_cell_with_the_given_cost() {
    let mut g = Grid::new(2, 3, false);
    g.set_blocked(&Position(1, 1), true).unwrap();
    g.set_cost(&Position(0, 2), 4).unwrap();
    g.reset(Some(2));
    assert_eq!(g.blocked, vec![false; 6]);
    assert_eq!(g.costs, vec![Some(2); 6]);
    g.reset(None);
    assert_eq!(g.costs, vec![None; 6]);
    assert_eq!((g.width, g.height), (2, 3));
}
