use forest_fire::simulation::cell_count;
use forest_fire::{per_step_nanos, CellState, Density, RunConfig, SimError, Simulation};

use CellState::{Empty as E, Fire as F, Tree as T};

fn density(num: u64, den: u64) -> Density {
    Density::from_ratio(num, den).unwrap()
}

fn grid(size: usize, cells: Vec<CellState>) -> Simulation {
    Simulation::from_cells(size, cells).unwrap()
}

fn step(size: usize, cells: Vec<CellState>) -> Vec<CellState> {
    grid(size, cells).step_parallel()
}

#[test]
fn fresh_grid_has_all_cells_and_burning_center() {
    for n in 1..=9usize {
        for d in [density(0, 1), density(1, 1), density(1, 2)] {
            let s = Simulation::new(n, d).unwrap();
            assert_eq!(s.size(), n);
            assert_eq!(s.cells().len(), n * n);
            assert_eq!(s.cells()[n * n / 2 + n / 2], F);
            let fires = s.cells().iter().filter(|c| **c == F).count();
            assert_eq!(fires, 1);
        }
    }
}

#[test]
fn even_size_center_uses_truncated_division() {
    let s = Simulation::new(4, density(0, 1)).unwrap();
    assert_eq!(s.cells()[10], F);
    let s = Simulation::new(2, density(1, 1)).unwrap();
    assert_eq!(s.cells(), &vec![T, T, T, F]);
}

#[test]
fn density_zero_leaves_everything_empty_but_center() {
    let s = Simulation::new(7, density(0, 1000)).unwrap();
    for (i, c) in s.cells().iter().enumerate() {
        if i == 49 / 2 + 7 / 2 {
            assert_eq!(*c, F);
        } else {
            assert_eq!(*c, E);
        }
    }
}

#[test]
fn density_one_plants_everything_but_center() {
    let s = Simulation::new(8, density(1000, 1000)).unwrap();
    for (i, c) in s.cells().iter().enumerate() {
        if i == 64 / 2 + 8 / 2 {
            assert_eq!(*c, F);
        } else {
            assert_eq!(*c, T);
        }
    }
}

#[test]
fn half_density_gives_both_trees_and_empty_cells() {
    let s = Simulation::new(50, density(1, 2)).unwrap();
    assert!(s.cells().iter().any(|c| *c == T));
    assert!(s.cells().iter().any(|c| *c == E));
    assert!(s.cells().iter().all(|c| *c != F || c == &s.cells()[1250 + 25]));
}

#[test]
fn draw_below_numerator_plants_a_tree() {
    let d = density(3, 10);
    assert_eq!(d.cell_for_draw(0), T);
    assert_eq!(d.cell_for_draw(2), T);
    assert_eq!(d.cell_for_draw(3), E);
    assert_eq!(d.cell_for_draw(9), E);
    assert_eq!(density(0, 10).cell_for_draw(0), E);
    assert_eq!(d.numerator(), 3);
    assert_eq!(d.denominator(), 10);
}

#[test]
fn fire_burns_out_whatever_its_neighbours() {
    let next = step(3, vec![F, F, F, F, F, F, F, F, F]);
    assert_eq!(next, vec![E; 9]);
    let next = step(3, vec![T, T, T, T, F, T, T, T, T]);
    assert_eq!(next[4], E);
}

#[test]
fn empty_stays_empty() {
    let next = step(3, vec![F, E, F, E, E, E, F, E, F]);
    assert_eq!(next, vec![E; 9]);
    assert_eq!(step(1, vec![E]), vec![E]);
}

#[test]
fn tree_ignites_exactly_from_a_burning_orthogonal_neighbour() {
    // A fire at (1, 1) of a 3x3 grid reaches (0, 1), (1, 0), (1, 2), (2, 1)
    // but not the diagonal corners.
    let next = step(3, vec![T, T, T, T, F, T, T, T, T]);
    assert_eq!(next, vec![T, F, T, F, E, F, T, F, T]);
    // Only diagonal fire: nothing ignites.
    let next = step(3, vec![F, T, F, T, T, T, F, T, F]);
    assert_eq!(next, vec![E, F, E, F, T, F, E, F, E]);
    // A lone tree with no fire stays a tree.
    assert_eq!(step(1, vec![T]), vec![T]);
}

#[test]
fn fire_does_not_wrap_around_rows() {
    // (0, 2) is burning; (1, 0) follows it in memory but is not its neighbour.
    let next = step(3, vec![T, T, F, T, T, T, T, T, T]);
    assert_eq!(next, vec![T, F, E, T, T, F, T, T, T]);
    // (1, 0) burning; (0, 2) precedes it in memory but is not its neighbour.
    let next = step(3, vec![T, T, T, F, T, T, T, T, T]);
    assert_eq!(next, vec![F, T, T, E, F, T, F, T, T]);
}

#[test]
fn corner_tree_ignites_from_right_neighbour() {
    let next = step(3, vec![T, F, E, E, E, E, E, E, E]);
    assert_eq!(next[0], F);
}

#[test]
fn corner_tree_ignites_from_lower_neighbour() {
    let next = step(3, vec![T, E, E, F, E, E, E, E, E]);
    assert_eq!(next[0], F);
}

#[test]
fn far_corner_and_edges_ignite_only_from_in_bounds_cells() {
    // Bottom-right corner (2, 2) with its two neighbours burning in turn.
    assert_eq!(step(3, vec![E, E, E, E, E, F, E, E, T])[8], F);
    assert_eq!(step(3, vec![E, E, E, E, E, E, E, F, T])[8], F);
    assert_eq!(step(3, vec![E, E, E, E, F, E, E, E, T])[8], T);
    // A 2x2 grid: every cell is a corner.
    assert_eq!(step(2, vec![T, T, T, F]), vec![T, F, F, E]);
    assert_eq!(step(2, vec![F, T, T, T]), vec![E, F, F, T]);
}

#[test]
fn scenario_size_three_density_zero() {
    let mut s = Simulation::new(3, density(0, 1)).unwrap();
    assert_eq!(s.cells(), &vec![E, E, E, E, E, F, E, E, E]);
    s.advance();
    assert_eq!(s.cells(), &vec![E; 9]);
    s.advance();
    assert_eq!(s.cells(), &vec![E; 9]);
}

#[test]
fn scenario_size_three_center_fire_in_empty_grid() {
    let mut s = grid(3, vec![E, E, E, E, F, E, E, E, E]);
    s.advance();
    assert_eq!(s.cells(), &vec![E; 9]);
    s.advance();
    assert_eq!(s.cells(), &vec![E; 9]);
}

#[test]
fn scenario_size_three_density_one() {
    let mut s = Simulation::new(3, density(1, 1)).unwrap();
    assert_eq!(s.cells(), &vec![T, T, T, T, T, F, T, T, T]);
    s.advance();
    assert_eq!(s.cells(), &vec![T, T, F, T, F, E, T, T, F]);
}

#[test]
fn scenario_size_three_center_fire_among_trees() {
    let mut s = grid(3, vec![T, T, T, T, F, T, T, T, T]);
    s.advance();
    assert_eq!(s.cells(), &vec![T, F, T, F, E, F, T, F, T]);
    s.advance();
    assert_eq!(s.cells(), &vec![F, E, F, E, E, E, F, E, F]);
    s.advance();
    assert_eq!(s.cells(), &vec![E; 9]);
}

#[test]
fn run_applies_each_step_in_turn() {
    let cells = vec![T, T, T, T, T, F, T, T, T, T, T, T, T, T, T, T];
    let mut stepped = grid(4, cells.clone());
    stepped.advance();
    stepped.advance();
    stepped.advance();
    let mut ran = grid(4, cells.clone());
    ran.run(3);
    assert_eq!(ran.cells(), stepped.cells());
    let mut idle = grid(4, cells.clone());
    idle.run(0);
    assert_eq!(idle.cells(), &cells);
}

#[test]
fn step_leaves_the_grid_unchanged() {
    let s = grid(3, vec![T, T, T, T, F, T, T, T, T]);
    let _ = s.step_parallel();
    assert_eq!(s.cells(), &vec![T, T, T, T, F, T, T, T, T]);
}

#[test]
fn next_state_of_single_cells() {
    let s = grid(3, vec![T, F, T, E, T, T, T, T, T]);
    assert_eq!(s.next_state_at(0), F);
    assert_eq!(s.next_state_at(1), E);
    assert_eq!(s.next_state_at(3), E);
    assert_eq!(s.next_state_at(4), F);
    assert_eq!(s.next_state_at(8), T);
}

#[test]
fn index_is_row_major() {
    let s = grid(4, vec![E; 16]);
    assert_eq!(s.get_index(0, 0), 0);
    assert_eq!(s.get_index(1, 0), 4);
    assert_eq!(s.get_index(2, 3), 11);
    assert_eq!(s.get_index(3, 3), 15);
}

#[test]
fn zero_size_is_rejected() {
    assert_eq!(Simulation::new(0, density(1, 2)).err(), Some(SimError::ZeroSize));
    assert_eq!(Simulation::from_cells(0, vec![]).err(), Some(SimError::ZeroSize));
    assert_eq!(cell_count(0), Err(SimError::ZeroSize));
}

#[test]
fn oversized_grid_is_rejected() {
    assert_eq!(Simulation::new(usize::MAX, density(1, 2)).err(), Some(SimError::GridTooLarge));
    assert_eq!(cell_count(usize::MAX), Err(SimError::GridTooLarge));
    assert_eq!(cell_count(7), Ok(49));
}

#[test]
fn wrong_cell_count_is_rejected() {
    assert_eq!(Simulation::from_cells(3, vec![E; 8]).err(), Some(SimError::CellCountMismatch));
    assert_eq!(Simulation::from_cells(2, vec![E; 9]).err(), Some(SimError::CellCountMismatch));
}

#[test]
fn density_out_of_range_is_rejected() {
    assert_eq!(Density::from_ratio(1, 0), Err(SimError::DensityOutOfRange));
    assert_eq!(Density::from_ratio(3, 2), Err(SimError::DensityOutOfRange));
    assert!(Density::from_ratio(2, 2).is_ok());
    assert!(Density::from_ratio(0, 2).is_ok());
}

#[test]
fn run_config_checks_in_order() {
    assert_eq!(RunConfig::new(0, 0, 5, 0), Err(SimError::ZeroSize));
    assert_eq!(RunConfig::new(usize::MAX, 10, 1, 2), Err(SimError::GridTooLarge));
    assert_eq!(RunConfig::new(10, 0, 1, 2), Err(SimError::ZeroSteps));
    assert_eq!(RunConfig::new(10, 5, 3, 2), Err(SimError::DensityOutOfRange));
    let c = RunConfig::new(1000, 100, 6, 10).unwrap();
    assert_eq!(c.size, 1000);
    assert_eq!(c.steps, 100);
    assert_eq!(c.density, density(6, 10));
}

#[test]
fn per_step_average_is_total_over_steps() {
    assert_eq!(per_step_nanos(1_000_000, 100), 10_000);
    assert_eq!(per_step_nanos(10, 3), 3);
    assert_eq!(per_step_nanos(7, 1), 7);
    assert_eq!(per_step_nanos(0, 5), 0);
    assert_eq!(per_step_nanos(u128::MAX, u64::MAX), u128::MAX / (u64::MAX as u128));
}
