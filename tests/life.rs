use rustlife::controller::{Application, InputEvents, RunMode, UPDATE_TIME_MICROS};
use rustlife::grid::{GameOfLife, GridError};

fn grid(w: usize, h: usize, live: &[(usize, usize)]) -> GameOfLife {
    let mut g = GameOfLife::new(w, h).unwrap();
    for &(x, y) in live {
        g.toggle_cell(x, y).unwrap();
    }
    g
}

fn live_cells(g: &GameOfLife) -> Vec<(usize, usize)> {
    let mut r = Vec::new();
    for x in 0..g.state_width {
        for y in 0..g.state_height {
            if g.cell_at(x, y).unwrap() {
                r.push((x, y));
            }
        }
    }
    r
}

fn quiet() -> InputEvents {
    InputEvents { step: false, toggle_step: false, reset: false, empty: false, click: None }
}

#[test]
fn new_grid_is_all_dead() {
    let g = GameOfLife::new(7, 4).unwrap();
    assert_eq!(g.state_width, 7);
    assert_eq!(g.state_height, 4);
    assert!(live_cells(&g).is_empty());
    assert_eq!(g.live_threshold, 3);
    assert_eq!(g.die_threshold_lower, 2);
    assert_eq!(g.die_threshold_upper, 3);
}

#[test]
fn new_rejects_zero_dimensions() {
    assert_eq!(GameOfLife::new(0, 5).err(), Some(GridError::InvalidDimensions));
    assert_eq!(GameOfLife::new(5, 0).err(), Some(GridError::InvalidDimensions));
    assert_eq!(GameOfLife::new(0, 0).err(), Some(GridError::InvalidDimensions));
}

#[test]
fn all_dead_grid_stays_dead() {
    let mut g = GameOfLife::new(10, 8).unwrap();
    g.update();
    assert!(live_cells(&g).is_empty());
    assert_eq!(g.state_width, 10);
    assert_eq!(g.state_height, 8);
}

#[test]
fn cell_without_neighbours_dies() {
    // (1, 1) is alive with no living neighbour; the block far away stays.
    let mut g = grid(8, 8, &[(1, 1), (5, 5), (5, 6), (6, 5), (6, 6)]);
    assert_eq!(g.cell_get_neighbors(1, 1), 0);
    g.update();
    assert_eq!(g.cell_at(1, 1), Ok(false));
    assert_eq!(live_cells(&g), vec![(5, 5), (5, 6), (6, 5), (6, 6)]);
}

#[test]
fn lone_cell_dies() {
    let mut g = grid(5, 5, &[(2, 2)]);
    g.update();
    assert!(live_cells(&g).is_empty());
}

#[test]
fn lone_corner_cell_dies() {
    let mut g = grid(3, 3, &[(0, 0)]);
    g.update();
    assert!(live_cells(&g).is_empty());
}

#[test]
fn blinker_has_period_two() {
    let mut g = grid(5, 5, &[(2, 1), (2, 2), (2, 3)]);
    g.update();
    assert_eq!(live_cells(&g), vec![(1, 2), (2, 2), (3, 2)]);
    g.update();
    assert_eq!(live_cells(&g), vec![(2, 1), (2, 2), (2, 3)]);
}

#[test]
fn block_is_still() {
    let mut g = grid(4, 4, &[(1, 1), (1, 2), (2, 1), (2, 2)]);
    g.update();
    assert_eq!(live_cells(&g), vec![(1, 1), (1, 2), (2, 1), (2, 2)]);
}

#[test]
fn birth_on_exactly_three() {
    let mut g = grid(5, 5, &[(0, 0), (2, 0), (0, 2)]);
    assert_eq!(g.cell_get_neighbors(1, 1), 3);
    g.update();
    assert_eq!(g.cell_at(1, 1), Ok(true));
}

#[test]
fn overcrowded_cell_dies() {
    let mut g = grid(3, 3, &[(1, 1), (0, 0), (2, 0), (0, 2), (2, 2)]);
    assert_eq!(g.cell_get_neighbors(1, 1), 4);
    g.update();
    assert_eq!(g.cell_at(1, 1), Ok(false));
}

#[test]
fn edges_do_not_wrap() {
    let mut all = Vec::new();
    for x in 0..4 {
        for y in 0..4 {
            all.push((x, y));
        }
    }
    let g = grid(4, 4, &all);
    assert_eq!(g.cell_get_neighbors(0, 0), 3);
    assert_eq!(g.cell_get_neighbors(3, 3), 3);
    assert_eq!(g.cell_get_neighbors(0, 2), 5);
    assert_eq!(g.cell_get_neighbors(2, 3), 5);
    assert_eq!(g.cell_get_neighbors(1, 1), 8);
    // Positions next to the grid count only the cells on it.
    assert_eq!(g.cell_get_neighbors(-1, 0), 2);
    assert_eq!(g.cell_get_neighbors(4, 4), 1);
    // A row at the right edge does not reach the left edge.
    let g = grid(4, 4, &[(3, 0), (3, 1), (3, 2)]);
    assert_eq!(g.cell_get_neighbors(0, 1), 0);
}

#[test]
fn randomize_fills_about_half() {
    let mut g = GameOfLife::new(200, 200).unwrap();
    g.randomize_state();
    assert_eq!(g.state_width, 200);
    assert_eq!(g.state_height, 200);
    let live = live_cells(&g).len() as f64;
    let fraction = live / 40000.0;
    assert!(fraction > 0.45 && fraction < 0.55, "fraction {}", fraction);
}

#[test]
fn toggle_twice_restores() {
    let mut g = grid(6, 6, &[(3, 4)]);
    g.toggle_cell(3, 4).unwrap();
    g.toggle_cell(3, 4).unwrap();
    assert_eq!(g.cell_at(3, 4), Ok(true));
    g.toggle_cell(0, 5).unwrap();
    assert_eq!(g.cell_at(0, 5), Ok(true));
    g.toggle_cell(0, 5).unwrap();
    assert_eq!(g.cell_at(0, 5), Ok(false));
    assert_eq!(live_cells(&g), vec![(3, 4)]);
}

#[test]
fn out_of_bounds_is_refused() {
    let mut g = grid(5, 3, &[(4, 2)]);
    assert_eq!(g.toggle_cell(5, 0), Err(GridError::OutOfBounds));
    assert_eq!(g.toggle_cell(0, 3), Err(GridError::OutOfBounds));
    assert_eq!(g.cell_at(5, 0), Err(GridError::OutOfBounds));
    assert_eq!(g.cell_at(0, 3), Err(GridError::OutOfBounds));
    assert_eq!(g.cell_at(4, 2), Ok(true));
    assert_eq!(live_cells(&g), vec![(4, 2)]);
}

#[test]
fn empty_state_clears_and_keeps_size() {
    let mut g = grid(4, 3, &[(0, 0), (3, 2)]);
    g.empty_state();
    assert!(live_cells(&g).is_empty());
    assert_eq!(g.state_width, 4);
    assert_eq!(g.state_height, 3);
}

#[test]
fn draw_lists_living_cells_row_by_row() {
    let g = grid(4, 3, &[(3, 0), (0, 2), (1, 0), (2, 1)]);
    assert_eq!(g.draw(), vec![(1, 0), (3, 0), (2, 1), (0, 2)]);
    assert!(GameOfLife::new(3, 3).unwrap().draw().is_empty());
}

#[test]
fn automatic_waits_then_advances_once() {
    let mut a = Application::new(grid(5, 5, &[(2, 1), (2, 2), (2, 3)]));
    assert_eq!(a.mode, RunMode::Automatic);
    assert_eq!(a.update_delta, UPDATE_TIME_MICROS);
    let drawn = a.tick(UPDATE_TIME_MICROS - 10, quiet());
    assert_eq!(drawn, vec![(2, 1), (2, 2), (2, 3)]);
    assert_eq!(a.update_counter, UPDATE_TIME_MICROS - 10);
    let drawn = a.tick(10, quiet());
    assert_eq!(drawn, vec![(1, 2), (2, 2), (3, 2)]);
    assert_eq!(a.update_counter, 0);
}

#[test]
fn automatic_does_not_catch_up() {
    let mut a = Application::new(grid(5, 5, &[(2, 1), (2, 2), (2, 3)]));
    let drawn = a.tick(10 * UPDATE_TIME_MICROS, quiet());
    assert_eq!(drawn, vec![(1, 2), (2, 2), (3, 2)]);
    assert_eq!(a.update_counter, 0);
    let drawn = a.tick(u64::MAX, quiet());
    assert_eq!(drawn, vec![(2, 1), (2, 2), (2, 3)]);
    assert_eq!(a.update_counter, 0);
}

#[test]
fn manual_advances_only_on_step() {
    let mut a = Application::new(grid(5, 5, &[(2, 1), (2, 2), (2, 3)]));
    a.mode = RunMode::Manual;
    let drawn = a.tick(100 * UPDATE_TIME_MICROS, quiet());
    assert_eq!(drawn, vec![(2, 1), (2, 2), (2, 3)]);
    assert_eq!(a.update_counter, 0);
    let mut step = quiet();
    step.step = true;
    let drawn = a.tick(0, step);
    assert_eq!(drawn, vec![(1, 2), (2, 2), (3, 2)]);
    assert_eq!(a.mode, RunMode::Manual);
}

#[test]
fn toggle_key_flips_mode_and_restarts_timer() {
    let mut a = Application::new(grid(5, 5, &[(2, 1), (2, 2), (2, 3)]));
    a.tick(1000, quiet());
    assert_eq!(a.update_counter, 1000);
    let mut toggle = quiet();
    toggle.toggle_step = true;
    a.tick(5000, toggle);
    assert_eq!(a.mode, RunMode::Manual);
    assert_eq!(a.update_counter, 0);
    a.tick(7, toggle);
    assert_eq!(a.mode, RunMode::Automatic);
    assert_eq!(a.update_counter, 7);
    assert_eq!(a.game.draw(), vec![(2, 1), (2, 2), (2, 3)]);
}

#[test]
fn empty_key_clears_and_pauses() {
    let mut a = Application::new(grid(5, 5, &[(2, 1), (2, 2), (2, 3)]));
    let mut clear = quiet();
    clear.empty = true;
    clear.reset = true;
    let drawn = a.tick(10 * UPDATE_TIME_MICROS, clear);
    assert!(drawn.is_empty());
    assert_eq!(a.mode, RunMode::Manual);
}

#[test]
fn reset_key_refills_and_keeps_mode() {
    let mut a = Application::new(GameOfLife::new(100, 100).unwrap());
    let mut reset = quiet();
    reset.reset = true;
    let drawn = a.tick(1, reset);
    assert_eq!(a.mode, RunMode::Automatic);
    assert_eq!(a.update_counter, 1);
    assert!(!drawn.is_empty());
    assert_eq!(a.game.state_width, 100);
    assert_eq!(a.game.state_height, 100);
}

#[test]
fn click_toggles_a_cell_on_the_grid() {
    let mut a = Application::new(GameOfLife::new(5, 5).unwrap());
    a.mode = RunMode::Manual;
    let mut click = quiet();
    click.click = Some((4, 0));
    assert_eq!(a.tick(0, click), vec![(4, 0)]);
    click.click = Some((5, 0));
    assert_eq!(a.tick(0, click), vec![(4, 0)]);
    click.click = Some((-1, 2));
    assert_eq!(a.tick(0, click), vec![(4, 0)]);
    click.click = Some((4, 0));
    assert!(a.tick(0, click).is_empty());
}

#[test]
fn click_comes_before_the_step() {
    let mut a = Application::new(grid(5, 5, &[(2, 1), (2, 2)]));
    a.mode = RunMode::Manual;
    let mut ev = quiet();
    ev.step = true;
    ev.click = Some((2, 3));
    let drawn = a.tick(0, ev);
    assert_eq!(drawn, vec![(1, 2), (2, 2), (3, 2)]);
}

#[test]
fn fill_cells_takes_values_row_by_row() {
    let mut g = GameOfLife::new(3, 2).unwrap();
    // Row 0: x = 0, 1, 2; then row 1.
    g.fill_cells(&vec![true, false, false, false, true, true]);
    assert_eq!(live_cells(&g), vec![(0, 0), (1, 1), (2, 1)]);
    assert_eq!(g.draw(), vec![(0, 0), (1, 1), (2, 1)]);
    assert_eq!(g.state_width, 3);
    assert_eq!(g.state_height, 2);
}

#[test]
fn changed_thresholds_are_used() {
    let mut g = grid(5, 5, &[(2, 2)]);
    g.die_threshold_lower = 0;
    g.update();
    assert_eq!(live_cells(&g), vec![(2, 2)]);
    let mut g = grid(5, 5, &[(2, 2)]);
    g.live_threshold = 1;
    g.update();
    assert_eq!(
        live_cells(&g),
        vec![(1, 1), (1, 2), (1, 3), (2, 1), (2, 3), (3, 1), (3, 2), (3, 3)]
    );
}
