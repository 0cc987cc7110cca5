use life_grid::controller::{Controller, Direction, Event, Flow, Key, Mode};
use life_grid::evolution::{evolve, next_state};
use life_grid::grid::{CellState, Grid, GridError};
use life_grid::pattern::stamp_pattern;

fn cells(g: &Grid) -> Vec<Vec<CellState>> {
    let n = g.dimension();
    let mut out = Vec::new();
    for r in 0..n {
        let mut row = Vec::new();
        for c in 0..n {
            row.push(g.get(r, c).unwrap());
        }
        out.push(row);
    }
    out
}

fn live_cells(g: &Grid) -> Vec<(usize, usize)> {
    let n = g.dimension();
    let mut out = Vec::new();
    for r in 0..n {
        for c in 0..n {
            if g.is_alive(r, c) {
                out.push((r, c));
            }
        }
    }
    out
}

fn grid_with(n: usize, live: &[(usize, usize)]) -> Grid {
    let mut g = Grid::new(n);
    for &(r, c) in live {
        assert_eq!(g.set(r, c, CellState::Alive), Ok(()));
    }
    g
}

#[test]
fn new_grid_is_all_dead() {
    let g = Grid::new(100);
    assert_eq!(g.dimension(), 100);
    assert!(live_cells(&g).is_empty());
    assert_eq!(Grid::new(0).dimension(), 0);
}

#[test]
fn out_of_bounds_access_is_an_error() {
    let mut g = Grid::new(5);
    assert_eq!(g.get(5, 0), Err(GridError::OutOfBounds));
    assert_eq!(g.get(0, 5), Err(GridError::OutOfBounds));
    assert_eq!(g.set(5, 2, CellState::Alive), Err(GridError::OutOfBounds));
    assert_eq!(g.toggle(2, usize::MAX), Err(GridError::OutOfBounds));
    assert!(live_cells(&g).is_empty());
    assert!(!g.is_alive(7, 7));
}

#[test]
fn set_and_clear() {
    let mut g = grid_with(4, &[(1, 2), (3, 3)]);
    assert_eq!(g.get(1, 2), Ok(CellState::Alive));
    assert_eq!(live_cells(&g), vec![(1, 2), (3, 3)]);
    g.clear();
    assert_eq!(g.dimension(), 4);
    assert!(live_cells(&g).is_empty());
}

#[test]
fn neighbor_count_full_ring() {
    let mut live = Vec::new();
    for r in 0..3 {
        for c in 0..3 {
            live.push((r, c));
        }
    }
    let g = grid_with(3, &live);
    assert_eq!(g.count_live_neighbors(1, 1), 8);
    assert_eq!(g.count_live_neighbors(0, 0), 3);
    assert_eq!(g.count_live_neighbors(0, 1), 5);
}

#[test]
fn neighbor_count_ignores_self_and_outside() {
    let g = grid_with(3, &[(0, 0)]);
    assert_eq!(g.count_live_neighbors(0, 0), 0);
    assert_eq!(g.count_live_neighbors(1, 1), 1);
    assert_eq!(g.count_live_neighbors(2, 2), 0);
    let h = grid_with(3, &[(2, 2)]);
    assert_eq!(h.count_live_neighbors(3, 3), 1);
    assert_eq!(h.count_live_neighbors(usize::MAX, usize::MAX), 0);
}

#[test]
fn rule_table() {
    assert_eq!(next_state(CellState::Alive, 0), CellState::Dead);
    assert_eq!(next_state(CellState::Alive, 1), CellState::Dead);
    assert_eq!(next_state(CellState::Alive, 2), CellState::Alive);
    assert_eq!(next_state(CellState::Alive, 3), CellState::Alive);
    assert_eq!(next_state(CellState::Alive, 4), CellState::Dead);
    assert_eq!(next_state(CellState::Dead, 2), CellState::Dead);
    assert_eq!(next_state(CellState::Dead, 3), CellState::Alive);
    assert_eq!(next_state(CellState::Dead, 8), CellState::Dead);
}

#[test]
fn dead_grid_stays_dead() {
    let g = Grid::new(20);
    let next = evolve(&g);
    assert_eq!(next.dimension(), 20);
    assert!(live_cells(&next).is_empty());
}

#[test]
fn isolated_cell_dies() {
    let g = grid_with(10, &[(4, 4)]);
    let next = evolve(&g);
    assert_eq!(next.get(4, 4), Ok(CellState::Dead));
    assert!(live_cells(&next).is_empty());
}

#[test]
fn block_is_still_life() {
    let g = grid_with(8, &[(3, 3), (3, 4), (4, 3), (4, 4)]);
    let once = evolve(&g);
    let twice = evolve(&once);
    assert_eq!(cells(&once), cells(&g));
    assert_eq!(cells(&twice), cells(&once));
    let mut cur = twice;
    for _ in 0..20 {
        cur = evolve(&cur);
    }
    assert_eq!(cells(&cur), cells(&g));
}

#[test]
fn block_in_corner_is_still_life() {
    let g = grid_with(4, &[(0, 0), (0, 1), (1, 0), (1, 1)]);
    assert_eq!(cells(&evolve(&g)), cells(&g));
}

#[test]
fn blinker_oscillates() {
    let g = grid_with(5, &[(2, 1), (2, 2), (2, 3)]);
    let next = evolve(&g);
    assert_eq!(live_cells(&next), vec![(1, 2), (2, 2), (3, 2)]);
    let back = evolve(&next);
    assert_eq!(cells(&back), cells(&g));
}

#[test]
fn evolve_reads_only_previous_generation() {
    // A diagonal of three: the middle survives with two neighbours, the ends die,
    // and no cell is born, which an in-place update would get wrong.
    let g = grid_with(5, &[(1, 1), (2, 2), (3, 3)]);
    let next = evolve(&g);
    assert_eq!(live_cells(&next), vec![(2, 2)]);
    assert_eq!(live_cells(&g), vec![(1, 1), (2, 2), (3, 3)]);
}

#[test]
fn stamp_at_valid_origin_sets_nine_cells() {
    let mut g = grid_with(100, &[(50, 50)]);
    assert_eq!(stamp_pattern(&mut g, 10, 10), Ok(()));
    let expected = vec![
        (10, 10),
        (10, 11),
        (10, 12),
        (10, 13),
        (11, 9),
        (11, 13),
        (12, 13),
        (13, 9),
        (13, 12),
        (50, 50),
    ];
    assert_eq!(live_cells(&g), expected);
}

#[test]
fn stamp_rejects_bad_origin() {
    let mut g = grid_with(100, &[(5, 5)]);
    let before = cells(&g);
    assert_eq!(stamp_pattern(&mut g, 0, 10), Err(GridError::OutOfBounds));
    assert_eq!(stamp_pattern(&mut g, 10, 0), Err(GridError::OutOfBounds));
    assert_eq!(stamp_pattern(&mut g, 97, 10), Err(GridError::OutOfBounds));
    assert_eq!(stamp_pattern(&mut g, 10, 97), Err(GridError::OutOfBounds));
    assert_eq!(stamp_pattern(&mut g, usize::MAX, 10), Err(GridError::OutOfBounds));
    assert_eq!(cells(&g), before);
    assert_eq!(stamp_pattern(&mut g, 95, 96), Ok(()));
    assert!(g.is_alive(98, 98));
    assert!(g.is_alive(98, 95));
}

#[test]
fn new_controller_state() {
    let c = Controller::new(100, 20);
    assert_eq!(c.mode, Mode::Running);
    assert!(!c.is_paused());
    assert_eq!((c.cursor_x, c.cursor_y), (0, 0));
    assert_eq!(c.tick_delay_ms, 20);
    assert_eq!(c.grid.dimension(), 100);
    assert!(live_cells(&c.grid).is_empty());
}

#[test]
fn pause_twice_restores_mode() {
    let mut c = Controller::new(10, 20);
    c.grid.set(3, 3, CellState::Alive).unwrap();
    let before = cells(&c.grid);
    c.toggle_pause();
    assert_eq!(c.mode, Mode::Paused);
    assert!(c.is_paused());
    c.toggle_pause();
    assert_eq!(c.mode, Mode::Running);
    assert_eq!(cells(&c.grid), before);
}

#[test]
fn cursor_clamped_at_edges() {
    let mut c = Controller::new(3, 20);
    c.move_cursor(Direction::Up);
    assert_eq!((c.cursor_x, c.cursor_y), (0, 0));
    c.move_cursor(Direction::Left);
    assert_eq!((c.cursor_x, c.cursor_y), (0, 0));
    c.move_cursor(Direction::Down);
    c.move_cursor(Direction::Right);
    assert_eq!((c.cursor_x, c.cursor_y), (1, 1));
    c.move_cursor(Direction::Down);
    c.move_cursor(Direction::Down);
    c.move_cursor(Direction::Right);
    c.move_cursor(Direction::Right);
    assert_eq!((c.cursor_x, c.cursor_y), (2, 2));
    c.move_cursor(Direction::Up);
    assert_eq!((c.cursor_x, c.cursor_y), (2, 1));
}

#[test]
fn cursor_on_empty_grid_stays_at_origin() {
    let mut c = Controller::new(0, 20);
    c.move_cursor(Direction::Down);
    c.move_cursor(Direction::Right);
    assert_eq!((c.cursor_x, c.cursor_y), (0, 0));
    c.confirm_at_cursor();
    assert_eq!(c.grid.dimension(), 0);
}

#[test]
fn confirm_twice_restores_cell() {
    let mut c = Controller::new(5, 20);
    c.move_cursor(Direction::Right);
    c.move_cursor(Direction::Down);
    c.move_cursor(Direction::Down);
    c.confirm_at_cursor();
    assert_eq!(c.grid.get(1, 2), Ok(CellState::Alive));
    assert_eq!(live_cells(&c.grid), vec![(1, 2)]);
    c.confirm_at_cursor();
    assert!(live_cells(&c.grid).is_empty());
}

#[test]
fn tick_respects_mode() {
    let mut c = Controller::new(5, 20);
    c.grid.set(2, 2, CellState::Alive).unwrap();
    c.toggle_pause();
    c.tick();
    assert_eq!(live_cells(&c.grid), vec![(2, 2)]);
    c.toggle_pause();
    c.tick();
    assert!(live_cells(&c.grid).is_empty());
}

#[test]
fn events_drive_the_controller() {
    let mut c = Controller::new(100, 20);
    assert_eq!(c.handle_event(Event::PointerReleased { x: 10, y: 10 }), Flow::Continue);
    assert_eq!(live_cells(&c.grid).len(), 9);
    assert!(c.grid.is_alive(11, 9));
    assert_eq!(c.handle_event(Event::PointerReleased { x: -1, y: 10 }), Flow::Continue);
    assert_eq!(c.handle_event(Event::PointerReleased { x: 0, y: 10 }), Flow::Continue);
    assert_eq!(live_cells(&c.grid).len(), 9);
    assert_eq!(c.handle_event(Event::KeyPressed(Key::Space)), Flow::Continue);
    assert_eq!(c.mode, Mode::Paused);
    assert_eq!(c.handle_event(Event::KeyPressed(Key::Tab)), Flow::Continue);
    assert!(live_cells(&c.grid).is_empty());
    assert_eq!(c.mode, Mode::Paused);
    c.handle_event(Event::KeyPressed(Key::Down));
    c.handle_event(Event::KeyPressed(Key::Right));
    c.handle_event(Event::KeyPressed(Key::Right));
    assert_eq!((c.cursor_x, c.cursor_y), (2, 1));
    c.handle_event(Event::KeyPressed(Key::Enter));
    assert_eq!(live_cells(&c.grid), vec![(2, 1)]);
    assert_eq!(c.handle_event(Event::KeyPressed(Key::Other)), Flow::Continue);
    assert_eq!(live_cells(&c.grid), vec![(2, 1)]);
    assert_eq!(c.handle_event(Event::KeyPressed(Key::Escape)), Flow::Quit);
    assert_eq!(c.handle_event(Event::CloseRequested), Flow::Quit);
    assert_eq!(live_cells(&c.grid), vec![(2, 1)]);
}
