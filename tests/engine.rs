use rand::rngs::StdRng;
use rand::SeedableRng;
use tetris::{
    Figure, GameInputEvent, Point, TetrisCellColor, TetrisCellScreen, TetrisGame, CELL_COUNT_X,
    CELL_COUNT_Y,
};

fn rng() -> StdRng {
    StdRng::seed_from_u64(11)
}

fn cell(g: &TetrisGame, x: usize, y: usize) -> Option<TetrisCellColor> {
    g.cell_screen().cells()[y * CELL_COUNT_X + x]
}

fn anchor(g: &TetrisGame) -> Point {
    g.cell_screen().get_figure().unwrap().0
}

fn game_with(cells: &[(usize, usize)], figure: Figure) -> TetrisGame {
    let mut s = TetrisCellScreen::new();
    for &(x, y) in cells {
        s.set_cell(Point(x, y), Some(TetrisCellColor::Green));
    }
    let mut g = TetrisGame::with_screen(s, rng());
    assert!(g.spawn_figure(figure));
    g
}

#[test]
fn new_game_has_a_piece_at_the_top() {
    let g = TetrisGame::new(rng());
    assert_eq!(g.figures_generated(), 1);
    let (p, c, f) = g.cell_screen().get_figure().unwrap();
    assert_eq!(p.1, 0);
    assert_eq!(p.0 as isize, 5 + f.offset_from_top_center().0);
    assert_eq!(c, f.color());
    assert!(g.cell_screen().cells().iter().all(|c| c.is_none()));
    assert_eq!(g.window_size(), (420, 660));
}

#[test]
fn spawn_places_piece_at_top_center() {
    let g = game_with(&[], Figure::Cube);
    assert_eq!(g.cell_screen().get_figure(), Some((Point(4, 0), TetrisCellColor::Red, Figure::Cube)));
    let g = game_with(&[], Figure::LineHorizontal);
    assert_eq!(anchor(&g), Point(3, 0));
    let g = game_with(&[], Figure::LineVertical);
    assert_eq!(anchor(&g), Point(5, 0));
    assert_eq!(g.figures_generated(), 1);
}

#[test]
fn move_left_stops_at_the_wall() {
    let mut g = game_with(&[], Figure::Cube);
    for _ in 0..4 {
        g.move_figure_left();
    }
    assert_eq!(anchor(&g), Point(0, 0));
    g.move_figure_left();
    assert_eq!(anchor(&g), Point(0, 0));
}

#[test]
fn move_right_stops_at_the_wall() {
    let mut g = game_with(&[], Figure::Cube);
    for _ in 0..10 {
        assert!(g.handle_event(GameInputEvent::MoveRight));
    }
    assert_eq!(anchor(&g), Point(8, 0));
}

#[test]
fn moves_into_locked_cells_are_refused() {
    let mut g = game_with(&[(3, 1), (6, 0)], Figure::Cube);
    g.move_figure_left();
    assert_eq!(anchor(&g), Point(4, 0));
    g.move_figure_right();
    assert_eq!(anchor(&g), Point(4, 0));
}

#[test]
fn gravity_moves_down_then_locks() {
    let mut g = game_with(&[], Figure::Cube);
    for y in 1..=14 {
        assert!(!g.apply_input(GameInputEvent::Timer));
        assert_eq!(anchor(&g), Point(4, y));
    }
    assert!(g.apply_input(GameInputEvent::Timer));
    assert!(!g.cell_screen().has_figure());
    for (x, y) in [(4, 14), (5, 14), (4, 15), (5, 15)] {
        assert_eq!(cell(&g, x, y), Some(TetrisCellColor::Red));
    }
    assert_eq!(g.cell_screen().cells().iter().filter(|c| c.is_some()).count(), 4);
}

#[test]
fn piece_locks_on_top_of_the_stack() {
    let mut g = game_with(&[(5, 10)], Figure::Cube);
    assert!(g.try_move_figure_down());
    for _ in 0..7 {
        assert!(g.try_move_figure_down());
    }
    assert_eq!(anchor(&g), Point(4, 8));
    assert!(!g.try_move_figure_down());
    assert_eq!(cell(&g, 4, 8), Some(TetrisCellColor::Red));
    assert_eq!(cell(&g, 5, 9), Some(TetrisCellColor::Red));
    assert_eq!(cell(&g, 5, 10), Some(TetrisCellColor::Green));
}

#[test]
fn hard_drop_lands_and_locks() {
    let mut g = game_with(&[(5, 12)], Figure::Pyramid180);
    assert_eq!(anchor(&g), Point(4, 0));
    g.move_figure_down();
    assert!(!g.cell_screen().has_figure());
    for (x, y) in [(4, 10), (5, 10), (6, 10), (5, 11)] {
        assert_eq!(cell(&g, x, y), Some(TetrisCellColor::Purple));
    }
    assert_eq!(cell(&g, 4, 11), None);
    assert_eq!(cell(&g, 6, 11), None);
    assert_eq!(cell(&g, 5, 12), Some(TetrisCellColor::Green));
}

#[test]
fn hard_drop_event_spawns_the_next_piece() {
    let mut g = game_with(&[], Figure::LineHorizontal);
    assert!(g.handle_event(GameInputEvent::MoveDown));
    assert_eq!(g.figures_generated(), 2);
    for x in 3..7 {
        assert_eq!(cell(&g, x, 15), Some(TetrisCellColor::Orange));
    }
    let (p, c, f) = g.cell_screen().get_figure().unwrap();
    assert_eq!(p.1, 0);
    assert_eq!(c, f.color());
}

#[test]
fn rotation_applies_offset_and_clamps() {
    let mut g = game_with(&[], Figure::LineHorizontal);
    g.rotate_clockwise();
    assert_eq!(g.cell_screen().get_figure(), Some((Point(5, 0), TetrisCellColor::Orange, Figure::LineVertical)));
    g.rotate_clockwise();
    assert_eq!(g.cell_screen().get_figure(), Some((Point(3, 2), TetrisCellColor::Orange, Figure::LineHorizontal)));
    let mut g = game_with(&[], Figure::LineVertical);
    for _ in 0..5 {
        g.move_figure_right();
    }
    assert_eq!(anchor(&g), Point(9, 0));
    g.rotate_clockwise();
    assert_eq!(g.cell_screen().get_figure(), Some((Point(6, 2), TetrisCellColor::Orange, Figure::LineHorizontal)));
}

#[test]
fn rotation_into_locked_cells_is_refused() {
    let mut g = game_with(&[(5, 3)], Figure::LineHorizontal);
    g.rotate_clockwise();
    assert_eq!(g.cell_screen().get_figure(), Some((Point(3, 0), TetrisCellColor::Orange, Figure::LineHorizontal)));
}

#[test]
fn rotation_keeps_the_piece_on_the_board_at_the_floor() {
    let mut g = game_with(&[], Figure::LineHorizontal);
    for _ in 0..15 {
        assert!(g.try_move_figure_down());
    }
    assert_eq!(anchor(&g), Point(3, 15));
    g.rotate_clockwise();
    assert_eq!(g.cell_screen().get_figure(), Some((Point(5, 12), TetrisCellColor::Orange, Figure::LineVertical)));
}

#[test]
fn locking_a_piece_clears_completed_rows() {
    let mut cells = Vec::new();
    for y in 14..16 {
        for x in 0..CELL_COUNT_X {
            if x != 4 && x != 5 {
                cells.push((x, y));
            }
        }
    }
    cells.push((0, 13));
    let mut g = game_with(&cells, Figure::Cube);
    assert!(g.handle_event(GameInputEvent::MoveDown));
    assert_eq!(cell(&g, 0, 15), Some(TetrisCellColor::Green));
    assert_eq!(g.cell_screen().cells().iter().filter(|c| c.is_some()).count(), 1);
}

#[test]
fn game_over_when_the_new_piece_does_not_fit() {
    let mut cells = Vec::new();
    for y in 0..CELL_COUNT_Y {
        for x in 0..CELL_COUNT_X {
            if !(y < 2 && (x == 4 || x == 5)) {
                cells.push((x, y));
            }
        }
    }
    let mut s = TetrisCellScreen::new();
    for &(x, y) in &cells {
        s.set_cell(Point(x, y), Some(TetrisCellColor::Green));
    }
    let mut g = TetrisGame::with_screen(s, rng());
    let before: Vec<Option<TetrisCellColor>> = g.cell_screen().cells().to_vec();
    assert!(!g.spawn_figure(Figure::LineHorizontal));
    assert!(!g.cell_screen().has_figure());
    assert_eq!(g.cell_screen().cells(), &before[..]);
    assert!(!g.spawn_figure(Figure::Pyramid0));
    assert_eq!(g.cell_screen().cells(), &before[..]);
    assert!(g.spawn_figure(Figure::Cube));
    assert_eq!(g.figures_generated(), 3);
}

#[test]
fn seeded_games_spawn_the_same_pieces() {
    fn run(seed: u64) -> Vec<Figure> {
        let mut g = TetrisGame::new(StdRng::seed_from_u64(seed));
        let mut seen = vec![g.cell_screen().get_figure().unwrap().2];
        for _ in 0..30 {
            if !g.handle_event(GameInputEvent::MoveDown) {
                break;
            }
            seen.push(g.cell_screen().get_figure().unwrap().2);
        }
        seen
    }
    let a = run(2024);
    let b = run(2024);
    assert!(a.len() > 1);
    assert_eq!(a, b);
    let c = run(7);
    let d = run(7);
    assert_eq!(c, d);
}

#[test]
fn timer_without_a_piece_spawns_one() {
    let mut g = TetrisGame::with_screen(TetrisCellScreen::new(), rng());
    assert!(g.handle_event(GameInputEvent::Timer));
    assert!(g.cell_screen().has_figure());
    assert_eq!(g.figures_generated(), 1);
}

#[test]
fn stacking_to_the_top_ends_the_game() {
    let mut g = game_with(&[], Figure::Cube);
    let mut over = false;
    for _ in 0..200 {
        if !g.handle_event(GameInputEvent::MoveDown) {
            over = true;
            break;
        }
    }
    assert!(over);
    assert!(!g.cell_screen().has_figure());
    assert!(g.figures_generated() <= 200);
    assert!(cell(&g, 4, CELL_COUNT_Y - 1).is_some());
}

#[test]
fn inputs_that_do_not_lock_draw_nothing() {
    let mut a = TetrisGame::new(StdRng::seed_from_u64(99));
    let mut b = TetrisGame::new(StdRng::seed_from_u64(99));
    for _ in 0..5 {
        for e in [GameInputEvent::MoveLeft, GameInputEvent::RotateClockwise, GameInputEvent::MoveRight] {
            assert!(b.handle_event(e));
        }
        assert!(!b.apply_input(GameInputEvent::Timer) || !b.cell_screen().has_figure());
        if !b.cell_screen().has_figure() {
            b.remove_filled_lines();
            assert!(b.create_new_figure());
        }
        assert!(a.handle_event(GameInputEvent::MoveDown));
        b.move_figure_down();
        b.remove_filled_lines();
        assert!(b.create_new_figure());
        assert_eq!(a.cell_screen().get_figure().unwrap().2, b.cell_screen().get_figure().unwrap().2);
    }
}
