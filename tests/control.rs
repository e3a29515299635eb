use rand::rngs::StdRng;
use rand::SeedableRng;
use tetris::{
    Figure, FrameOutcome, GameInputEvent, KeyState, LoopController, Point, TetrisCellScreen,
    TetrisGame, INITIAL_DROP_PERIOD_MS, LOOP_PERIOD_MS, MOVE_PERIOD_MS, SPEED_UP_AFTER_FIGURE_COUNT,
};

fn keys() -> KeyState {
    KeyState { quit: false, pause: false, left: false, right: false, rotate: false, drop: false }
}

fn cube_game() -> TetrisGame {
    let mut g = TetrisGame::with_screen(TetrisCellScreen::new(), StdRng::seed_from_u64(5));
    assert!(g.spawn_figure(Figure::Cube));
    g
}

#[test]
fn defaults() {
    assert_eq!(LOOP_PERIOD_MS, 10);
    assert_eq!(MOVE_PERIOD_MS, 120);
    assert_eq!(INITIAL_DROP_PERIOD_MS, 500);
    assert_eq!(SPEED_UP_AFTER_FIGURE_COUNT, 100);
    let c = LoopController::new(MOVE_PERIOD_MS, INITIAL_DROP_PERIOD_MS);
    assert!(!c.is_paused);
    assert_eq!(c.last_move_time_ms, None);
    assert_eq!(c.auto_move_down_period, 500);
}

#[test]
fn held_left_fires_once_in_five_close_frames() {
    let mut c = LoopController::new(100, INITIAL_DROP_PERIOD_MS);
    let mut fired = Vec::new();
    for frame in 0..5u64 {
        let t = 1_000 + frame * 20;
        if let Some(e) = c.lateral_move(true, false, t) {
            fired.push((frame, e));
        }
    }
    assert_eq!(fired, vec![(0, GameInputEvent::MoveLeft)]);
}

#[test]
fn held_key_repeats_after_the_interval() {
    let mut c = LoopController::new(100, INITIAL_DROP_PERIOD_MS);
    assert_eq!(c.lateral_move(false, true, 0), Some(GameInputEvent::MoveRight));
    assert_eq!(c.lateral_move(false, true, 99), None);
    assert_eq!(c.lateral_move(false, true, 100), Some(GameInputEvent::MoveRight));
    assert_eq!(c.last_move_time_ms, Some(100));
    assert_eq!(c.lateral_move(true, true, 150), None);
    assert_eq!(c.lateral_move(true, true, 200), Some(GameInputEvent::MoveLeft));
}

#[test]
fn releasing_resets_the_throttle() {
    let mut c = LoopController::new(100, INITIAL_DROP_PERIOD_MS);
    assert_eq!(c.lateral_move(true, false, 0), Some(GameInputEvent::MoveLeft));
    assert_eq!(c.lateral_move(false, false, 10), None);
    assert_eq!(c.last_move_time_ms, None);
    assert_eq!(c.lateral_move(true, false, 20), Some(GameInputEvent::MoveLeft));
}

#[test]
fn pause_toggles_on_key_down_only() {
    let mut c = LoopController::new(MOVE_PERIOD_MS, INITIAL_DROP_PERIOD_MS);
    assert!(c.update_pause(true));
    assert!(c.update_pause(true));
    assert!(c.update_pause(false));
    assert!(!c.update_pause(true));
    assert!(!c.update_pause(false));
}

#[test]
fn rotate_and_drop_fire_on_key_down_only() {
    let mut c = LoopController::new(MOVE_PERIOD_MS, INITIAL_DROP_PERIOD_MS);
    assert!(c.rotate_edge(true));
    assert!(!c.rotate_edge(true));
    assert!(!c.rotate_edge(false));
    assert!(c.rotate_edge(true));
    assert!(c.drop_edge(true));
    assert!(!c.drop_edge(true));
    assert!(!c.drop_edge(false));
    assert!(c.drop_edge(true));
}

#[test]
fn gravity_speeds_up_at_milestones() {
    let mut c = LoopController::new(MOVE_PERIOD_MS, 500);
    c.update_speed(99);
    assert_eq!(c.auto_move_down_period, 500);
    c.update_speed(100);
    assert_eq!(c.auto_move_down_period, 375);
    assert_eq!(c.last_speed_up_was_at_figure, 100);
    c.update_speed(150);
    assert_eq!(c.auto_move_down_period, 375);
    c.update_speed(200);
    assert_eq!(c.auto_move_down_period, 281);
    let mut big = LoopController::new(MOVE_PERIOD_MS, u64::MAX);
    big.update_speed(100);
    assert_eq!(big.auto_move_down_period, ((u64::MAX as u128) * 3 / 4) as u64);
}

#[test]
fn gravity_timer_starts_then_fires_each_period() {
    let mut c = LoopController::new(MOVE_PERIOD_MS, 500);
    assert!(!c.gravity_tick(1_000));
    assert!(!c.gravity_tick(1_499));
    assert!(c.gravity_tick(1_500));
    assert_eq!(c.last_auto_move_down_ms, Some(1_500));
    assert!(!c.gravity_tick(1_600));
    assert!(c.gravity_tick(2_000));
}

#[test]
fn quit_ends_the_frame_before_anything_else() {
    let mut g = cube_game();
    let mut c = LoopController::new(MOVE_PERIOD_MS, INITIAL_DROP_PERIOD_MS);
    let k = KeyState { quit: true, left: true, ..keys() };
    assert_eq!(g.run_frame(&mut c, k, 0), FrameOutcome::Quit);
    assert_eq!(g.cell_screen().get_figure().unwrap().0, Point(4, 0));
    assert_eq!(c, LoopController::new(MOVE_PERIOD_MS, INITIAL_DROP_PERIOD_MS));
}

#[test]
fn paused_frames_move_nothing() {
    let mut g = cube_game();
    let mut c = LoopController::new(MOVE_PERIOD_MS, 10);
    assert_eq!(g.run_frame(&mut c, KeyState { pause: true, ..keys() }, 0), FrameOutcome::Continue);
    assert!(c.is_paused);
    for t in 1..50 {
        let k = KeyState { left: true, drop: true, ..keys() };
        assert_eq!(g.run_frame(&mut c, k, t * 100), FrameOutcome::Continue);
    }
    assert_eq!(g.cell_screen().get_figure().unwrap().0, Point(4, 0));
    assert_eq!(g.figures_generated(), 1);
}

#[test]
fn frames_move_and_drop_the_piece() {
    let mut g = cube_game();
    let mut c = LoopController::new(100, 500);
    assert_eq!(g.run_frame(&mut c, KeyState { left: true, ..keys() }, 0), FrameOutcome::Continue);
    assert_eq!(g.cell_screen().get_figure().unwrap().0, Point(3, 0));
    assert_eq!(g.run_frame(&mut c, KeyState { left: true, ..keys() }, 20), FrameOutcome::Continue);
    assert_eq!(g.cell_screen().get_figure().unwrap().0, Point(3, 0));
    assert_eq!(g.run_frame(&mut c, keys(), 40), FrameOutcome::Continue);
    assert_eq!(g.run_frame(&mut c, keys(), 540), FrameOutcome::Continue);
    assert_eq!(g.cell_screen().get_figure().unwrap().0, Point(3, 1));
    assert_eq!(g.run_frame(&mut c, KeyState { drop: true, ..keys() }, 560), FrameOutcome::Continue);
    assert_eq!(g.figures_generated(), 2);
    assert!(g.cell_screen().cells()[15 * 10 + 3].is_some());
}

#[test]
fn held_drop_key_fills_the_board_until_game_over() {
    let mut g = cube_game();
    let mut c = LoopController::new(MOVE_PERIOD_MS, INITIAL_DROP_PERIOD_MS);
    let mut outcome = FrameOutcome::Continue;
    for i in 0..400u64 {
        let k = KeyState { drop: i % 2 == 0, ..keys() };
        outcome = g.run_frame(&mut c, k, i * 10);
        if outcome != FrameOutcome::Continue {
            break;
        }
    }
    assert_eq!(outcome, FrameOutcome::GameOver);
    assert!(!g.cell_screen().has_figure());
}
