use vstd::prelude::*;

use crate::game::{event_effect, input_outcome, ActivePiece, GameInputEvent, TetrisGame};
use crate::cell::TetrisCellColor;

verus! {

/// Longest wait for an input event between two frames.
pub const LOOP_PERIOD_MS: u32 = 10;

/// Shortest time between two lateral moves while the key stays held.
pub const MOVE_PERIOD_MS: u64 = 120;

/// Gravity period at the start of a game.
pub const INITIAL_DROP_PERIOD_MS: u64 = 500;

/// Number of spawned pieces after which gravity speeds up.
pub const SPEED_UP_AFTER_FIGURE_COUNT: usize = 100;

/// Which keys are held during one frame.
#[derive(Clone, Copy, Debug, PartialEq, Eq, Structural)]
pub struct KeyState {
    pub quit: bool,
    pub pause: bool,
    pub left: bool,
    pub right: bool,
    pub rotate: bool,
    pub drop: bool,
}

/// How a frame ended.
#[derive(Clone, Copy, Debug, PartialEq, Eq, Structural)]
pub enum FrameOutcome {
    Continue,
    Quit,
    GameOver,
}

/// Whether at least `period` has passed since `last`, or nothing fired yet.
pub open spec fn due(last: Option<u64>, period: u64, now: u64) -> bool {
    match last {
        None => true,
        Some(t) => t + period <= now,
    }
}

/// `period` shortened to three quarters, rounded down.
pub open spec fn sped_up(period: u64) -> u64 {
    (period * 3 / 4) as u64
}

/// The timing and key-edge state of the game loop, carried from frame to frame.
#[derive(Clone, Copy, Debug, PartialEq, Eq, Structural)]
pub struct LoopController {
    pub is_paused: bool,
    pub pause_was_pressed: bool,
    pub move_period_ms: u64,
    pub last_move_time_ms: Option<u64>,
    pub auto_move_down_period: u64,
    pub last_auto_move_down_ms: Option<u64>,
    pub rotate_was_pressed: bool,
    pub move_down_was_pressed: bool,
    pub last_speed_up_was_at_figure: usize,
}

/// The controller once the pause key's state `pressed` is read: pausing
/// toggles when the key goes down.
pub open spec fn pause_read(ctl: LoopController, pressed: bool) -> LoopController {
    LoopController {
        is_paused: ctl.is_paused != (pressed && !ctl.pause_was_pressed),
        pause_was_pressed: pressed,
        ..ctl
    }
}

/// The lateral move that fires, if any: one is due when a lateral key is
/// held and the repeat interval has passed since the last one; left wins.
pub open spec fn lateral_fired(ctl: LoopController, left: bool, right: bool, now: u64) -> Option<
    GameInputEvent,
> {
    if (left || right) && due(ctl.last_move_time_ms, ctl.move_period_ms, now) {
        Some(
            if left {
                GameInputEvent::MoveLeft
            } else {
                GameInputEvent::MoveRight
            },
        )
    } else {
        None
    }
}

/// When the last lateral move fired, after the lateral keys are read.
pub open spec fn lateral_time(ctl: LoopController, left: bool, right: bool, now: u64) -> Option<u64> {
    if !(left || right) {
        None
    } else if due(ctl.last_move_time_ms, ctl.move_period_ms, now) {
        Some(now)
    } else {
        ctl.last_move_time_ms
    }
}

/// The controller once the lateral, rotate and drop keys are read.
pub open spec fn keys_read(ctl: LoopController, keys: KeyState, now: u64) -> LoopController {
    LoopController {
        last_move_time_ms: lateral_time(ctl, keys.left, keys.right, now),
        rotate_was_pressed: keys.rotate,
        move_down_was_pressed: keys.drop,
        ..ctl
    }
}

/// Whether another milestone's worth of pieces has spawned since the last speed-up.
pub open spec fn speed_due(ctl: LoopController, spawned: nat) -> bool {
    ctl.last_speed_up_was_at_figure + SPEED_UP_AFTER_FIGURE_COUNT <= spawned
}

/// The controller after the speed-up check with `spawned` pieces spawned.
pub open spec fn speed_read(ctl: LoopController, spawned: nat) -> LoopController {
    if speed_due(ctl, spawned) {
        LoopController {
            last_speed_up_was_at_figure: spawned as usize,
            auto_move_down_period: sped_up(ctl.auto_move_down_period),
            ..ctl
        }
    } else {
        ctl
    }
}

/// Whether the gravity timer fires at `now`: it has been started and a
/// full period has passed.
pub open spec fn gravity_fired(ctl: LoopController, now: u64) -> bool {
    ctl.last_auto_move_down_ms is Some && due(ctl.last_auto_move_down_ms, ctl.auto_move_down_period, now)
}

/// The controller after the gravity timer is checked at `now`.
pub open spec fn gravity_read(ctl: LoopController, now: u64) -> LoopController {
    LoopController {
        last_auto_move_down_ms: if ctl.last_auto_move_down_ms is None || gravity_fired(ctl, now) {
            Some(now)
        } else {
            ctl.last_auto_move_down_ms
        },
        ..ctl
    }
}

/// The grid and piece after `e`, an input that never locks, if one fired.
pub open spec fn after_event(
    cells: Seq<Option<TetrisCellColor>>,
    a: Option<ActivePiece>,
    e: Option<GameInputEvent>,
) -> (Seq<Option<TetrisCellColor>>, Option<ActivePiece>) {
    match e {
        Some(ev) => (input_outcome(cells, a, ev).0, input_outcome(cells, a, ev).1),
        None => (cells, a),
    }
}

/// The grid and piece after a frame's lateral move and rotation, which
/// never lock, with `ctl` the controller once the pause key was read.
pub open spec fn before_drop(
    cells: Seq<Option<TetrisCellColor>>,
    a: Option<ActivePiece>,
    ctl: LoopController,
    keys: KeyState,
    now: u64,
) -> (Seq<Option<TetrisCellColor>>, Option<ActivePiece>) {
    let s1 = after_event(cells, a, lateral_fired(ctl, keys.left, keys.right, now));
    after_event(
        s1.0,
        s1.1,
        if keys.rotate && !ctl.rotate_was_pressed {
            Some(GameInputEvent::RotateClockwise)
        } else {
            None
        },
    )
}

/// A frame's state after its key inputs, from grid `cells`, piece `a` and
/// spawn count `n`, with `ctl` the controller once the pause key was read:
/// grid, piece, spawn count and whether the game goes on. The lateral move
/// and the rotation act as `before_drop` says; a hard drop, when its key
/// went down, acts as `event_effect` says.
pub open spec fn inputs_stage(
    cells: Seq<Option<TetrisCellColor>>,
    a: Option<ActivePiece>,
    n: nat,
    ctl: LoopController,
    keys: KeyState,
    now: u64,
    mid: (Seq<Option<TetrisCellColor>>, Option<ActivePiece>, nat, bool),
) -> bool {
    let s2 = before_drop(cells, a, ctl, keys, now);
    if keys.drop && !ctl.move_down_was_pressed {
        event_effect(s2.0, s2.1, n, GameInputEvent::MoveDown, mid.0, mid.1, mid.2, mid.3)
    } else {
        mid == (s2.0, s2.1, n, true)
    }
}

/// The end of a frame from the state `mid` after its hard-drop stage and the
/// controller `ctl` after its keys were read. When the game ended there, the
/// frame ends with nothing more done. Otherwise the speed-up check and the
/// gravity timer run, and a gravity tick, if it fires, is the frame's last input.
pub open spec fn gravity_stage(
    mid: (Seq<Option<TetrisCellColor>>, Option<ActivePiece>, nat, bool),
    ctl: LoopController,
    now: u64,
    cells_f: Seq<Option<TetrisCellColor>>,
    a_f: Option<ActivePiece>,
    n_f: nat,
    ctl_f: LoopController,
    r: FrameOutcome,
) -> bool {
    if !mid.3 {
        &&& r == FrameOutcome::GameOver
        &&& (cells_f, a_f, n_f) == (mid.0, mid.1, mid.2)
        &&& ctl_f == ctl
    } else {
        let ctl2 = speed_read(ctl, mid.2);
        &&& ctl_f == gravity_read(ctl2, now)
        &&& r != FrameOutcome::Quit
        &&& if gravity_fired(ctl2, now) {
            event_effect(
                mid.0,
                mid.1,
                mid.2,
                GameInputEvent::Timer,
                cells_f,
                a_f,
                n_f,
                r == FrameOutcome::Continue,
            )
        } else {
            &&& r == FrameOutcome::Continue
            &&& (cells_f, a_f, n_f) == (mid.0, mid.1, mid.2)
        }
    }
}

impl LoopController {
    /// A controller with the given repeat interval for lateral moves and
    /// the given initial gravity period; nothing is held, nothing has fired.
    pub fn new(move_period_ms: u64, drop_period_ms: u64) -> (r: Self)
        ensures
            r == (LoopController {
                is_paused: false,
                pause_was_pressed: false,
                move_period_ms,
                last_move_time_ms: None,
                auto_move_down_period: drop_period_ms,
                last_auto_move_down_ms: None,
                rotate_was_pressed: false,
                move_down_was_pressed: false,
                last_speed_up_was_at_figure: 0,
            }),
    {
        LoopController {
            is_paused: false,
            pause_was_pressed: false,
            move_period_ms,
            last_move_time_ms: None,
            auto_move_down_period: drop_period_ms,
            last_auto_move_down_ms: None,
            rotate_was_pressed: false,
            move_down_was_pressed: false,
            last_speed_up_was_at_figure: 0,
        }
    }

    /// The pause key toggles pausing when it goes down, not while it is held.
    /// The result is whether play is paused afterwards.
    pub fn update_pause(&mut self, pressed: bool) -> (r: bool)
        ensures
            *final(self) == pause_read(*old(self), pressed),
            r == final(self).is_paused,
    {
        if pressed {
            if !self.pause_was_pressed {
                self.is_paused = !self.is_paused;
            }
        }
        self.pause_was_pressed = pressed;
        self.is_paused
    }

    /// Lateral movement repeats while its key is held, at most once per
    /// repeat interval; releasing both keys resets the throttle. Left wins
    /// when both are held.
    pub fn lateral_move(&mut self, left: bool, right: bool, now_ms: u64) -> (r: Option<GameInputEvent>)
        ensures
            r == lateral_fired(*old(self), left, right, now_ms),
            *final(self) == (LoopController {
                last_move_time_ms: lateral_time(*old(self), left, right, now_ms),
                ..*old(self)
            }),
    {
        if left || right {
            let due_now = match self.last_move_time_ms {
                None => true,
                Some(t) => now_ms >= t && now_ms - t >= self.move_period_ms,
            };
            if due_now {
                self.last_move_time_ms = Some(now_ms);
                if left {
                    Some(GameInputEvent::MoveLeft)
                } else {
                    Some(GameInputEvent::MoveRight)
                }
            } else {
                None
            }
        } else {
            self.last_move_time_ms = None;
            None
        }
    }

    /// Rotation fires once when its key goes down, not while it is held.
    pub fn rotate_edge(&mut self, pressed: bool) -> (r: bool)
        ensures
            r == (pressed && !old(self).rotate_was_pressed),
            *final(self) == (LoopController { rotate_was_pressed: pressed, ..*old(self) }),
    {
        let fire = pressed && !self.rotate_was_pressed;
        self.rotate_was_pressed = pressed;
        fire
    }

    /// The hard drop fires once when its key goes down, not while it is held.
    pub fn drop_edge(&mut self, pressed: bool) -> (r: bool)
        ensures
            r == (pressed && !old(self).move_down_was_pressed),
            *final(self) == (LoopController { move_down_was_pressed: pressed, ..*old(self) }),
    {
        let fire = pressed && !self.move_down_was_pressed;
        self.move_down_was_pressed = pressed;
        fire
    }

    /// Once another milestone's worth of pieces has spawned since the last
    /// speed-up, the gravity period shrinks to three quarters.
    pub fn update_speed(&mut self, figures_generated: usize)
        ensures
            *final(self) == speed_read(*old(self), figures_generated as nat),
    {
        if figures_generated >= self.last_speed_up_was_at_figure && figures_generated
            - self.last_speed_up_was_at_figure >= SPEED_UP_AFTER_FIGURE_COUNT {
            self.last_speed_up_was_at_figure = figures_generated;
            let p = self.auto_move_down_period;
            let q = p / 4;
            let m = p % 4;
            assert(q * 3 + m * 3 / 4 == p * 3 / 4) by (nonlinear_arith)
                requires
                    q == p / 4,
                    m == p % 4,
            ;
            self.auto_move_down_period = q * 3 + m * 3 / 4;
        }
    }

    /// The gravity timer: its first frame only starts the clock; afterwards
    /// it fires, and restarts, whenever a full period has passed.
    pub fn gravity_tick(&mut self, now_ms: u64) -> (r: bool)
        ensures
            r == gravity_fired(*old(self), now_ms),
            *final(self) == gravity_read(*old(self), now_ms),
    {
        match self.last_auto_move_down_ms {
            None => {
                self.last_auto_move_down_ms = Some(now_ms);
                false
            },
            Some(t) => {
                if now_ms >= t && now_ms - t >= self.auto_move_down_period {
                    self.last_auto_move_down_ms = Some(now_ms);
                    true
                } else {
                    false
                }
            },
        }
    }
}

impl TetrisGame {
    /// One frame of the game loop, with the keys held and the time read for
    /// this frame. Quit ends the loop before anything else. While paused
    /// nothing moves. Otherwise, in this order: a lateral move, a rotation,
    /// a hard drop, the speed-up check and the gravity tick. When the new
    /// piece after a hard drop does not fit, the frame ends there with game
    /// over; a gravity tick can end it so too.
    pub fn run_frame(&mut self, ctl: &mut LoopController, keys: KeyState, now_ms: u64) -> (r: FrameOutcome)
        requires
            old(self).wf(),
            old(self).spawned() + 2 <= usize::MAX,
        ensures
            final(self).wf(),
            (r == FrameOutcome::Quit) == keys.quit,
            keys.quit || pause_read(*old(ctl), keys.pause).is_paused ==> {
                &&& r != FrameOutcome::GameOver
                &&& final(self).cells_view() == old(self).cells_view()
                &&& final(self).active() == old(self).active()
                &&& final(self).spawned() == old(self).spawned()
            },
            keys.quit ==> *final(ctl) == *old(ctl),
            !keys.quit && pause_read(*old(ctl), keys.pause).is_paused ==> *final(ctl) == pause_read(
                *old(ctl),
                keys.pause,
            ),
            !keys.quit && !pause_read(*old(ctl), keys.pause).is_paused ==> exists|
                mid: (Seq<Option<TetrisCellColor>>, Option<ActivePiece>, nat, bool),
            |
                #[trigger] inputs_stage(
                    old(self).cells_view(),
                    old(self).active(),
                    old(self).spawned(),
                    pause_read(*old(ctl), keys.pause),
                    keys,
                    now_ms,
                    mid,
                ) && gravity_stage(
                    mid,
                    keys_read(pause_read(*old(ctl), keys.pause), keys, now_ms),
                    now_ms,
                    final(self).cells_view(),
                    final(self).active(),
                    final(self).spawned(),
                    *final(ctl),
                    r,
                ),
            final(self).spawned() == old(self).spawned() ==> final(self).rng_state() == old(
                self,
            ).rng_state(),
    {
        if keys.quit {
            return FrameOutcome::Quit;
        }
        if ctl.update_pause(keys.pause) {
            return FrameOutcome::Continue;
        }
        let ghost ctl0 = *ctl;
        let ghost lateral = lateral_fired(ctl0, keys.left, keys.right, now_ms);
        let ghost s1 = after_event(self.cells_view(), self.active(), lateral);
        match ctl.lateral_move(keys.left, keys.right, now_ms) {
            Some(event) => {
                self.handle_event(event);
            },
            None => {},
        }
        assert((self.cells_view(), self.active()) == s1);
        let rotate = ctl.rotate_edge(keys.rotate);
        let ghost s2 = after_event(
            s1.0,
            s1.1,
            if rotate {
                Some(GameInputEvent::RotateClockwise)
            } else {
                None
            },
        );
        if rotate {
            self.handle_event(GameInputEvent::RotateClockwise);
        }
        assert((self.cells_view(), self.active()) == s2);
        let hard_drop = ctl.drop_edge(keys.drop);
        let ghost ctl1 = *ctl;
        assert(ctl1 == keys_read(ctl0, keys, now_ms));
        let mut going_on = true;
        if hard_drop {
            going_on = self.handle_event(GameInputEvent::MoveDown);
        }
        let ghost mid = (self.cells_view(), self.active(), self.spawned(), going_on);
        assert(inputs_stage(old(self).cells_view(), old(self).active(), old(self).spawned(), ctl0, keys, now_ms, mid));
        if !going_on {
            assert(gravity_stage(
                mid,
                *ctl,
                now_ms,
                self.cells_view(),
                self.active(),
                self.spawned(),
                *ctl,
                FrameOutcome::GameOver,
            ));
            return FrameOutcome::GameOver;
        }
        let spawned = self.figures_generated();
        ctl.update_speed(spawned);
        let mut outcome = FrameOutcome::Continue;
        if ctl.gravity_tick(now_ms) {
            if !self.handle_event(GameInputEvent::Timer) {
                outcome = FrameOutcome::GameOver;
            }
        }
        assert(gravity_stage(
            mid,
            ctl1,
            now_ms,
            self.cells_view(),
            self.active(),
            self.spawned(),
            *ctl,
            outcome,
        ));
        outcome
    }
}

} // verus!
