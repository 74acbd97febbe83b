//! The game controller: the `Starting` / `Running` / `Paused` /
//! `Ended` state machine, the per-frame update pass, and the reset on
//! restart.

use vstd::prelude::*;
use crate::grid::{Position, pos_in_bounds};
use crate::snake::{
    Snake, spawn_snake, snake_eating_and_growth, next_head_spec, displaced, start_config,
};
use crate::timer::TickTimer;
use crate::food::food_spawner;

verus! {

/// Period of the movement tick, in milliseconds.
pub const SNAKE_MOVEMENT_PERIOD_MS: u64 = 250;

/// Period of the food spawn attempt, in milliseconds.
pub const FOOD_SPAWN_PERIOD_MS: u64 = 1500;

/// The lifecycle state of the game.
#[derive(Clone, Copy, PartialEq, Eq, Structural, Debug)]
pub enum GameState {
    Starting,
    Running,
    Paused,
    Ended,
}

/// The whole simulation state: lifecycle state, the snake, at most
/// one food cell, and the two periodic timers.
pub struct Game {
    pub state: GameState,
    pub snake: Snake,
    pub food: Option<Position>,
    pub movement_timer: TickTimer,
    pub food_timer: TickTimer,
}

impl Game {
    /// Well-formed game: well-formed snake and timers, the timers on
    /// their fixed configured periods, and any food inside the arena.
    pub open spec fn wf(self) -> bool {
        &&& self.snake.wf()
        &&& self.movement_timer.wf()
        &&& self.movement_timer.period_ms == SNAKE_MOVEMENT_PERIOD_MS
        &&& self.food_timer.wf()
        &&& self.food_timer.period_ms == FOOD_SPAWN_PERIOD_MS
        &&& (self.food matches Some(p) ==> pos_in_bounds(p))
    }

    /// A fresh game, about to run its first start-up step.
    pub fn new() -> (g: Game)
        ensures
            g.wf(),
            g.state == GameState::Starting,
            g.food is None,
    {
        Game {
            state: GameState::Starting,
            snake: spawn_snake(),
            food: None,
            movement_timer: TickTimer::new(SNAKE_MOVEMENT_PERIOD_MS),
            food_timer: TickTimer::new(FOOD_SPAWN_PERIOD_MS),
        }
    }
}

/// `post` differs from `pre` in the lifecycle state alone.
pub open spec fn same_but_state(pre: Game, post: Game, st: GameState) -> bool {
    &&& post.state == st
    &&& post.snake == pre.snake
    &&& post.food == pre.food
    &&& post.movement_timer == pre.movement_timer
    &&& post.food_timer == pre.food_timer
}

/// How one timer changes under `delta_ms` of frame time.
pub open spec fn timer_rel(pre: TickTimer, post: TickTimer, delta_ms: u64) -> bool {
    &&& post.period_ms == pre.period_ms
    &&& if pre.fires(delta_ms) {
        post.elapsed_ms == (pre.elapsed_ms + delta_ms) % (pre.period_ms as int)
    } else {
        post.elapsed_ms == pre.elapsed_ms + delta_ms
    }
}

/// Outcome of the gated spawn attempt: when the spawn timer fired,
/// either nothing changed (no attempt was due, or the sampled cell
/// was busy), or there was no food and one appeared on a vacant cell
/// inside the arena; when the timer did not fire, nothing changed.
pub open spec fn spawn_outcome(
    pre_food: Option<Position>,
    post_food: Option<Position>,
    s: Snake,
    fired: bool,
) -> bool {
    if fired {
        ||| post_food == pre_food
        ||| (pre_food is None && (post_food matches Some(p) && pos_in_bounds(p)
                && !s.occupied().contains(p)))
    } else {
        post_food == pre_food
    }
}

/// How a pause / restart press changes the game.  `Running` and
/// `Paused` toggle; `Ended` destroys all food and body segments and
/// re-enters `Starting`; `Starting` accepts no input.
pub open spec fn control_rel(pre: Game, post: Game, pressed: bool) -> bool {
    if pressed {
        match pre.state {
            GameState::Running => same_but_state(pre, post, GameState::Paused),
            GameState::Paused => same_but_state(pre, post, GameState::Running),
            GameState::Ended => {
                &&& post.state == GameState::Starting
                &&& post.food is None
                &&& post.snake.body@ == Seq::<Position>::empty()
                &&& post.snake.head == pre.snake.head
                &&& post.snake.direction == pre.snake.direction
                &&& post.snake.input_direction == pre.snake.input_direction
                &&& post.snake.last_tail == pre.snake.last_tail
                &&& post.movement_timer == pre.movement_timer
                &&& post.food_timer == pre.food_timer
            },
            GameState::Starting => post == pre,
        }
    } else {
        post == pre
    }
}

/// How one frame's update pass changes the game.  `Starting` spawns
/// the fixed snake, arms both timers and enters `Running`; `Paused`
/// and `Ended` freeze everything; `Running` runs the movement tick
/// when due (ending the game on a collision, else shifting the body,
/// then eating and growing when the head reached the food), and then
/// the gated food spawn attempt.
pub open spec fn update_rel(pre: Game, post: Game, delta_ms: u64) -> bool {
    match pre.state {
        GameState::Starting => {
            &&& post.state == GameState::Running
            &&& start_config(post.snake)
            &&& post.food == pre.food
            &&& post.movement_timer == (TickTimer {
                period_ms: SNAKE_MOVEMENT_PERIOD_MS,
                elapsed_ms: 0,
            })
            &&& post.food_timer == (TickTimer {
                period_ms: FOOD_SPAWN_PERIOD_MS,
                elapsed_ms: 0,
            })
        },
        GameState::Paused => post == pre,
        GameState::Ended => post == pre,
        GameState::Running => {
            let f_fired = pre.food_timer.fires(delta_ms);
            if !pre.movement_timer.fires(delta_ms) {
                &&& post.state == GameState::Running
                &&& post.snake == pre.snake
                &&& timer_rel(pre.movement_timer, post.movement_timer, delta_ms)
                &&& timer_rel(pre.food_timer, post.food_timer, delta_ms)
                &&& spawn_outcome(pre.food, post.food, post.snake, f_fired)
            } else if next_head_spec(
                pre.snake.head,
                pre.snake.committed_direction(),
                pre.snake.body@,
            ) is None {
                &&& post.state == GameState::Ended
                &&& post.snake.head == pre.snake.head
                &&& post.snake.body@ == pre.snake.body@
                &&& post.snake.last_tail == pre.snake.last_tail
                &&& post.snake.direction == pre.snake.committed_direction()
                &&& post.snake.input_direction == pre.snake.input_direction
                &&& post.food == pre.food
                &&& timer_rel(pre.movement_timer, post.movement_timer, delta_ms)
                &&& post.food_timer == pre.food_timer
            } else {
                let ate = pre.food == Some(displaced(
                    pre.snake.head,
                    pre.snake.committed_direction(),
                ));
                &&& post.state == GameState::Running
                &&& post.snake.head == displaced(pre.snake.head, pre.snake.committed_direction())
                &&& post.snake.direction == pre.snake.committed_direction()
                &&& post.snake.input_direction == pre.snake.input_direction
                &&& post.snake.last_tail == pre.snake.vacated_tail()
                &&& (ate ==> post.snake.body@
                    == pre.snake.shifted_body().push(pre.snake.vacated_tail()))
                &&& (!ate ==> post.snake.body@ == pre.snake.shifted_body())
                &&& timer_rel(pre.movement_timer, post.movement_timer, delta_ms)
                &&& timer_rel(pre.food_timer, post.food_timer, delta_ms)
                &&& spawn_outcome(
                    if ate { None } else { pre.food },
                    post.food,
                    post.snake,
                    f_fired,
                )
            }
        },
    }
}

impl Game {
    /// Destroy every food and body-segment entity.  Runs once, on
    /// leaving `Ended`, before the next start-up step.
    pub fn game_reset(&mut self)
        requires
            old(self).wf(),
        ensures
            final(self).wf(),
            final(self).food is None,
            final(self).snake.body@ == Seq::<Position>::empty(),
            final(self).snake.head == old(self).snake.head,
            final(self).snake.direction == old(self).snake.direction,
            final(self).snake.input_direction == old(self).snake.input_direction,
            final(self).snake.last_tail == old(self).snake.last_tail,
            final(self).movement_timer == old(self).movement_timer,
            final(self).food_timer == old(self).food_timer,
            final(self).state == old(self).state,
    {
        self.food = None;
        self.snake.body = Vec::new();
        proof {
            assert(self.snake.body@ =~= Seq::<Position>::empty());
            assert(self.snake.occupied() =~= seq![self.snake.head]);
        }
    }

    /// Handle the single control key.  On a press edge: toggle
    /// `Running` and `Paused`, or leave `Ended` for `Starting` after
    /// the reset; `Starting` ignores it.  Without a press nothing
    /// changes.
    pub fn game_control_input(&mut self, pressed: bool)
        requires
            old(self).wf(),
        ensures
            final(self).wf(),
            control_rel(*old(self), *final(self), pressed),
    {
        if !pressed {
            return;
        }
        match self.state {
            GameState::Running => {
                self.state = GameState::Paused;
            },
            GameState::Paused => {
                self.state = GameState::Running;
            },
            GameState::Ended => {
                self.game_reset();
                self.state = GameState::Starting;
            },
            GameState::Starting => {},
        }
    }

    /// One frame's simulation pass (input sampling and rendering
    /// stand outside): the start-up step, or the movement, eating and
    /// food-spawn ticks gated by `Running` and the two timers.
    pub fn update(&mut self, delta_ms: u64)
        requires
            old(self).wf(),
            delta_ms <= u64::MAX - FOOD_SPAWN_PERIOD_MS,
        ensures
            final(self).wf(),
            update_rel(*old(self), *final(self), delta_ms),
    {
        match self.state {
            GameState::Starting => {
                self.snake = spawn_snake();
                self.movement_timer = TickTimer::new(SNAKE_MOVEMENT_PERIOD_MS);
                self.food_timer = TickTimer::new(FOOD_SPAWN_PERIOD_MS);
                self.state = GameState::Running;
            },
            GameState::Paused => {},
            GameState::Ended => {},
            GameState::Running => {
                let m_fired = self.movement_timer.tick(delta_ms);
                if m_fired {
                    let moved = self.snake.advance();
                    if !moved {
                        self.state = GameState::Ended;
                        return;
                    }
                    let _grew = snake_eating_and_growth(&mut self.snake, &mut self.food);
                }
                let f_fired = self.food_timer.tick(delta_ms);
                if f_fired {
                    let _placed = food_spawner(&mut self.food, &self.snake);
                }
            },
        }
    }
}

/// Law: a restart from `Ended` — the restart press, then the next
/// frame's update pass — leaves exactly zero food, a snake of exactly
/// two cells in the fixed starting configuration, and the game
/// `Running`.
pub proof fn lemma_restart_cycle(g0: Game, g1: Game, g2: Game, delta_ms: u64)
    requires
        g0.state == GameState::Ended,
        control_rel(g0, g1, true),
        update_rel(g1, g2, delta_ms),
    ensures
        g2.state == GameState::Running,
        g2.food is None,
        start_config(g2.snake),
        g2.snake.occupied().len() == 2,
{
    assert(g2.snake.occupied().len() == 1 + g2.snake.body@.len());
}

} // verus!
