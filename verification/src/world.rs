use vstd::prelude::*;

use crate::direction::Direction;
use crate::food::Food;
use crate::food::find_free_cell;
use crate::grid::GridPosition;
use crate::snake::AdvanceOutcome;
use crate::snake::Snake;

verus! {

/// Grid width of the reference configuration.
pub const GRID_WIDTH: i16 = 30;

/// Grid height of the reference configuration.
pub const GRID_HEIGHT: i16 = 20;

/// Milliseconds between logical steps in the reference configuration:
/// eight updates per second.
pub const MILLIS_PER_UPDATE: u64 = 125;

/// The compiled-in knobs of the game, made an explicit value so a world can
/// be built with any grid size and tick rate.
#[derive(Clone, Copy, PartialEq, Eq, Structural, Debug)]
pub struct Config {
    pub grid_width: i16,
    pub grid_height: i16,
    pub millis_per_update: u64,
}

impl Config {
    /// Positive grid dimensions and a positive update interval.
    pub open spec fn wf(self) -> bool {
        0 < self.grid_width && 0 < self.grid_height && 0 < self.millis_per_update
    }

    /// The reference configuration: a 30 by 20 grid at eight updates per
    /// second.
    pub fn standard() -> (c: Config)
        ensures
            c == (Config {
                grid_width: GRID_WIDTH,
                grid_height: GRID_HEIGHT,
                millis_per_update: MILLIS_PER_UPDATE,
            }),
            c.wf(),
    {
        Config {
            grid_width: GRID_WIDTH,
            grid_height: GRID_HEIGHT,
            millis_per_update: MILLIS_PER_UPDATE,
        }
    }
}

/// Whether the world is still playing, lost to a self-collision, or won
/// because the snake covers the whole grid and no cell is left for food.
#[derive(Clone, Copy, PartialEq, Eq, Structural, Debug)]
pub enum PlayState {
    Running,
    GameOver,
    Won,
}

/// The whole game state: one snake, one food cell, the fixed-timestep
/// accumulator, the terminal flag, and a diagnostic frame counter.
pub struct GameWorld {
    pub config: Config,
    pub snake: Snake,
    pub food: Food,
    pub state: PlayState,
    pub last_update_ms: u64,
    pub frames: u64,
}

impl GameWorld {
    pub open spec fn spec_w(self) -> int {
        self.config.grid_width as int
    }

    pub open spec fn spec_h(self) -> int {
        self.config.grid_height as int
    }

    /// The world's invariant: a well-formed configuration, a well-formed
    /// snake on the grid, food on the grid, and — while the game runs — a
    /// head that overlaps no body cell and food that overlaps no snake cell.
    pub open spec fn wf(self) -> bool {
        self.config.wf() && self.snake.wf(self.spec_w(), self.spec_h())
            && self.food.pos.spec_in_grid(self.spec_w(), self.spec_h()) && (self.state
            is Running ==> self.snake.spec_head_clear()) && (self.state is Running
            ==> !self.snake.spec_segments().contains(self.food.pos))
    }

    /// Where a fresh snake starts: the middle of the grid.
    pub open spec fn spec_start_head(config: Config) -> GridPosition {
        GridPosition {
            x: (config.grid_width as int / 2) as i16,
            y: (config.grid_height as int / 2) as i16,
        }
    }

    /// Whether a logical step is due at `now_ms`: the game still runs and a
    /// full update interval has passed since the last applied step.
    pub open spec fn spec_tick_due(self, now_ms: u64) -> bool {
        self.state is Running && now_ms - self.last_update_ms
            >= self.config.millis_per_update
    }

    /// A fresh world: a one-cell snake in the middle of the grid heading
    /// right, food on a random cell the snake does not cover, the clock at
    /// zero. On a one-cell grid no cell is left for food and the game is
    /// won before it starts.
    pub fn new(config: Config) -> (world: GameWorld)
        requires
            config.wf(),
        ensures
            world.wf(),
            world.config == config,
            world.snake.spec_segments() == seq![Self::spec_start_head(config)],
            world.snake.dir == Direction::Right,
            world.snake.pending is None,
            world.last_update_ms == 0,
            world.frames == 0,
            world.state is Running || world.state is Won,
            (world.state is Running <==> (exists|p: GridPosition|
                (#[trigger] p.spec_in_grid(config.grid_width as int, config.grid_height as int))
                    && p != Self::spec_start_head(config))),
            world.state is Running ==> !world.snake.spec_segments().contains(world.food.pos)
                && world.food.pos.spec_in_grid(
                config.grid_width as int,
                config.grid_height as int,
            ),
    {
        proof {
            assert(config.grid_width as int / 2 < config.grid_width as int && config.grid_height as int
                / 2 < config.grid_height as int) by (nonlinear_arith)
                requires
                    0 < config.grid_width as int,
                    0 < config.grid_height as int,
            ;
        }
        let head = GridPosition::new(
            (config.grid_width as u16 / 2) as i16,
            (config.grid_height as u16 / 2) as i16,
        );
        let snake = Snake::new(head, Direction::Right);
        let mut food = Food::new(head);
        let mut state = PlayState::Running;
        match find_free_cell(config.grid_width, config.grid_height, snake.segments()) {
            Some(free) => {
                proof {
                    assert(free.spec_in_grid(config.grid_width as int, config.grid_height as int)
                        && !snake.spec_segments().contains(free));
                    assert(snake.spec_segments().contains(head)) by {
                        assert(snake.spec_segments()[0] == head);
                    }
                    assert(free != Self::spec_start_head(config));
                }
                food.relocate(config.grid_width, config.grid_height, snake.segments());
            },
            None => {
                state = PlayState::Won;
                proof {
                    assert forall|p: GridPosition|
                        (#[trigger] p.spec_in_grid(
                            config.grid_width as int,
                            config.grid_height as int,
                        )) implies p == Self::spec_start_head(config) by {
                        assert(snake.spec_segments().contains(p));
                        assert(snake.spec_segments()[0] == head);
                    }
                }
            },
        }
        GameWorld { config, snake, food, state, last_update_ms: 0, frames: 0 }
    }

    /// Forwards a direction request to the snake. Any number of requests may
    /// come between two ticks; only the latest one kept matters, and the
    /// exact reversal of the current heading is dropped.
    pub fn on_input(&mut self, d: Direction)
        requires
            old(self).wf(),
        ensures
            final(self).wf(),
            final(self).snake == old(self).snake.spec_set_pending(d),
            final(self).config == old(self).config,
            final(self).food == old(self).food,
            final(self).state == old(self).state,
            final(self).last_update_ms == old(self).last_update_ms,
            final(self).frames == old(self).frames,
    {
        self.snake.set_pending_direction(d);
    }

    /// Puts the food on a chosen free cell, in place of a random one —
    /// deterministic world setup.
    pub fn place_food(&mut self, pos: GridPosition)
        requires
            old(self).wf(),
            pos.spec_in_grid(old(self).spec_w(), old(self).spec_h()),
            !old(self).snake.spec_segments().contains(pos),
        ensures
            final(self).wf(),
            final(self).food.pos == pos,
            final(self).config == old(self).config,
            final(self).snake == old(self).snake,
            final(self).state == old(self).state,
            final(self).last_update_ms == old(self).last_update_ms,
            final(self).frames == old(self).frames,
    {
        self.food = Food::new(pos);
    }

    /// One call of the fixed-timestep throttle. Nothing changes unless the
    /// game runs and a full interval has passed since the last applied step;
    /// then exactly one logical step runs, and the remainder of the elapsed
    /// time is carried forward. In a step, the buffered heading takes
    /// effect and the head moves one wraparound cell. Stepping onto the body
    /// ends the game; stepping onto the food grows the snake by one cell and
    /// relocates the food to a cell the snake does not cover — unless no
    /// cell is left, which wins the game.
    pub fn tick(&mut self, now_ms: u64)
        requires
            old(self).wf(),
            old(self).last_update_ms <= now_ms,
        ensures
            final(self).wf(),
            final(self).config == old(self).config,
            final(self).frames == old(self).frames,
            !old(self).spec_tick_due(now_ms) ==> *final(self) == *old(self),
            old(self).spec_tick_due(now_ms) ==> ({
                let w = old(self).spec_w();
                let h = old(self).spec_h();
                let s = old(self).snake;
                let nh = s.spec_next_head(w, h);
                let ate = nh == old(self).food.pos;
                final(self).last_update_ms == old(self).last_update_ms
                    + old(self).config.millis_per_update && final(self).snake.dir
                    == s.spec_effective_direction() && final(self).snake.pending is None && (
                s.spec_hits_body(w, h) ==> final(self).state is GameOver
                    && final(self).snake.spec_segments() == s.spec_segments()
                    && final(self).food == old(self).food)
                    && (!s.spec_hits_body(w, h) ==> final(self).snake.spec_segments() == seq![nh]
                    + (if ate {
                    s.spec_segments()
                } else {
                    s.spec_segments().drop_last()
                }) && (!ate ==> final(self).state is Running && final(self).food == old(self).food)
                    && (ate ==> (final(self).state is Running || final(self).state is Won) && (
                final(self).state is Won <==> (forall|p: GridPosition|
                    (#[trigger] p.spec_in_grid(w, h)) ==> final(self).snake.spec_segments().contains(
                        p,
                    )))))
            }),
    {
        if self.state != PlayState::Running {
            return ;
        }
        let interval = self.config.millis_per_update;
        if now_ms - self.last_update_ms < interval {
            return ;
        }
        let grid_w = self.config.grid_width;
        let grid_h = self.config.grid_height;
        let next = self.snake.next_head(grid_w, grid_h);
        let ate = next == self.food.position();
        let outcome = self.snake.advance(grid_w, grid_h, ate);
        self.last_update_ms = self.last_update_ms + interval;
        match outcome {
            AdvanceOutcome::SelfCollision => {
                self.state = PlayState::GameOver;
            },
            AdvanceOutcome::Moved(_) => {
                if ate {
                    match find_free_cell(grid_w, grid_h, self.snake.segments()) {
                        Some(free) => {
                            proof {
                                assert(free.spec_in_grid(grid_w as int, grid_h as int)
                                    && !self.snake.spec_segments().contains(free));
                            }
                            self.food.relocate(grid_w, grid_h, self.snake.segments());
                        },
                        None => {
                            self.state = PlayState::Won;
                        },
                    }
                } else {
                    proof {
                        let w = grid_w as int;
                        let h = grid_h as int;
                        assert forall|i: int|
                            0 <= i < self.snake.body@.len() implies self.snake.body@[i]
                            != self.food.pos by {
                            if i == 0 {
                                assert(self.snake.body@[0] == old(self).snake.spec_next_head(w, h));
                            } else {
                                assert(self.snake.body@[i] == old(self).snake.body@.drop_last()[i
                                    - 1]);
                                assert(old(self).snake.body@[i - 1] != self.food.pos);
                            }
                        }
                    }
                }
            },
        }
    }

    /// Starts the game over: the snake back to its single starting cell and
    /// heading, food on a fresh random free cell, the clock and the terminal
    /// flag cleared. The diagnostic frame counter keeps counting.
    pub fn reset(&mut self)
        requires
            old(self).wf(),
        ensures
            final(self).wf(),
            final(self).config == old(self).config,
            final(self).frames == old(self).frames,
            final(self).snake.spec_segments() == seq![Self::spec_start_head(old(self).config)],
            final(self).snake.dir == Direction::Right,
            final(self).snake.pending is None,
            final(self).last_update_ms == 0,
            final(self).state is Running || final(self).state is Won,
            (final(self).state is Running <==> (exists|p: GridPosition|
                (#[trigger] p.spec_in_grid(old(self).spec_w(), old(self).spec_h())) && p
                    != Self::spec_start_head(old(self).config))),
    {
        let fresh = GameWorld::new(self.config);
        let frames = self.frames;
        *self = fresh;
        self.frames = frames;
    }

    /// One rendered frame, for the diagnostic counter the renderer reads.
    pub fn count_frame(&mut self)
        requires
            old(self).wf(),
            old(self).frames < u64::MAX,
        ensures
            final(self).wf(),
            final(self).frames == old(self).frames + 1,
            final(self).config == old(self).config,
            final(self).snake == old(self).snake,
            final(self).food == old(self).food,
            final(self).state == old(self).state,
            final(self).last_update_ms == old(self).last_update_ms,
    {
        self.frames = self.frames + 1;
    }

    pub fn snake(&self) -> (r: &Snake)
        ensures
            *r == self.snake,
    {
        &self.snake
    }

    pub fn food_position(&self) -> (r: GridPosition)
        ensures
            r == self.food.pos,
    {
        self.food.position()
    }

    pub fn play_state(&self) -> (r: PlayState)
        ensures
            r == self.state,
    {
        self.state
    }

    pub fn config(&self) -> (r: Config)
        ensures
            r == self.config,
    {
        self.config
    }

    pub fn frame_count(&self) -> (r: u64)
        ensures
            r == self.frames,
    {
        self.frames
    }
}

} // verus!
