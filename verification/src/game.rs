//! The game itself: the state that a program holds, and the tick that
//! advances it.

use vstd::prelude::*;
use crate::constants::Constants;
use crate::entities::{Ball, Brick, Paddle};
use crate::geometry::PositionVec2;
use crate::laws::lemma_one_more_brick;
use crate::rules::{
    deflected, grid, grid_brick, steering, survivors, GameView, Input, TickEvents,
};
use crate::scalar::{divide_towards_zero, narrow, negated, saturating_sum, spaced};
use vstd::arithmetic::div_mod::lemma_fundamental_div_mod_converse;

verus! {

/// A game of Breakout. The fields are open: a program may place the ball or
/// the paddle where it likes, and every tick is defined on whatever it finds.
#[derive(Clone, Debug)]
pub struct GameState {
    pub ball: Ball,
    pub paddle: Paddle,
    pub bricks: Vec<Brick>,
    pub game_over: bool,
    pub config: Constants,
}

impl View for GameState {
    type V = GameView;

    open spec fn view(&self) -> GameView {
        GameView {
            ball: self.ball,
            paddle: self.paddle,
            bricks: self.bricks@,
            game_over: self.game_over,
            config: self.config,
        }
    }
}

/// What a hit on the paddle adds to the ball's horizontal speed.
fn steering_of(ball: Ball, paddle: Paddle, gain: i64) -> (added: i128)
    requires
        ball.meets_paddle(paddle),
    ensures
        added == steering(ball, paddle, gain),
        -0x4000_0000_0000_0000_0000_0000_0000_0000 <= added
            <= 0x4000_0000_0000_0000_0000_0000_0000_0000,
{
    let width: i128 = paddle.size.width as i128;
    if width == 0 {
        0
    } else {
        let from_middle: i128 = 2 * (ball.pos.x as i128 - paddle.pos.x as i128) - width;
        assert(-0x4000_0000_0000_0000_0000_0000_0000_0000 <= gain * from_middle
            <= 0x4000_0000_0000_0000_0000_0000_0000_0000) by (nonlinear_arith)
            requires
                -0x8000_0000_0000_0000 <= gain <= 0x8000_0000_0000_0000,
                -0x8000_0000_0000_0000 <= from_middle <= 0x8000_0000_0000_0000,
        ;
        divide_towards_zero((gain as i128) * from_middle, width)
    }
}

impl GameState {
    /// A new game as `config` lays it out.
    pub fn new(config: Constants) -> (state: GameState)
        ensures
            state@ =~= GameView::initial(config),
    {
        let mut state = GameState {
            ball: Ball {
                pos: config.ball_start_pos,
                vel: config.ball_start_vel,
                size: config.ball_size,
            },
            paddle: Paddle {
                pos: config.paddle_start_pos,
                size: config.paddle_size,
                speed: config.paddle_speed,
            },
            bricks: Vec::new(),
            game_over: false,
            config,
        };
        state.generate_bricks();
        state
    }

    /// Starts the game anew: ball and paddle go back to where the
    /// configuration places them, the grid of bricks is whole again and the
    /// game is no longer over.
    pub fn reset(&mut self)
        ensures
            final(self)@ =~= GameView::initial(old(self).config),
    {
        self.ball = Ball {
            pos: self.config.ball_start_pos,
            vel: self.config.ball_start_vel,
            size: self.config.ball_size,
        };
        self.paddle = Paddle {
            pos: self.config.paddle_start_pos,
            size: self.config.paddle_size,
            speed: self.config.paddle_speed,
        };
        self.bricks.clear();
        self.generate_bricks();
        self.game_over = false;
    }

    /// Adds the full grid of bricks behind the bricks that are there.
    pub fn generate_bricks(&mut self)
        ensures
            final(self)@ =~= (GameView {
                bricks: old(self)@.bricks + grid(old(self).config),
                ..old(self)@
            }),
    {
        let config = self.config;
        let rows = config.brick_rows;
        let columns = config.brick_columns;
        let column_pitch: i128 = config.brick_size.width as i128 + config.brick_padding as i128;
        let row_pitch: i128 = config.brick_size.height as i128 + config.brick_padding as i128;
        let ghost before = self.bricks@;
        let mut row: usize = 0;
        while row < rows
            invariant
                row <= rows,
                rows == config.brick_rows,
                columns == config.brick_columns,
                column_pitch == config.brick_size.width + config.brick_padding,
                row_pitch == config.brick_size.height + config.brick_padding,
                self.ball == old(self).ball,
                self.paddle == old(self).paddle,
                self.game_over == old(self).game_over,
                self.config == config,
                self.bricks@.len() == before.len() + row * columns,
                forall|k: int|
                    0 <= k < before.len() ==> self.bricks@[k] == before[k],
                forall|k: int|
                    0 <= k < row * columns ==> #[trigger] self.bricks@[before.len() + k]
                        == grid_brick(config, k / (columns as int), k % (columns as int)),
            decreases rows - row,
        {
            let y = spaced(row, row_pitch, config.brick_offset_top);
            let mut col: usize = 0;
            while col < columns
                invariant
                    row < rows,
                    col <= columns,
                    columns == config.brick_columns,
                    column_pitch == config.brick_size.width + config.brick_padding,
                    y == grid_brick(config, row as int, 0).pos.y,
                    self.ball == old(self).ball,
                    self.paddle == old(self).paddle,
                    self.game_over == old(self).game_over,
                    self.config == config,
                    self.bricks@.len() == before.len() + row * columns + col,
                    forall|k: int|
                        0 <= k < before.len() ==> self.bricks@[k] == before[k],
                    forall|k: int|
                        0 <= k < row * columns + col ==> #[trigger] self.bricks@[before.len() + k]
                            == grid_brick(config, k / (columns as int), k % (columns as int)),
                decreases columns - col,
            {
                let x = spaced(col, column_pitch, config.brick_padding);
                let brick = Brick {
                    pos: PositionVec2::new(x, y),
                    size: config.brick_size,
                    color: config.brick_color,
                };
                proof {
                    lemma_fundamental_div_mod_converse(
                        row * columns + col,
                        columns as int,
                        row as int,
                        col as int,
                    );
                    assert(brick == grid_brick(config, row as int, col as int));
                }
                self.bricks.push(brick);
                col += 1;
            }
            proof {
                assert((row + 1) * columns == row * columns + columns) by (nonlinear_arith);
            }
            row += 1;
        }
        proof {
            let whole = before + grid(config);
            assert(self.bricks@.len() == whole.len());
            assert forall|j: int| 0 <= j < whole.len() implies self.bricks@[j] == whole[j] by {
                if j >= before.len() {
                    let k = j - before.len();
                    assert(self.bricks@[before.len() + k] == grid(config)[k]);
                }
            }
            assert(self.bricks@ =~= whole);
        }
    }

    /// The first stage of a tick: moves the ball by its velocity.
    pub fn advance_ball(&mut self)
        ensures
            final(self)@ =~= old(self)@.moved(),
    {
        self.ball.pos.x = saturating_sum(self.ball.pos.x, self.ball.vel.x);
        self.ball.pos.y = saturating_sum(self.ball.pos.y, self.ball.vel.y);
    }

    /// The second stage of a tick: moves the paddle as the keys say and holds
    /// it inside the window.
    pub fn steer_paddle(&mut self, input: Input)
        ensures
            final(self)@ =~= old(self)@.steered(input),
    {
        let mut x: i128 = self.paddle.pos.x as i128;
        if input.move_left {
            x = x - self.paddle.speed as i128;
        }
        if input.move_right {
            x = x + self.paddle.speed as i128;
        }
        if x < 0 {
            x = 0;
        }
        let rightmost: i128 = self.config.window_width as i128 - self.paddle.size.width as i128;
        if x > rightmost {
            x = rightmost;
        }
        self.paddle.pos.x = narrow(x);
    }

    /// The third stage of a tick: turns the ball round at the side walls and
    /// at the top wall.
    pub fn check_ball_wall_collision(&mut self)
        ensures
            final(self)@ =~= old(self)@.bounced_off_walls(),
    {
        if self.ball.touches_side_wall(self.config.window_width) {
            self.ball.vel.x = negated(self.ball.vel.x);
        }
        if self.ball.touches_top_wall() {
            self.ball.vel.y = negated(self.ball.vel.y);
        }
    }

    /// The fourth stage of a tick: bounces the ball off the paddle, steering
    /// it by the place of the hit, and returns whether it hit.
    pub fn check_ball_paddle_collision(&mut self) -> (hit: bool)
        ensures
            final(self)@ =~= old(self)@.bounced_off_paddle(),
            hit == old(self).ball.meets_paddle(old(self).paddle),
    {
        if self.ball.meets_paddle(self.paddle) {
            let added = steering_of(self.ball, self.paddle, self.config.angle_gain);
            self.ball.vel.y = negated(self.ball.vel.y);
            self.ball.vel.x = narrow(self.ball.vel.x as i128 + added);
            true
        } else {
            false
        }
    }

    /// The sixth stage of a tick: the game is over once the ball's centre is
    /// below the window.
    pub fn check_game_over(&mut self)
        ensures
            final(self)@ =~= old(self)@.judged(),
    {
        if self.ball.pos.y > self.config.window_height {
            self.game_over = true;
        }
    }

    /// One tick. Returns what a player should hear of it.
    pub fn update(&mut self, input: Input) -> (events: TickEvents)
        ensures
            final(self)@ =~= old(self)@.step(input),
            events.paddle_hit == old(self)@.strikes_paddle(input),
            events.bricks_destroyed == old(self)@.breaks(input),
    {
        if !self.game_over {
            self.advance_ball();
            self.steer_paddle(input);
            self.check_ball_wall_collision();
            let paddle_hit = self.check_ball_paddle_collision();
            let bricks_destroyed = self.check_ball_brick_collision();
            self.check_game_over();
            TickEvents { paddle_hit, bricks_destroyed }
        } else {
            if input.restart {
                self.reset();
            }
            TickEvents { paddle_hit: false, bricks_destroyed: 0 }
        }
    }

    /// The fifth stage of a tick: breaks the bricks that the ball overlaps,
    /// turning the ball round at each, and returns how many broke.
    pub fn check_ball_brick_collision(&mut self) -> (destroyed: usize)
        ensures
            final(self)@ =~= old(self)@.cleared(),
            destroyed == old(self)@.bricks.len() - final(self)@.bricks.len(),
    {
        let ball = self.ball;
        let mut vel = self.ball.vel;
        let mut kept: Vec<Brick> = Vec::new();
        let mut destroyed: usize = 0;
        let mut i: usize = 0;
        proof {
            reveal_with_fuel(Seq::filter, 1);
            assert(self.bricks@.take(0) =~= Seq::<Brick>::empty());
        }
        while i < self.bricks.len()
            invariant
                i <= self.bricks.len(),
                kept@ == survivors(ball, self.bricks@.take(i as int)),
                vel == deflected(ball, self.bricks@.take(i as int)),
                destroyed + kept@.len() == i,
            decreases self.bricks.len() - i,
        {
            let brick = self.bricks[i];
            proof {
                lemma_one_more_brick(ball, self.bricks@.take(i as int), brick);
                assert(self.bricks@.take(i as int).push(brick) =~= self.bricks@.take(i + 1));
            }
            if ball.overlaps(brick) {
                if ball.is_beside(brick) {
                    vel.x = negated(vel.x);
                } else {
                    vel.y = negated(vel.y);
                }
                destroyed += 1;
            } else {
                kept.push(brick);
            }
            i += 1;
        }
        proof {
            assert(self.bricks@.take(i as int) =~= self.bricks@);
        }
        self.ball.vel = vel;
        self.bricks = kept;
        destroyed
    }
}

} // verus!
