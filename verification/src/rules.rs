//! The rules of the game as mathematics: what one tick makes of a game.
//!
//! A tick of a running game is six stages in a fixed order: the ball moves,
//! the paddle follows the keys, the ball bounces off the walls, off the
//! paddle and off the bricks it has run into, and at last the game is
//! judged lost if the ball has fallen out of the window. Each stage is a
//! function of the game before it, and [`GameView::step`] is their chain.

use vstd::prelude::*;
use crate::constants::Constants;
use crate::entities::{Ball, Brick, Paddle};
use crate::geometry::{PositionVec2, VelocityVec2};
use crate::scalar::{quotient_towards_zero, saturate};

verus! {

/// The keys that are held during a tick.
#[derive(Clone, Copy, Debug, PartialEq, Eq, Structural)]
pub struct Input {
    pub move_left: bool,
    pub move_right: bool,
    pub restart: bool,
}

/// What a tick did that can be heard.
#[derive(Clone, Copy, Debug, PartialEq, Eq, Structural)]
pub struct TickEvents {
    /// The ball bounced off the paddle.
    pub paddle_hit: bool,
    /// The number of bricks that the ball broke.
    pub bricks_destroyed: usize,
}

/// A game as a mathematical value: the bricks are a sequence.
pub struct GameView {
    pub ball: Ball,
    pub paddle: Paddle,
    pub bricks: Seq<Brick>,
    pub game_over: bool,
    pub config: Constants,
}

/// The brick in row `row` and column `col` of the grid, both counted from 0.
/// Columns are `brick_size.width + brick_padding` apart and start one padding
/// from the left wall; rows are `brick_size.height + brick_padding` apart and
/// start at `brick_offset_top`.
pub open spec fn grid_brick(config: Constants, row: int, col: int) -> Brick {
    Brick {
        pos: PositionVec2 {
            x: saturate(
                col * (config.brick_size.width + config.brick_padding) + config.brick_padding,
            ) as i64,
            y: saturate(
                row * (config.brick_size.height + config.brick_padding) + config.brick_offset_top,
            ) as i64,
        },
        size: config.brick_size,
        color: config.brick_color,
    }
}

/// The full grid, row after row, each row from left to right.
pub open spec fn grid(config: Constants) -> Seq<Brick> {
    Seq::new(
        (config.brick_rows * config.brick_columns) as nat,
        |k: int|
            grid_brick(
                config,
                k / (config.brick_columns as int),
                k % (config.brick_columns as int),
            ),
    )
}

/// `v`, raised to 0 where it is below, then lowered to `hi` where it is above.
/// With `hi` below 0 the result is `hi`.
pub open spec fn raised_then_capped(v: int, hi: int) -> int {
    let raised = if v < 0 { 0 } else { v };
    if raised > hi { hi } else { raised }
}

/// What a hit on the paddle adds to the ball's horizontal speed: `gain` times
/// the distance of the ball's centre from the paddle's middle, counted in half
/// paddle widths, rounded towards zero. A hit on the middle adds nothing, a
/// hit on either end `gain` or its opposite. A paddle without width has
/// nothing but a middle.
pub open spec fn steering(ball: Ball, paddle: Paddle, gain: i64) -> int {
    if paddle.size.width == 0 {
        0
    } else {
        quotient_towards_zero(
            gain * (2 * (ball.pos.x - paddle.pos.x) - paddle.size.width),
            paddle.size.width as int,
        )
    }
}

/// The velocity `v` after the ball `ball` has met `brick`: unchanged where the
/// two do not overlap, turned round horizontally where the ball's centre is
/// beside the brick, and vertically where it is above, below or inside.
pub open spec fn glanced(v: VelocityVec2, ball: Ball, brick: Brick) -> VelocityVec2 {
    if !ball.overlaps(brick) {
        v
    } else if ball.is_beside(brick) {
        VelocityVec2 { x: saturate(-v.x) as i64, y: v.y }
    } else {
        VelocityVec2 { x: v.x, y: saturate(-v.y) as i64 }
    }
}

/// Those of `bricks` that the ball does not overlap, in their order.
pub open spec fn survivors(ball: Ball, bricks: Seq<Brick>) -> Seq<Brick> {
    bricks.filter(|b: Brick| !ball.overlaps(b))
}

/// The ball's velocity after it has met each of `bricks` in turn, first to last.
pub open spec fn deflected(ball: Ball, bricks: Seq<Brick>) -> VelocityVec2
    decreases bricks.len(),
{
    if bricks.len() == 0 {
        ball.vel
    } else {
        glanced(deflected(ball, bricks.drop_last()), ball, bricks.last())
    }
}

impl GameView {
    /// The game that `config` lays out: ball and paddle at their starting
    /// places, the full grid of bricks, not over.
    pub open spec fn initial(config: Constants) -> GameView {
        GameView {
            ball: Ball {
                pos: config.ball_start_pos,
                vel: config.ball_start_vel,
                size: config.ball_size,
            },
            paddle: Paddle {
                pos: config.paddle_start_pos,
                size: config.paddle_size,
                speed: config.paddle_speed,
            },
            bricks: grid(config),
            game_over: false,
            config,
        }
    }

    /// The paddle lies inside the window from side to side.
    pub open spec fn paddle_inside(self) -> bool {
        0 <= self.paddle.pos.x <= self.config.window_width - self.paddle.size.width
    }

    /// First stage: the ball moves by its velocity.
    pub open spec fn moved(self) -> GameView {
        GameView {
            ball: Ball {
                pos: PositionVec2 {
                    x: saturate(self.ball.pos.x + self.ball.vel.x) as i64,
                    y: saturate(self.ball.pos.y + self.ball.vel.y) as i64,
                },
                ..self.ball
            },
            ..self
        }
    }

    /// How far the keys move the paddle before it is held back by the walls.
    /// Both keys together cancel.
    pub open spec fn paddle_shift(self, input: Input) -> int {
        (if input.move_right { self.paddle.speed as int } else { 0 })
            - (if input.move_left { self.paddle.speed as int } else { 0 })
    }

    /// Second stage: the paddle follows the keys and is held inside the window.
    pub open spec fn steered(self, input: Input) -> GameView {
        GameView {
            paddle: Paddle {
                pos: PositionVec2 {
                    x: saturate(
                        raised_then_capped(
                            self.paddle.pos.x + self.paddle_shift(input),
                            self.config.window_width - self.paddle.size.width,
                        ),
                    ) as i64,
                    y: self.paddle.pos.y,
                },
                ..self.paddle
            },
            ..self
        }
    }

    /// Third stage: a ball at a side wall turns round horizontally, a ball at
    /// the top wall vertically; in a corner it does both. There is no bottom
    /// wall.
    pub open spec fn bounced_off_walls(self) -> GameView {
        GameView {
            ball: Ball {
                vel: VelocityVec2 {
                    x: if self.ball.touches_side_wall(self.config.window_width) {
                        saturate(-self.ball.vel.x) as i64
                    } else {
                        self.ball.vel.x
                    },
                    y: if self.ball.touches_top_wall() {
                        saturate(-self.ball.vel.y) as i64
                    } else {
                        self.ball.vel.y
                    },
                },
                ..self.ball
            },
            ..self
        }
    }

    /// Fourth stage: a ball that meets the paddle turns round vertically and
    /// is steered by the place of the hit.
    pub open spec fn bounced_off_paddle(self) -> GameView {
        if self.ball.meets_paddle(self.paddle) {
            GameView {
                ball: Ball {
                    vel: VelocityVec2 {
                        x: saturate(
                            self.ball.vel.x + steering(
                                self.ball,
                                self.paddle,
                                self.config.angle_gain,
                            ),
                        ) as i64,
                        y: saturate(-self.ball.vel.y) as i64,
                    },
                    ..self.ball
                },
                ..self
            }
        } else {
            self
        }
    }

    /// Fifth stage: every brick that the ball overlaps turns the ball round,
    /// one after the other in the order of the collection, and is gone; the
    /// others stay, in their order.
    pub open spec fn cleared(self) -> GameView {
        GameView {
            ball: Ball { vel: deflected(self.ball, self.bricks), ..self.ball },
            bricks: survivors(self.ball, self.bricks),
            ..self
        }
    }

    /// Sixth stage: the game is over once the ball's centre is below the window.
    pub open spec fn judged(self) -> GameView {
        if self.ball.pos.y > self.config.window_height {
            GameView { game_over: true, ..self }
        } else {
            self
        }
    }

    /// A running game at the moment the paddle is tested: after the first
    /// three stages.
    pub open spec fn at_paddle(self, input: Input) -> GameView {
        self.moved().steered(input).bounced_off_walls()
    }

    /// A running game at the moment the bricks are tested: after the first
    /// four stages.
    pub open spec fn at_bricks(self, input: Input) -> GameView {
        self.at_paddle(input).bounced_off_paddle()
    }

    /// One tick. A running game goes through the six stages. A game that is
    /// over stands still until `restart` is held, and then starts anew.
    pub open spec fn step(self, input: Input) -> GameView {
        if self.game_over {
            if input.restart {
                GameView::initial(self.config)
            } else {
                self
            }
        } else {
            self.at_bricks(input).cleared().judged()
        }
    }

    /// The ball of a running game, once moved, touches nothing this tick:
    /// no wall, not the paddle where the keys have put it, and no brick.
    pub open spec fn flies_free(self, input: Input) -> bool {
        let met = self.moved().steered(input);
        &&& !met.ball.touches_side_wall(self.config.window_width)
        &&& !met.ball.touches_top_wall()
        &&& !met.ball.meets_paddle(met.paddle)
        &&& forall|i: int|
            0 <= i < self.bricks.len() ==> !met.ball.overlaps(#[trigger] self.bricks[i])
    }

    /// Whether the tick bounces the ball off the paddle.
    pub open spec fn strikes_paddle(self, input: Input) -> bool {
        !self.game_over && self.at_paddle(input).ball.meets_paddle(self.at_paddle(input).paddle)
    }

    /// The number of bricks that the tick breaks.
    pub open spec fn breaks(self, input: Input) -> int {
        if self.game_over {
            0
        } else {
            self.at_bricks(input).bricks.len() - self.at_bricks(input).cleared().bricks.len()
        }
    }

    /// The game after one tick for each of `inputs`, first to last.
    pub open spec fn run(self, inputs: Seq<Input>) -> GameView
        decreases inputs.len(),
    {
        if inputs.len() == 0 {
            self
        } else {
            self.run(inputs.drop_last()).step(inputs.last())
        }
    }
}

} // verus!
