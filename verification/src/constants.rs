//! The configuration of a game: fixed when the game is made, never changed by it.

use vstd::prelude::*;
use crate::geometry::{PositionVec2, SizeVec2, VelocityVec2};
use crate::scalar::{saturate, saturating_product};

verus! {

/// A colour as four channels. The engine hands it through to whoever draws.
#[derive(Clone, Copy, Debug, PartialEq, Eq, Structural)]
pub struct Rgba {
    pub r: u8,
    pub g: u8,
    pub b: u8,
    pub a: u8,
}

/// Everything a game is laid out by.
#[derive(Clone, Copy, Debug, PartialEq, Eq, Structural)]
pub struct Constants {
    // Window dimensions
    pub window_width: i64,
    pub window_height: i64,
    // Ball constants
    pub ball_start_pos: PositionVec2,
    pub ball_start_vel: VelocityVec2,
    pub ball_size: SizeVec2,
    // Paddle constants
    pub paddle_start_pos: PositionVec2,
    pub paddle_size: SizeVec2,
    pub paddle_speed: i64,
    /// What a hit on the very end of the paddle adds to the ball's horizontal
    /// speed; a hit nearer the middle adds in proportion.
    pub angle_gain: i64,
    // Brick constants
    pub brick_rows: usize,
    pub brick_columns: usize,
    pub brick_size: SizeVec2,
    pub brick_padding: i64,
    pub brick_offset_top: i64,
    /// Every brick has this colour.
    pub brick_color: Rgba,
}

impl Constants {
    /// The standard game: a window of 800 by 600 and five rows of ten bricks,
    /// with a pixel as the unit.
    pub open spec fn standard() -> Constants {
        Constants {
            window_width: 800,
            window_height: 600,
            ball_start_pos: PositionVec2 { x: 400, y: 300 },
            ball_start_vel: VelocityVec2 { x: 5, y: (-5) as i64 },
            ball_size: SizeVec2 { width: 10, height: 10 },
            paddle_start_pos: PositionVec2 { x: 350, y: 550 },
            paddle_size: SizeVec2 { width: 100, height: 20 },
            paddle_speed: 10,
            angle_gain: 2,
            brick_rows: 5,
            brick_columns: 10,
            brick_size: SizeVec2 { width: 70, height: 20 },
            brick_padding: 10,
            brick_offset_top: 50,
            brick_color: Rgba { r: 255, g: 0, b: 0, a: 255 },
        }
    }

    /// Whether the paddle's starting place lies inside the window.
    pub open spec fn paddle_starts_inside(self) -> bool {
        0 <= self.paddle_start_pos.x <= self.window_width - self.paddle_size.width
    }

    /// The same layout in a unit that is `factor` times finer: every length,
    /// place and speed is multiplied by `factor`, the counts of rows and
    /// columns and the colour stay.
    pub open spec fn spec_scaled(self, factor: i64) -> Constants {
        Constants {
            window_width: saturate(self.window_width * factor) as i64,
            window_height: saturate(self.window_height * factor) as i64,
            ball_start_pos: PositionVec2 {
                x: saturate(self.ball_start_pos.x * factor) as i64,
                y: saturate(self.ball_start_pos.y * factor) as i64,
            },
            ball_start_vel: VelocityVec2 {
                x: saturate(self.ball_start_vel.x * factor) as i64,
                y: saturate(self.ball_start_vel.y * factor) as i64,
            },
            ball_size: SizeVec2 {
                width: saturate(self.ball_size.width * factor) as i64,
                height: saturate(self.ball_size.height * factor) as i64,
            },
            paddle_start_pos: PositionVec2 {
                x: saturate(self.paddle_start_pos.x * factor) as i64,
                y: saturate(self.paddle_start_pos.y * factor) as i64,
            },
            paddle_size: SizeVec2 {
                width: saturate(self.paddle_size.width * factor) as i64,
                height: saturate(self.paddle_size.height * factor) as i64,
            },
            paddle_speed: saturate(self.paddle_speed * factor) as i64,
            angle_gain: saturate(self.angle_gain * factor) as i64,
            brick_rows: self.brick_rows,
            brick_columns: self.brick_columns,
            brick_size: SizeVec2 {
                width: saturate(self.brick_size.width * factor) as i64,
                height: saturate(self.brick_size.height * factor) as i64,
            },
            brick_padding: saturate(self.brick_padding * factor) as i64,
            brick_offset_top: saturate(self.brick_offset_top * factor) as i64,
            brick_color: self.brick_color,
        }
    }

    /// The same layout in a unit that is `factor` times finer. With a pixel
    /// as the unit the paddle steers the ball in whole pixels per tick; a
    /// finer unit makes the steering finer.
    #[verifier::when_used_as_spec(spec_scaled)]
    pub fn scaled(self, factor: i64) -> (c: Constants)
        ensures
            c == self.spec_scaled(factor),
            factor == 1 ==> c == self,
    {
        Constants {
            window_width: saturating_product(self.window_width, factor),
            window_height: saturating_product(self.window_height, factor),
            ball_start_pos: PositionVec2::new(
                saturating_product(self.ball_start_pos.x, factor),
                saturating_product(self.ball_start_pos.y, factor),
            ),
            ball_start_vel: VelocityVec2::new(
                saturating_product(self.ball_start_vel.x, factor),
                saturating_product(self.ball_start_vel.y, factor),
            ),
            ball_size: SizeVec2::new(
                saturating_product(self.ball_size.width, factor),
                saturating_product(self.ball_size.height, factor),
            ),
            paddle_start_pos: PositionVec2::new(
                saturating_product(self.paddle_start_pos.x, factor),
                saturating_product(self.paddle_start_pos.y, factor),
            ),
            paddle_size: SizeVec2::new(
                saturating_product(self.paddle_size.width, factor),
                saturating_product(self.paddle_size.height, factor),
            ),
            paddle_speed: saturating_product(self.paddle_speed, factor),
            angle_gain: saturating_product(self.angle_gain, factor),
            brick_rows: self.brick_rows,
            brick_columns: self.brick_columns,
            brick_size: SizeVec2::new(
                saturating_product(self.brick_size.width, factor),
                saturating_product(self.brick_size.height, factor),
            ),
            brick_padding: saturating_product(self.brick_padding, factor),
            brick_offset_top: saturating_product(self.brick_offset_top, factor),
            brick_color: self.brick_color,
        }
    }

    pub fn new() -> (c: Self)
        ensures
            c == Constants::standard(),
    {
        Constants {
            window_width: 800,
            window_height: 600,
            ball_start_pos: PositionVec2::new(400, 300),
            ball_start_vel: VelocityVec2::new(5, -5),
            ball_size: SizeVec2::new(10, 10),
            paddle_start_pos: PositionVec2::new(350, 550),
            paddle_size: SizeVec2::new(100, 20),
            paddle_speed: 10,
            angle_gain: 2,
            brick_rows: 5,
            brick_columns: 10,
            brick_size: SizeVec2::new(70, 20),
            brick_padding: 10,
            brick_offset_top: 50,
            brick_color: Rgba { r: 255, g: 0, b: 0, a: 255 },
        }
    }
}

} // verus!
