//! The ball, the paddle and the bricks, and the tests that the engine makes
//! on their outlines.
//!
//! The ball is placed by its centre, so its edges lie half a size away from
//! its position. To keep an odd size exact, every test on the ball's edges is
//! made on twice the edge.

use vstd::prelude::*;
use crate::constants::Rgba;
use crate::geometry::{PositionVec2, SizeVec2, VelocityVec2};

verus! {

/// The ball. `pos` is its centre.
#[derive(Clone, Copy, Debug, PartialEq, Eq, Structural)]
pub struct Ball {
    pub pos: PositionVec2,
    pub vel: VelocityVec2,
    pub size: SizeVec2,
}

/// The paddle. `pos` is its top-left corner, `speed` what one tick with a key
/// held moves it by.
#[derive(Clone, Copy, Debug, PartialEq, Eq, Structural)]
pub struct Paddle {
    pub pos: PositionVec2,
    pub size: SizeVec2,
    pub speed: i64,
}

/// A brick. `pos` is its top-left corner.
#[derive(Clone, Copy, Debug, PartialEq, Eq, Structural)]
pub struct Brick {
    pub pos: PositionVec2,
    pub size: SizeVec2,
    pub color: Rgba,
}

impl Ball {
    /// Twice the x coordinate of the left edge.
    pub open spec fn left2(self) -> int {
        2 * self.pos.x - self.size.width
    }

    /// Twice the x coordinate of the right edge.
    pub open spec fn right2(self) -> int {
        2 * self.pos.x + self.size.width
    }

    /// Twice the y coordinate of the top edge.
    pub open spec fn top2(self) -> int {
        2 * self.pos.y - self.size.height
    }

    /// Twice the y coordinate of the bottom edge.
    pub open spec fn bottom2(self) -> int {
        2 * self.pos.y + self.size.height
    }

    /// The left edge is at or beyond the left wall, or the right edge at or
    /// beyond the right wall of a window that is `window_width` wide.
    pub open spec fn spec_touches_side_wall(self, window_width: i64) -> bool {
        self.left2() <= 0 || self.right2() >= 2 * window_width
    }

    /// The top edge is at or beyond the top wall.
    pub open spec fn spec_touches_top_wall(self) -> bool {
        self.top2() <= 0
    }

    /// The ball's bottom edge has reached the paddle's top, with the ball's
    /// centre over the paddle. Only the centre counts, not the ball's width.
    pub open spec fn spec_meets_paddle(self, paddle: Paddle) -> bool {
        &&& self.bottom2() >= 2 * paddle.pos.y
        &&& paddle.pos.x <= self.pos.x
        &&& self.pos.x <= paddle.pos.x + paddle.size.width
    }

    /// The outlines of ball and brick share an area: all four inequalities are
    /// strict, so outlines that only touch do not overlap.
    pub open spec fn spec_overlaps(self, brick: Brick) -> bool {
        &&& self.right2() > 2 * brick.pos.x
        &&& self.left2() < 2 * (brick.pos.x + brick.size.width)
        &&& self.bottom2() > 2 * brick.pos.y
        &&& self.top2() < 2 * (brick.pos.y + brick.size.height)
    }

    /// The ball's centre lies to the left or to the right of the brick: a hit
    /// from there is a hit on the brick's side.
    pub open spec fn spec_is_beside(self, brick: Brick) -> bool {
        self.pos.x < brick.pos.x || self.pos.x > brick.pos.x + brick.size.width
    }

    #[verifier::when_used_as_spec(spec_touches_side_wall)]
    pub fn touches_side_wall(self, window_width: i64) -> (hit: bool)
        ensures
            hit == self.spec_touches_side_wall(window_width),
    {
        let x2: i128 = 2 * (self.pos.x as i128);
        let w: i128 = self.size.width as i128;
        x2 - w <= 0 || x2 + w >= 2 * (window_width as i128)
    }

    #[verifier::when_used_as_spec(spec_touches_top_wall)]
    pub fn touches_top_wall(self) -> (hit: bool)
        ensures
            hit == self.spec_touches_top_wall(),
    {
        2 * (self.pos.y as i128) - (self.size.height as i128) <= 0
    }

    #[verifier::when_used_as_spec(spec_meets_paddle)]
    pub fn meets_paddle(self, paddle: Paddle) -> (hit: bool)
        ensures
            hit == self.spec_meets_paddle(paddle),
    {
        let bottom2: i128 = 2 * (self.pos.y as i128) + (self.size.height as i128);
        let x: i128 = self.pos.x as i128;
        let paddle_left: i128 = paddle.pos.x as i128;
        let paddle_right: i128 = paddle_left + (paddle.size.width as i128);
        bottom2 >= 2 * (paddle.pos.y as i128) && paddle_left <= x && x <= paddle_right
    }

    #[verifier::when_used_as_spec(spec_overlaps)]
    pub fn overlaps(self, brick: Brick) -> (hit: bool)
        ensures
            hit == self.spec_overlaps(brick),
    {
        let x2: i128 = 2 * (self.pos.x as i128);
        let y2: i128 = 2 * (self.pos.y as i128);
        let w: i128 = self.size.width as i128;
        let h: i128 = self.size.height as i128;
        let brick_left: i128 = brick.pos.x as i128;
        let brick_top: i128 = brick.pos.y as i128;
        let brick_right: i128 = brick_left + (brick.size.width as i128);
        let brick_bottom: i128 = brick_top + (brick.size.height as i128);
        x2 + w > 2 * brick_left && x2 - w < 2 * brick_right && y2 + h > 2 * brick_top && y2 - h
            < 2 * brick_bottom
    }

    #[verifier::when_used_as_spec(spec_is_beside)]
    pub fn is_beside(self, brick: Brick) -> (beside: bool)
        ensures
            beside == self.spec_is_beside(brick),
    {
        let x: i128 = self.pos.x as i128;
        let brick_left: i128 = brick.pos.x as i128;
        x < brick_left || x > brick_left + (brick.size.width as i128)
    }
}

} // verus!
