//! What holds of every game, proved from the rules.

use vstd::prelude::*;
use crate::constants::Constants;
use crate::entities::{Ball, Brick, Paddle};
use crate::rules::{deflected, glanced, grid, grid_brick, steering, survivors, GameView, Input};
use crate::scalar::{quotient_towards_zero, saturate};
use vstd::arithmetic::div_mod::lemma_fundamental_div_mod_converse;

verus! {

/// One more brick at the end of the collection is met last, and stays if the
/// ball does not overlap it.
pub proof fn lemma_one_more_brick(ball: Ball, bricks: Seq<Brick>, brick: Brick)
    ensures
        deflected(ball, bricks.push(brick)) == glanced(deflected(ball, bricks), ball, brick),
        survivors(ball, bricks.push(brick)) == if ball.overlaps(brick) {
            survivors(ball, bricks)
        } else {
            survivors(ball, bricks).push(brick)
        },
{
    reveal_with_fuel(Seq::filter, 2);
    assert(bricks.push(brick).drop_last() =~= bricks);
}

/// A ball that overlaps none of the bricks keeps its velocity, and all the
/// bricks stay as they are.
pub proof fn lemma_no_overlap_no_change(ball: Ball, bricks: Seq<Brick>)
    requires
        forall|i: int| 0 <= i < bricks.len() ==> !ball.overlaps(#[trigger] bricks[i]),
    ensures
        deflected(ball, bricks) == ball.vel,
        survivors(ball, bricks) == bricks,
    decreases bricks.len(),
{
    if bricks.len() == 0 {
        reveal_with_fuel(Seq::filter, 1);
    } else {
        let front = bricks.drop_last();
        assert forall|i: int| 0 <= i < front.len() implies !ball.overlaps(#[trigger] front[i]) by {
            assert(front[i] == bricks[i]);
        }
        lemma_no_overlap_no_change(ball, front);
        lemma_one_more_brick(ball, front, bricks.last());
        assert(front.push(bricks.last()) =~= bricks);
    }
}

/// After the bricks are cleared, the ball overlaps none of those that are
/// left; every brick that it did not overlap is still there, unchanged; and
/// the ball is where it was.
pub proof fn lemma_cleared(s: GameView)
    ensures
        s.cleared().ball.pos == s.ball.pos,
        s.cleared().ball.size == s.ball.size,
        s.cleared().bricks.len() <= s.bricks.len(),
        forall|j: int|
            0 <= j < s.cleared().bricks.len() ==> {
                &&& !s.cleared().ball.overlaps(#[trigger] s.cleared().bricks[j])
                &&& s.bricks.contains(s.cleared().bricks[j])
            },
        forall|i: int|
            0 <= i < s.bricks.len() ==> (s.cleared().bricks.contains(#[trigger] s.bricks[i])
                <==> !s.ball.overlaps(s.bricks[i])),
{
    let keep = |b: Brick| !s.ball.overlaps(b);
    let left = s.bricks.filter(keep);
    assert(left == s.cleared().bricks);
    s.bricks.lemma_filter_len(keep);
    assert forall|j: int| 0 <= j < left.len() implies {
        &&& !s.cleared().ball.overlaps(#[trigger] left[j])
        &&& s.bricks.contains(left[j])
    } by {
        s.bricks.lemma_filter_pred(keep, j);
        s.bricks.lemma_filter_contains_rev(keep, left[j]);
    }
    assert forall|i: int| 0 <= i < s.bricks.len() implies (left.contains(#[trigger] s.bricks[i])
        <==> !s.ball.overlaps(s.bricks[i])) by {
        if keep(s.bricks[i]) {
            s.bricks.lemma_filter_contains(keep, i);
        }
        if left.contains(s.bricks[i]) {
            let j = choose|j: int| 0 <= j < left.len() && left[j] == s.bricks[i];
            s.bricks.lemma_filter_pred(keep, j);
        }
    }
}

/// After a tick of a running game the ball overlaps no brick of the
/// collection.
pub proof fn lemma_tick_leaves_no_overlap(s: GameView, input: Input)
    requires
        !s.game_over,
    ensures
        forall|j: int|
            0 <= j < s.step(input).bricks.len() ==> !s.step(input).ball.overlaps(
                #[trigger] s.step(input).bricks[j],
            ),
{
    lemma_cleared(s.at_bricks(input));
}

/// A ball at a side wall leaves the wall stage with its horizontal velocity
/// turned round: the same speed, the other sign. A ball that came towards
/// the left moves to the right afterwards. (The least value of the 64-bit
/// range has no opposite and becomes the greatest.)
pub proof fn lemma_side_wall_turns_ball(s: GameView)
    requires
        s.ball.touches_side_wall(s.config.window_width),
    ensures
        s.ball.vel.x > i64::MIN ==> s.bounced_off_walls().ball.vel.x == -s.ball.vel.x,
        s.ball.vel.x < 0 ==> s.bounced_off_walls().ball.vel.x > 0,
        s.ball.vel.x > 0 ==> s.bounced_off_walls().ball.vel.x < 0,
        s.bounced_off_walls().ball.pos == s.ball.pos,
{
}

/// A ball at the top wall leaves the wall stage with its vertical velocity
/// turned round.
pub proof fn lemma_top_wall_turns_ball(s: GameView)
    requires
        s.ball.touches_top_wall(),
    ensures
        s.ball.vel.y > i64::MIN ==> s.bounced_off_walls().ball.vel.y == -s.ball.vel.y,
        s.ball.vel.y < 0 ==> s.bounced_off_walls().ball.vel.y > 0,
        s.bounced_off_walls().ball.pos == s.ball.pos,
{
}

/// One tick of a running game whose ball has its left edge at or beyond the
/// left wall, before its move or after it, and meets neither paddle nor
/// brick: a ball that moved to the left moves to the right afterwards, at the
/// same speed.
pub proof fn lemma_tick_at_left_wall(s: GameView, input: Input)
    requires
        !s.game_over,
        s.ball.left2() <= 0 || s.moved().ball.left2() <= 0,
        s.ball.vel.x < 0,
        !s.moved().ball.meets_paddle(s.moved().steered(input).paddle),
        forall|i: int| 0 <= i < s.bricks.len() ==> !s.moved().ball.overlaps(#[trigger] s.bricks[i]),
    ensures
        s.step(input).ball.vel.x > 0,
        s.ball.vel.x > i64::MIN ==> s.step(input).ball.vel.x == -s.ball.vel.x,
        s.step(input).ball.pos == s.moved().ball.pos,
{
    let t = s.at_bricks(input);
    lemma_no_overlap_no_change(t.ball, t.bricks);
}

/// A tick of a running game leaves the paddle inside the window, whatever
/// the keys, if the paddle is no wider than the window.
pub proof fn lemma_paddle_held_inside(s: GameView, input: Input)
    requires
        !s.game_over,
        s.paddle.size.width <= s.config.window_width,
    ensures
        s.step(input).paddle_inside(),
        s.step(input).paddle.size == s.paddle.size,
        s.step(input).config == s.config,
{
}

/// A paddle that is inside the window stays inside through any number of
/// ticks, whatever the keys, in a game whose configuration starts it inside.
pub proof fn lemma_paddle_stays_inside(s: GameView, inputs: Seq<Input>)
    requires
        s.paddle_inside(),
        s.config.paddle_starts_inside(),
    ensures
        s.run(inputs).paddle_inside(),
        s.run(inputs).config == s.config,
    decreases inputs.len(),
{
    if inputs.len() > 0 {
        lemma_paddle_stays_inside(s, inputs.drop_last());
        let before = s.run(inputs.drop_last());
        if !before.game_over {
            lemma_paddle_held_inside(before, inputs.last());
        }
    }
}

/// A tick in which the ball touches nothing only moves the ball by its
/// velocity: the velocity, the bricks and the sizes are as before.
pub proof fn lemma_free_flight(s: GameView, input: Input)
    requires
        !s.game_over,
        s.flies_free(input),
    ensures
        s.step(input).ball.vel == s.ball.vel,
        s.step(input).ball.size == s.ball.size,
        s.step(input).ball.pos.x == saturate(s.ball.pos.x + s.ball.vel.x),
        s.step(input).ball.pos.y == saturate(s.ball.pos.y + s.ball.vel.y),
        s.step(input).bricks == s.bricks,
        s.step(input).config == s.config,
        !s.strikes_paddle(input),
        s.breaks(input) == 0,
{
    let t = s.at_bricks(input);
    lemma_no_overlap_no_change(t.ball, t.bricks);
}

/// The ball touches nothing in any of the ticks that `inputs` stands for,
/// and the game is running at each.
pub open spec fn flies_free_throughout(s: GameView, inputs: Seq<Input>) -> bool {
    forall|k: int|
        0 <= k < inputs.len() ==> {
            &&& !(#[trigger] s.run(inputs.take(k))).game_over
            &&& s.run(inputs.take(k)).flies_free(inputs[k])
        }
}

/// Ticks in which the ball touches nothing only move the ball: after any
/// number of them the velocity and the bricks are as at the start, and the
/// ball has moved by that number of velocities, as long as this stays in the
/// 64-bit range.
pub proof fn lemma_free_flight_repeated(s: GameView, inputs: Seq<Input>)
    requires
        flies_free_throughout(s, inputs),
    ensures
        s.run(inputs).ball.vel == s.ball.vel,
        s.run(inputs).ball.size == s.ball.size,
        s.run(inputs).bricks == s.bricks,
        i64::MIN <= s.ball.pos.x + inputs.len() * s.ball.vel.x <= i64::MAX ==> s.run(
            inputs,
        ).ball.pos.x == s.ball.pos.x + inputs.len() * s.ball.vel.x,
        i64::MIN <= s.ball.pos.y + inputs.len() * s.ball.vel.y <= i64::MAX ==> s.run(
            inputs,
        ).ball.pos.y == s.ball.pos.y + inputs.len() * s.ball.vel.y,
    decreases inputs.len(),
{
    if inputs.len() > 0 {
        let n = inputs.len() as int;
        let front = inputs.drop_last();
        assert forall|k: int| 0 <= k < front.len() implies {
            &&& !(#[trigger] s.run(front.take(k))).game_over
            &&& s.run(front.take(k)).flies_free(front[k])
        } by {
            assert(front.take(k) =~= inputs.take(k));
            assert(!s.run(inputs.take(k)).game_over);
        }
        lemma_free_flight_repeated(s, front);
        let before = s.run(front);
        assert(inputs.take(n - 1) =~= front);
        assert(!s.run(inputs.take(n - 1)).game_over);
        lemma_free_flight(before, inputs.last());
        lemma_between(s.ball.pos.x as int, s.ball.vel.x as int, n);
        lemma_between(s.ball.pos.y as int, s.ball.vel.y as int, n);
    }
}

/// On the way from `p` to `p + n * v` in equal steps, the last stop before
/// the end lies between the two.
proof fn lemma_between(p: int, v: int, n: int)
    requires
        n >= 1,
    ensures
        (n - 1) * v + v == n * v,
        p <= p + (n - 1) * v <= p + n * v || p >= p + (n - 1) * v >= p + n * v,
{
    assert((n - 1) * v + v == n * v) by (nonlinear_arith);
    if v >= 0 {
        assert((n - 1) * v >= 0) by (nonlinear_arith)
            requires
                n >= 1,
                v >= 0,
        ;
    } else {
        assert((n - 1) * v <= 0) by (nonlinear_arith)
            requires
                n >= 1,
                v < 0,
        ;
    }
}

/// A game that is over stands still for as long as `restart` is not held.
pub proof fn lemma_game_over_stands_still(s: GameView, inputs: Seq<Input>)
    requires
        s.game_over,
        forall|k: int| 0 <= k < inputs.len() ==> !(#[trigger] inputs[k]).restart,
    ensures
        s.run(inputs) == s,
    decreases inputs.len(),
{
    if inputs.len() > 0 {
        let front = inputs.drop_last();
        assert forall|k: int| 0 <= k < front.len() implies !(#[trigger] front[k]).restart by {
            assert(front[k] == inputs[k]);
        }
        lemma_game_over_stands_still(s, front);
    }
}

/// A game that is over starts anew on the tick in which `restart` is held,
/// and a running game takes no notice of that key.
pub proof fn lemma_restart(s: GameView, input: Input)
    ensures
        s.game_over && input.restart ==> s.step(input) == GameView::initial(s.config),
        !s.game_over ==> s.step(input) == s.step(Input { restart: !input.restart, ..input }),
{
}

/// The game is over after a tick exactly if it was over before and is not
/// started anew, or if the running ball's centre has come below the window.
pub proof fn lemma_loss(s: GameView, input: Input)
    ensures
        s.step(input).game_over <==> if s.game_over {
            !input.restart
        } else {
            saturate(s.ball.pos.y + s.ball.vel.y) > s.config.window_height
        },
{
}

/// A new game has one brick for each place of the grid, and the brick of row
/// `row` and column `col` stands at the place `row * brick_columns + col` of
/// the collection.
pub proof fn lemma_grid_layout(config: Constants, row: int, col: int)
    requires
        0 <= row < config.brick_rows,
        0 <= col < config.brick_columns,
    ensures
        grid(config).len() == config.brick_rows * config.brick_columns,
        0 <= row * config.brick_columns + col < grid(config).len(),
        grid(config)[row * config.brick_columns + col] == grid_brick(config, row, col),
        GameView::initial(config).bricks == grid(config),
{
    let rows = config.brick_rows as int;
    let columns = config.brick_columns as int;
    assert(rows * columns >= 0) by (nonlinear_arith)
        requires
            rows >= 0,
            columns >= 0,
    ;
    assert(0 <= row * columns + col < rows * columns) by (nonlinear_arith)
        requires
            0 <= row < rows,
            0 <= col < columns,
    ;
    lemma_fundamental_div_mod_converse(row * columns + col, columns, row, col);
}

/// A hit on the paddle never adds more to the ball's horizontal speed than
/// the gain, in either direction. A hit on the middle adds nothing, a hit on
/// the right end of a paddle that has a width adds the gain, and a hit on its
/// left end takes the gain away.
pub proof fn lemma_steering_bounded(ball: Ball, paddle: Paddle, gain: i64)
    requires
        ball.meets_paddle(paddle),
    ensures
        gain >= 0 ==> -gain <= steering(ball, paddle, gain) <= gain,
        gain <= 0 ==> gain <= steering(ball, paddle, gain) <= -gain,
        2 * (ball.pos.x - paddle.pos.x) == paddle.size.width ==> steering(ball, paddle, gain) == 0,
        paddle.size.width > 0 && ball.pos.x == paddle.pos.x + paddle.size.width ==> steering(
            ball,
            paddle,
            gain,
        ) == gain,
        paddle.size.width > 0 && ball.pos.x == paddle.pos.x ==> steering(ball, paddle, gain)
            == -gain,
{
    let w = paddle.size.width as int;
    if w != 0 {
        let from_middle = 2 * (ball.pos.x - paddle.pos.x) - w;
        lemma_quotient_of_multiple(gain as int, from_middle, w);
    }
}

/// The quotient of `g * m` by `w`, rounded towards zero, is no further from
/// zero than `g`, where `m` is no further from zero than `w`.
proof fn lemma_quotient_of_multiple(g: int, m: int, w: int)
    requires
        w > 0,
        -w <= m <= w,
    ensures
        g >= 0 ==> -g <= quotient_towards_zero(g * m, w) <= g,
        g <= 0 ==> g <= quotient_towards_zero(g * m, w) <= -g,
        m == 0 ==> quotient_towards_zero(g * m, w) == 0,
        m == w ==> quotient_towards_zero(g * m, w) == g,
        m == -w ==> quotient_towards_zero(g * m, w) == -g,
{
    let n = g * m;
    if m == w || m == -w {
        // Either way the dividend is `w` times `g` or its opposite.
        let h = if m == w { g } else { -g };
        assert(n == h * w && -n == (-h) * w) by (nonlinear_arith)
            requires
                n == g * m,
                m == w && h == g || m == -w && h == -g,
        ;
        assert((h * w) / w == h && ((-h) * w) / w == -h) by (nonlinear_arith)
            requires
                w > 0,
        ;
        assert(h >= 0 <==> n >= 0) by (nonlinear_arith)
            requires
                n == h * w,
                w > 0,
        ;
    }
    let a = if g >= 0 { g } else { -g };
    assert(-(a * w) <= n <= a * w) by (nonlinear_arith)
        requires
            n == g * m,
            -w <= m <= w,
            w > 0,
            a >= 0,
            a == g || a == -g,
    ;
    if n >= 0 {
        assert(n / w <= a) by (nonlinear_arith)
            requires
                0 <= n <= a * w,
                w > 0,
        ;
        assert(n / w >= 0) by (nonlinear_arith)
            requires
                0 <= n,
                w > 0,
        ;
    } else {
        let k = -n;
        assert(k / w <= a) by (nonlinear_arith)
            requires
                0 <= k <= a * w,
                w > 0,
        ;
        assert(k / w >= 0) by (nonlinear_arith)
            requires
                0 <= k,
                w > 0,
        ;
    }
    if m == 0 {
        assert(n == 0) by (nonlinear_arith)
            requires
                n == g * m,
                m == 0,
        ;
    }
}

} // verus!
