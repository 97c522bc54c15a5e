use breakout::{
    Ball, Brick, Constants, GameState, Input, Paddle, PositionVec2, Rgba, SizeVec2, VelocityVec2,
};

#[test]
fn standard_constants() {
    let c = Constants::new();
    assert_eq!(c.window_width, 800);
    assert_eq!(c.window_height, 600);
    assert_eq!(c.ball_start_pos, PositionVec2::new(400, 300));
    assert_eq!(c.ball_start_vel, VelocityVec2::new(5, -5));
    assert_eq!(c.ball_size, SizeVec2::new(10, 10));
    assert_eq!(c.paddle_start_pos, PositionVec2::new(350, 550));
    assert_eq!(c.paddle_size, SizeVec2::new(100, 20));
    assert_eq!(c.paddle_speed, 10);
    assert_eq!(c.angle_gain, 2);
    assert_eq!(c.brick_rows, 5);
    assert_eq!(c.brick_columns, 10);
    assert_eq!(c.brick_size, SizeVec2::new(70, 20));
    assert_eq!(c.brick_padding, 10);
    assert_eq!(c.brick_offset_top, 50);
}

#[test]
fn pairs_hold_what_they_are_made_of() {
    let p = PositionVec2::new(1, -2);
    assert_eq!((p.x, p.y), (1, -2));
    let s = SizeVec2::new(3, 4);
    assert_eq!((s.width, s.height), (3, 4));
    let v = VelocityVec2::new(-5, 6);
    assert_eq!((v.x, v.y), (-5, 6));
}

#[test]
fn new_game_starts_as_configured() {
    let c = Constants::new();
    let game = GameState::new(c);
    assert_eq!(
        game.ball,
        Ball {
            pos: PositionVec2::new(400, 300),
            vel: VelocityVec2::new(5, -5),
            size: SizeVec2::new(10, 10),
        }
    );
    assert_eq!(
        game.paddle,
        Paddle {
            pos: PositionVec2::new(350, 550),
            size: SizeVec2::new(100, 20),
            speed: 10,
        }
    );
    assert!(!game.game_over);
    assert_eq!(game.config, c);
    assert_eq!(game.bricks.len(), 50);
}

#[test]
fn new_game_has_the_grid() {
    let c = Constants::new();
    let game = GameState::new(c);
    for row in 0..5 {
        for col in 0..10 {
            let brick = game.bricks[row * 10 + col];
            assert_eq!(
                brick,
                Brick {
                    pos: PositionVec2::new(col as i64 * 80 + 10, row as i64 * 30 + 50),
                    size: SizeVec2::new(70, 20),
                    color: c.brick_color,
                }
            );
        }
    }
    assert_eq!(game.bricks[0].pos, PositionVec2::new(10, 50));
    assert_eq!(game.bricks[13].pos, PositionVec2::new(250, 80));
    assert_eq!(game.bricks[49].pos, PositionVec2::new(730, 170));
}

#[test]
fn grid_of_another_shape() {
    let mut c = Constants::new();
    c.brick_rows = 2;
    c.brick_columns = 3;
    c.brick_size = SizeVec2::new(7, 5);
    c.brick_padding = -1;
    c.brick_offset_top = 4;
    c.brick_color = Rgba { r: 9, g: 8, b: 7, a: 6 };
    let game = GameState::new(c);
    let places: Vec<(i64, i64)> = game.bricks.iter().map(|b| (b.pos.x, b.pos.y)).collect();
    assert_eq!(places, vec![(-1, 4), (5, 4), (11, 4), (-1, 8), (5, 8), (11, 8)]);
    for brick in game.bricks.iter() {
        assert_eq!(brick.size, SizeVec2::new(7, 5));
        assert_eq!(brick.color, Rgba { r: 9, g: 8, b: 7, a: 6 });
    }
}

#[test]
fn grid_without_rows_or_columns_is_empty() {
    let mut c = Constants::new();
    c.brick_rows = 0;
    assert!(GameState::new(c).bricks.is_empty());
    let mut c = Constants::new();
    c.brick_columns = 0;
    assert!(GameState::new(c).bricks.is_empty());
}

#[test]
fn grid_places_stop_at_the_end_of_the_range() {
    let mut c = Constants::new();
    c.brick_rows = 3;
    c.brick_columns = 3;
    c.brick_size = SizeVec2::new(i64::MAX, i64::MIN);
    c.brick_padding = i64::MAX;
    c.brick_offset_top = 0;
    let game = GameState::new(c);
    let places: Vec<(i64, i64)> = game.bricks.iter().map(|b| (b.pos.x, b.pos.y)).collect();
    assert_eq!(
        places,
        vec![
            (i64::MAX, 0),
            (i64::MAX, 0),
            (i64::MAX, 0),
            (i64::MAX, -1),
            (i64::MAX, -1),
            (i64::MAX, -1),
            (i64::MAX, -2),
            (i64::MAX, -2),
            (i64::MAX, -2),
        ]
    );
}

#[test]
fn generate_bricks_adds_behind_what_is_there() {
    let mut game = GameState::new(Constants::new());
    let grid = game.bricks.clone();
    game.bricks.truncate(2);
    game.generate_bricks();
    assert_eq!(game.bricks.len(), 52);
    assert_eq!(game.bricks[..2], grid[..2]);
    assert_eq!(game.bricks[2..], grid[..]);
}

#[test]
fn reset_restores_the_start() {
    let c = Constants::new();
    let mut game = GameState::new(c);
    let idle = Input { move_left: true, move_right: false, restart: false };
    game.ball.vel = VelocityVec2::new(1, -9);
    for _ in 0..40 {
        game.update(idle);
    }
    assert!(game.bricks.len() < 50);
    assert_ne!(game.paddle.pos.x, 350);
    game.game_over = true;
    game.reset();
    let fresh = GameState::new(c);
    assert_eq!(game.ball.pos, PositionVec2::new(400, 300));
    assert_eq!(game.ball.vel, VelocityVec2::new(5, -5));
    assert_eq!(game.paddle.pos, PositionVec2::new(350, 550));
    assert_eq!(game.bricks.len(), 5 * 10);
    assert_eq!(game.bricks, fresh.bricks);
    assert_eq!(game.ball, fresh.ball);
    assert_eq!(game.paddle, fresh.paddle);
    assert!(!game.game_over);
    assert_eq!(game.config, c);
}

#[test]
fn restart_after_game_over_is_a_reset() {
    let c = Constants::new();
    let mut game = GameState::new(c);
    game.bricks.truncate(3);
    game.ball.pos = PositionVec2::new(10, 700);
    game.paddle.pos.x = 17;
    game.game_over = true;
    let events = game.update(Input { move_left: true, move_right: false, restart: true });
    assert_eq!(events.bricks_destroyed, 0);
    assert!(!events.paddle_hit);
    let fresh = GameState::new(c);
    assert_eq!(game.ball, fresh.ball);
    assert_eq!(game.paddle, fresh.paddle);
    assert_eq!(game.bricks, fresh.bricks);
    assert!(!game.game_over);
}

#[test]
fn scaled_constants() {
    let c = Constants::new().scaled(1000);
    assert_eq!(c.window_width, 800_000);
    assert_eq!(c.window_height, 600_000);
    assert_eq!(c.ball_start_pos, PositionVec2::new(400_000, 300_000));
    assert_eq!(c.ball_start_vel, VelocityVec2::new(5_000, -5_000));
    assert_eq!(c.ball_size, SizeVec2::new(10_000, 10_000));
    assert_eq!(c.paddle_start_pos, PositionVec2::new(350_000, 550_000));
    assert_eq!(c.paddle_size, SizeVec2::new(100_000, 20_000));
    assert_eq!(c.paddle_speed, 10_000);
    assert_eq!(c.angle_gain, 2_000);
    assert_eq!(c.brick_rows, 5);
    assert_eq!(c.brick_columns, 10);
    assert_eq!(c.brick_size, SizeVec2::new(70_000, 20_000));
    assert_eq!(c.brick_padding, 10_000);
    assert_eq!(c.brick_offset_top, 50_000);
    assert_eq!(c.brick_color, Constants::new().brick_color);
    assert_eq!(Constants::new().scaled(1), Constants::new());
}

#[test]
fn scaled_game_has_the_scaled_grid() {
    let coarse = GameState::new(Constants::new());
    let fine = GameState::new(Constants::new().scaled(1000));
    assert_eq!(fine.bricks.len(), coarse.bricks.len());
    for (f, c) in fine.bricks.iter().zip(coarse.bricks.iter()) {
        assert_eq!(f.pos, PositionVec2::new(c.pos.x * 1000, c.pos.y * 1000));
        assert_eq!(f.size, SizeVec2::new(c.size.width * 1000, c.size.height * 1000));
    }
}
