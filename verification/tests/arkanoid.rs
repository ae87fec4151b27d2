use arcade::arkanoid::{BrickColor, Game};
use arcade::geom::Vec2;
use arcade::input::Input;

fn fire() -> Input {
    Input { fire: true, ..Input::none() }
}

fn pause() -> Input {
    Input { pause: true, ..Input::none() }
}

fn restart() -> Input {
    Input { restart: true, ..Input::none() }
}

#[test]
fn init_layout() {
    let mut g = Game::default();
    g.init(800, 480);
    assert_eq!(g.brick_size.x, 40000);
    assert_eq!(g.brick_size.y, 40000);
    assert_eq!(g.player.position.x, 400000);
    assert_eq!(g.player.position.y, 420000);
    assert_eq!(g.player.size.x, 80000);
    assert_eq!(g.player.size.y, 20000);
    assert_eq!(g.player.life, 5);
    assert_eq!(g.bricks.len(), 100);
    assert_eq!(g.bricks[0].position.x, 20000);
    assert_eq!(g.bricks[0].position.y, 50000);
    assert!(matches!(g.bricks[0].color, BrickColor::Gray));
    assert!(matches!(g.bricks[1].color, BrickColor::LightGray));
    assert_eq!(g.bricks[99].position.x, 780000);
    assert_eq!(g.bricks[99].position.y, 210000);
    assert!(!g.ball.active);
    assert_eq!(g.ball.radius, 7000);
}

#[test]
fn held_ball_tracks_paddle_and_launches() {
    // An 800 by 480 screen: with no input the ball stays held at the
    // paddle's x and at 7/8 of the height minus 30 pixels; a fire input
    // gives it velocity (0, -5) pixels per frame.
    let mut g = Game::default();
    g.init(800, 480);
    for _ in 0..3 {
        let s = g.update(&Input::none());
        assert!(!g.ball.active);
        assert_eq!(g.ball.position.x, g.player.position.x);
        assert_eq!(g.ball.position.x, 400000);
        assert_eq!(g.ball.position.y, 390000);
        assert_eq!(s.bounce, 0);
        assert_eq!(s.destroyed, 0);
    }
    g.update(&fire());
    assert!(g.ball.active);
    assert_eq!(g.ball.speed.x, 0);
    assert_eq!(g.ball.speed.y, -5000);
}

#[test]
fn paddle_moves_and_clamps() {
    let mut g = Game::default();
    g.init(800, 480);
    let left = Input { left: true, ..Input::none() };
    g.update(&left);
    assert_eq!(g.player.position.x, 395000);
    g.player.position.x = 42000;
    g.update(&left);
    // 42000 - 5000 is below the half width 40000, so the paddle clamps.
    assert_eq!(g.player.position.x, 40000);
    let right = Input { right: true, ..Input::none() };
    g.player.position.x = 758000;
    g.update(&right);
    assert_eq!(g.player.position.x, 760000);
}

#[test]
fn left_wall_bounce_flips_horizontal_velocity() {
    // A ball whose leading edge crosses the left wall while moving left
    // comes out with velocity.x negated and velocity.y untouched.
    let mut g = Game::default();
    g.init(800, 480);
    g.update(&fire());
    g.ball.position = Vec2::new(8000, 305000);
    g.ball.speed = Vec2::new(-5000, -5000);
    let s = g.update(&Input::none());
    assert_eq!(g.ball.position.x, 3000);
    assert_eq!(g.ball.position.y, 300000);
    assert_eq!(g.ball.speed.x, 5000);
    assert_eq!(g.ball.speed.y, -5000);
    assert_eq!(s.bounce, 1);
    assert_eq!(s.destroyed, 0);
    assert_eq!(g.bricks.len(), 100);
}

#[test]
fn brick_hit_from_below_wins_over_left() {
    // The crafted ball satisfies both the hit-from-below and the
    // hit-from-left test against the one remaining brick; the fixed
    // priority order must resolve it as a below hit: only velocity.y is
    // reversed.
    let mut g = Game::default();
    g.init(800, 480);
    g.update(&fire());
    g.bricks.clear();
    g.bricks.push(arcade::arkanoid::Brick {
        position: Vec2::new(400000, 200000),
        color: BrickColor::Gray,
    });
    g.ball.position = Vec2::new(370000, 229000);
    g.ball.speed = Vec2::new(10000, -5000);
    let s = g.update(&Input::none());
    // Moved to (380000, 224000); against the brick at (400000, 200000)
    // with half extents (20000, 20000) and slop 4666 both the below and
    // the left conditions hold.
    assert_eq!(g.ball.position.x, 380000);
    assert_eq!(g.ball.position.y, 224000);
    assert_eq!(g.ball.speed.x, 10000, "a left-face outcome would have negated velocity.x");
    assert_eq!(g.ball.speed.y, 5000, "the below-face outcome negates velocity.y");
    assert_eq!(g.bricks.len(), 0);
    assert_eq!(s.destroyed, 1);
    assert_eq!(s.bounce, 0);
    // The last brick is gone, so the same frame ends the game.
    assert!(g.game_over);
}

#[test]
fn paddle_bounce_deflects() {
    let mut g = Game::default();
    g.init(800, 480);
    g.update(&fire());
    g.ball.position = Vec2::new(410000, 415000);
    g.ball.speed = Vec2::new(0, 5000);
    let s = g.update(&Input::none());
    assert_eq!(g.ball.position.y, 420000);
    assert_eq!(g.ball.speed.y, -5000);
    // Offset from the paddle center is 10000 of a 40000 half width:
    // 10000 * 5000 / 40000.
    assert_eq!(g.ball.speed.x, 1250);
    assert_eq!(s.bounce, 1);
}

#[test]
fn pause_toggle_twice_changes_nothing() {
    let mut g = Game::default();
    g.init(800, 480);
    g.update(&Input::none());
    let px = g.player.position.x;
    let bx = g.ball.position.x;
    let by = g.ball.position.y;
    let s1 = g.update(&pause());
    assert!(g.pause);
    assert_eq!(g.player.position.x, px);
    assert_eq!(g.ball.position.x, bx);
    assert_eq!(g.ball.position.y, by);
    assert_eq!((s1.bounce, s1.destroyed), (0, 0));
    let s2 = g.update(&pause());
    assert!(!g.pause);
    assert!(!g.game_over);
    assert_eq!(g.player.position.x, px);
    assert_eq!(g.ball.position.x, bx);
    assert_eq!(g.ball.position.y, by);
    assert_eq!(g.ball.speed.x, 0);
    assert_eq!(g.ball.speed.y, 0);
    assert_eq!((s2.bounce, s2.destroyed), (0, 0));
}

#[test]
fn movement_frozen_while_paused() {
    let mut g = Game::default();
    g.init(800, 480);
    g.update(&fire());
    let bx = g.ball.position.x;
    let by = g.ball.position.y;
    g.update(&pause());
    // Held keys and an active ball change nothing while paused.
    let busy = Input { left: true, right: true, fire: true, ..Input::none() };
    g.update(&busy);
    g.update(&busy);
    assert_eq!(g.ball.position.x, bx);
    assert_eq!(g.ball.position.y, by);
    assert_eq!(g.player.position.x, 400000);
}

#[test]
fn five_lost_balls_end_the_game() {
    // Losing the ball across the bottom five times drives the life to 0,
    // game over freezes the world, and a restart input rebuilds it.
    let mut g = Game::default();
    g.init(800, 480);
    for lost in 1..=5 {
        g.ball.active = true;
        g.ball.position = Vec2::new(400000, 470000);
        g.ball.speed = Vec2::new(0, 5000);
        g.update(&Input::none());
        assert!(!g.ball.active);
        assert_eq!(g.player.life, 5 - lost);
    }
    assert_eq!(g.player.life, 0);
    assert!(g.game_over);
    assert_eq!(g.bricks.len(), 100);
    // Frozen: nothing moves or changes until a restart input.
    let ball_y = g.ball.position.y;
    let s = g.update(&Input::none());
    assert!(g.game_over);
    assert_eq!(g.ball.position.y, ball_y);
    assert_eq!(g.player.life, 0);
    assert_eq!((s.bounce, s.destroyed), (0, 0));
    g.update(&fire());
    assert!(g.game_over);
    g.update(&restart());
    assert!(!g.game_over);
    assert_eq!(g.player.life, 5);
    assert_eq!(g.bricks.len(), 100);
    assert!(!g.ball.active);
}

#[test]
fn ball_lost_at_bottom_zeroes_speed() {
    let mut g = Game::default();
    g.init(800, 480);
    g.ball.active = true;
    g.ball.position = Vec2::new(200000, 470000);
    g.ball.speed = Vec2::new(5000, 5000);
    let s = g.update(&Input::none());
    assert!(!g.ball.active);
    assert_eq!(g.ball.speed.x, 0);
    assert_eq!(g.ball.speed.y, 0);
    assert_eq!(g.player.life, 4);
    // The bottom loss itself makes no sound.
    assert_eq!(s.bounce, 0);
}

#[test]
fn clearing_all_bricks_ends_the_game() {
    let mut g = Game::default();
    g.init(800, 480);
    g.bricks.clear();
    g.update(&Input::none());
    assert!(g.game_over);
    assert_eq!(g.player.life, 5);
}
