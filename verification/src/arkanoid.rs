//! The brick-breaker simulation: a paddle, a ball and a grid of bricks on a
//! fixed screen, advanced one frame at a time.
//!
//! Every frame runs the same pipeline: pause/restart gate, paddle movement
//! with clamping, ball launch and integration, wall reflection, paddle bounce
//! with deflection, then one ordered pass over the bricks with directional
//! hit resolution. `update_spec` states the whole pipeline as a mathematical
//! function and `Game::update` is proved equal to it.

use vstd::prelude::*;

use crate::geom::{
    abs, circle_rect_collide, circle_rect_overlap, div_nn, div_trunc, div_trunc_ex,
    lemma_circle_rect_overlap_close, Vec2, V2,
};
use crate::input::Input;

verus! {

/// Lives the player starts with.
pub const PLAYER_MAX_LIFE: i32 = 5;

/// Rows of bricks laid out by `init`.
pub const LINES_OF_BRICKS: usize = 5;

/// Bricks per row laid out by `init`.
pub const BRICKS_PER_LINE: usize = 20;

/// Ball radius in milli-pixels.
pub const BALL_RADIUS: i64 = 7000;

/// Paddle movement per frame while an arrow key is held, in milli-pixels.
pub const PADDLE_STEP: i64 = 5000;

/// Vertical speed of the ball, in milli-pixels per frame.
pub const BALL_SPEED: i64 = 5000;

/// Largest horizontal ball speed the paddle deflection can produce for any
/// screen width the game accepts, in milli-pixels per frame.
pub const MAX_DEFLECTION: i64 = 705000;

/// Lowest coordinate an active ball can reach (a reflection margin below the
/// screen origin), in milli-pixels.
pub const BALL_FLOOR: i64 = -40000;

/// Margin past the right screen edge an active ball can reach, in
/// milli-pixels.
pub const BALL_MARGIN: i64 = 10000;

#[derive(Clone, Copy, Debug)]
pub struct Player {
    /// Center of the paddle, in milli-pixels.
    pub position: Vec2,
    /// Full extent of the paddle along each axis, in milli-pixels.
    pub size: Vec2,
    /// Remaining lives.
    pub life: i32,
}

#[verifier::ext_equal]
pub ghost struct PlayerV {
    pub pos: V2,
    pub size: V2,
    pub life: int,
}

impl View for Player {
    type V = PlayerV;

    open spec fn view(&self) -> PlayerV {
        PlayerV { pos: self.position@, size: self.size@, life: self.life as int }
    }
}

#[derive(Clone, Copy, Debug)]
pub struct Ball {
    /// Center of the ball, in milli-pixels.
    pub position: Vec2,
    /// Velocity in milli-pixels per frame.
    pub speed: Vec2,
    /// Radius in milli-pixels.
    pub radius: i64,
    /// False while the ball is held by the paddle or after it was lost.
    pub active: bool,
}

#[verifier::ext_equal]
pub ghost struct BallV {
    pub pos: V2,
    pub speed: V2,
    pub radius: int,
    pub active: bool,
}

impl View for Ball {
    type V = BallV;

    open spec fn view(&self) -> BallV {
        BallV {
            pos: self.position@,
            speed: self.speed@,
            radius: self.radius as int,
            active: self.active,
        }
    }
}

/// The two colors the brick grid alternates between.
#[derive(Clone, Copy, Debug, PartialEq, Eq, Structural)]
pub enum BrickColor {
    Gray,
    LightGray,
}

#[derive(Clone, Copy, Debug)]
pub struct Brick {
    /// Center of the brick, in milli-pixels.
    pub position: Vec2,
    pub color: BrickColor,
}

#[verifier::ext_equal]
pub ghost struct BrickV {
    pub pos: V2,
    pub color: BrickColor,
}

impl View for Brick {
    type V = BrickV;

    open spec fn view(&self) -> BrickV {
        BrickV { pos: self.position@, color: self.color }
    }
}

/// Mathematical value of a brick list.
pub open spec fn bricks_view(s: Seq<Brick>) -> Seq<BrickV> {
    s.map(|i: int, b: Brick| b@)
}

/// Sound events one frame produced; playing them is the caller's business.
#[derive(Clone, Copy, Debug, PartialEq, Eq, Structural)]
pub struct Sounds {
    /// How many bounce sounds to play (wall, paddle, hit-from-above brick).
    pub bounce: u32,
    /// How many destroy sounds to play (the other brick hits).
    pub destroyed: u32,
}

pub struct Game {
    /// Screen width in pixels, fixed by `init`.
    pub width: i64,
    /// Screen height in pixels, fixed by `init`.
    pub height: i64,
    pub game_over: bool,
    pub pause: bool,
    pub player: Player,
    pub ball: Ball,
    pub bricks: Vec<Brick>,
    /// Full extent of every brick, in milli-pixels.
    pub brick_size: Vec2,
}

#[verifier::ext_equal]
pub ghost struct GameV {
    pub width: int,
    pub height: int,
    pub game_over: bool,
    pub pause: bool,
    pub player: PlayerV,
    pub ball: BallV,
    pub bricks: Seq<BrickV>,
    pub brick_size: V2,
}

impl View for Game {
    type V = GameV;

    open spec fn view(&self) -> GameV {
        GameV {
            width: self.width as int,
            height: self.height as int,
            game_over: self.game_over,
            pause: self.pause,
            player: self.player@,
            ball: self.ball@,
            bricks: bricks_view(self.bricks@),
            brick_size: self.brick_size@,
        }
    }
}

/// Screen width in milli-pixels.
pub open spec fn w_mil(g: GameV) -> int {
    g.width * 1000
}

/// Screen height in milli-pixels.
pub open spec fn h_mil(g: GameV) -> int {
    g.height * 1000
}

pub open spec fn player_wf(p: PlayerV, width: int, height: int) -> bool {
    &&& p.size == (V2 { x: width * 100, y: 20000 })
    &&& p.pos.y == height * 875
    &&& width * 50 <= p.pos.x <= width * 950
    &&& 0 <= p.life <= PLAYER_MAX_LIFE as int
}

pub open spec fn brick_wf(b: BrickV, width: int) -> bool {
    &&& width * 25 <= b.pos.x
    &&& b.pos.x + width * 25 <= width * 1000
    &&& 50000 <= b.pos.y <= 210000
}

/// Inductive bounds on an active ball: reflection keeps it inside a fixed
/// margin around the screen, so its coordinates never run away.
pub open spec fn ball_wf(b: BallV, w: int, h: int) -> bool {
    &&& b.radius == BALL_RADIUS as int
    &&& if b.active {
        &&& (b.speed.y == -BALL_SPEED || b.speed.y == BALL_SPEED as int)
        &&& abs(b.speed.x) <= MAX_DEFLECTION as int
        &&& b.speed.x < 0 ==> b.pos.x >= BALL_FLOOR && b.pos.x <= w + BALL_MARGIN - b.speed.x
        &&& b.speed.x > 0 ==> b.pos.x >= BALL_FLOOR - b.speed.x && b.pos.x <= w + BALL_MARGIN
        &&& b.speed.x == 0 ==> BALL_FLOOR - MAX_DEFLECTION <= b.pos.x <= w + BALL_MARGIN
            + MAX_DEFLECTION
        &&& b.speed.y < 0 ==> b.pos.y >= BALL_FLOOR
        &&& b.speed.y > 0 ==> b.pos.y >= BALL_FLOOR - b.speed.y
        &&& b.pos.y + b.radius < h
    } else {
        &&& b.speed.x == 0 && b.speed.y == 0
        &&& BALL_FLOOR - MAX_DEFLECTION <= b.pos.x <= w + BALL_MARGIN + MAX_DEFLECTION
        &&& -30000 <= b.pos.y <= h + BALL_SPEED
    }
}

/// Well-formed world: established by `init`, preserved by `update`.
pub open spec fn game_wf(g: GameV) -> bool {
    &&& 1 <= g.width <= 100000
    &&& 1 <= g.height <= 100000
    &&& g.brick_size == (V2 { x: g.width * 50, y: 40000 })
    &&& player_wf(g.player, g.width, g.height)
    &&& !g.game_over ==> g.player.life >= 1
    &&& ball_wf(g.ball, w_mil(g), h_mil(g))
    &&& g.bricks.len() <= 100
    &&& forall|k: int| 0 <= k < g.bricks.len() ==> brick_wf(#[trigger] g.bricks[k], g.width)
}

impl Game {
    pub open spec fn wf(&self) -> bool {
        game_wf(self@)
    }
}

// ---------------------------------------------------------------------------
// The frame pipeline, as spec functions.
// ---------------------------------------------------------------------------

/// Paddle movement: step left, clamp left, step right, clamp right, in the
/// order the checks run.
pub open spec fn paddle_step(p: PlayerV, inp: Input, w: int) -> PlayerV {
    let half = p.size.x / 2;
    let x1 = if inp.left {
        p.pos.x - PADDLE_STEP
    } else {
        p.pos.x
    };
    let x2 = if x1 - half <= 0 {
        half
    } else {
        x1
    };
    let x3 = if inp.right {
        x2 + PADDLE_STEP
    } else {
        x2
    };
    let x4 = if x3 + half >= w {
        w - half
    } else {
        x3
    };
    PlayerV { pos: V2 { x: x4, y: p.pos.y }, size: p.size, life: p.life }
}

/// A fire input launches a held ball straight up.
pub open spec fn ball_launch(b: BallV, inp: Input) -> BallV {
    if !b.active && inp.fire {
        BallV { pos: b.pos, speed: V2 { x: 0, y: -BALL_SPEED }, radius: b.radius, active: true }
    } else {
        b
    }
}

/// The paddle-tracking position of a held ball.
pub open spec fn track_pos(px: int, h: int) -> V2 {
    V2 { x: px, y: h * 7 / 8 - 30000 }
}

/// An active ball integrates its velocity; a held ball tracks the paddle.
pub open spec fn ball_move(b: BallV, px: int, h: int) -> BallV {
    if b.active {
        BallV {
            pos: V2 { x: b.pos.x + b.speed.x, y: b.pos.y + b.speed.y },
            speed: b.speed,
            radius: b.radius,
            active: b.active,
        }
    } else {
        BallV { pos: track_pos(px, h), speed: b.speed, radius: b.radius, active: b.active }
    }
}

#[verifier::ext_equal]
pub ghost struct WallsOut {
    pub ball: BallV,
    pub bounce: int,
    pub lost: bool,
}

/// Wall resolution: side walls and ceiling reflect (with a bounce sound);
/// crossing the floor stops and deactivates the ball and costs a life.
pub open spec fn ball_walls(b: BallV, w: int, h: int) -> WallsOut {
    let r = b.radius;
    let (sx1, n1) = if b.pos.x + r >= w || b.pos.x - r <= 0 {
        (-b.speed.x, 1int)
    } else {
        (b.speed.x, 0int)
    };
    let (sy1, n2) = if b.pos.y - r <= 0 {
        (-b.speed.y, 1int)
    } else {
        (b.speed.y, 0int)
    };
    if b.pos.y + r >= h {
        WallsOut {
            ball: BallV { pos: b.pos, speed: V2 { x: 0, y: 0 }, radius: r, active: false },
            bounce: n1 + n2,
            lost: true,
        }
    } else {
        WallsOut {
            ball: BallV { pos: b.pos, speed: V2 { x: sx1, y: sy1 }, radius: r, active: b.active },
            bounce: n1 + n2,
            lost: false,
        }
    }
}

#[verifier::ext_equal]
pub ghost struct PaddleOut {
    pub ball: BallV,
    pub bounce: int,
}

/// Paddle bounce: a downward ball overlapping the paddle's box reflects
/// upward, with horizontal speed proportional to its offset from the paddle
/// center.
pub open spec fn paddle_bounce(b: BallV, p: PlayerV) -> PaddleOut {
    let half_w = p.size.x / 2;
    let half_h = p.size.y / 2;
    if circle_rect_overlap(b.pos, b.radius, p.pos, half_w, half_h) && b.speed.y > 0 {
        PaddleOut {
            ball: BallV {
                pos: b.pos,
                speed: V2 {
                    x: div_trunc((b.pos.x - p.pos.x) * BALL_SPEED, half_w),
                    y: -b.speed.y,
                },
                radius: b.radius,
                active: b.active,
            },
            bounce: 1,
        }
    } else {
        PaddleOut { ball: b, bounce: 0 }
    }
}

/// Which face of a brick the ball hits this frame, if any.
#[derive(Clone, Copy, Debug, PartialEq, Eq, Structural)]
pub enum HitKind {
    NoHit,
    Below,
    Above,
    FromLeft,
    FromRight,
}

/// The ball, moving up, crosses the brick's bottom edge while horizontally
/// overlapping it.
pub open spec fn hit_below(b: BallV, br: BrickV, bs: V2) -> bool {
    let slop = b.radius * 2 / 3;
    &&& b.pos.y - b.radius <= br.pos.y + bs.y / 2
    &&& b.pos.y - b.radius > br.pos.y + bs.y / 2 + b.speed.y
    &&& abs(b.pos.x - br.pos.x) < bs.x / 2 + slop
    &&& b.speed.y < 0
}

/// The ball, moving down, crosses the brick's top edge while horizontally
/// overlapping it.
pub open spec fn hit_above(b: BallV, br: BrickV, bs: V2) -> bool {
    let slop = b.radius * 2 / 3;
    &&& b.pos.y + b.radius >= br.pos.y - bs.y / 2
    &&& b.pos.y + b.radius < br.pos.y - bs.y / 2 + b.speed.y
    &&& abs(b.pos.x - br.pos.x) < bs.x / 2 + slop
    &&& b.speed.y > 0
}

/// The ball, moving right, crosses the brick's left edge while vertically
/// overlapping it.
pub open spec fn hit_from_left(b: BallV, br: BrickV, bs: V2) -> bool {
    let slop = b.radius * 2 / 3;
    &&& b.pos.x + b.radius >= br.pos.x - bs.x / 2
    &&& b.pos.x + b.radius < br.pos.x - bs.x / 2 + b.speed.x
    &&& abs(b.pos.y - br.pos.y) < bs.y / 2 + slop
    &&& b.speed.x > 0
}

/// The ball, moving left, crosses the brick's right edge while vertically
/// overlapping it.
pub open spec fn hit_from_right(b: BallV, br: BrickV, bs: V2) -> bool {
    let slop = b.radius * 2 / 3;
    &&& b.pos.x - b.radius <= br.pos.x + bs.x / 2
    &&& b.pos.x - b.radius > br.pos.x + bs.x / 2 + b.speed.x
    &&& abs(b.pos.y - br.pos.y) < bs.y / 2 + slop
    &&& b.speed.x < 0
}

/// The four face tests in their fixed priority order; the first match wins.
pub open spec fn brick_hit(b: BallV, br: BrickV, bs: V2) -> HitKind {
    if hit_below(b, br, bs) {
        HitKind::Below
    } else if hit_above(b, br, bs) {
        HitKind::Above
    } else if hit_from_left(b, br, bs) {
        HitKind::FromLeft
    } else if hit_from_right(b, br, bs) {
        HitKind::FromRight
    } else {
        HitKind::NoHit
    }
}

/// Reflect the ball off the face it hit.
pub open spec fn brick_deflect(b: BallV, kind: HitKind) -> BallV {
    match kind {
        HitKind::Below | HitKind::Above => BallV {
            pos: b.pos,
            speed: V2 { x: b.speed.x, y: -b.speed.y },
            radius: b.radius,
            active: b.active,
        },
        HitKind::FromLeft | HitKind::FromRight => BallV {
            pos: b.pos,
            speed: V2 { x: -b.speed.x, y: b.speed.y },
            radius: b.radius,
            active: b.active,
        },
        HitKind::NoHit => b,
    }
}

#[verifier::ext_equal]
pub ghost struct BricksOut {
    pub ball: BallV,
    pub bricks: Seq<BrickV>,
    pub bounce: int,
    pub destroyed: int,
}

/// One in-order pass over the bricks. A hit brick is removed and deflects the
/// ball, so later bricks in the same pass see the updated velocity. A hit
/// from above sounds like a bounce; the three other faces sound like a
/// destruction.
pub open spec fn bricks_pass(b: BallV, bricks: Seq<BrickV>, bs: V2) -> BricksOut
    decreases bricks.len(),
{
    if bricks.len() == 0 {
        BricksOut { ball: b, bricks: Seq::empty(), bounce: 0, destroyed: 0 }
    } else {
        let kind = brick_hit(b, bricks[0], bs);
        let b1 = brick_deflect(b, kind);
        let rest = bricks_pass(b1, bricks.drop_first(), bs);
        match kind {
            HitKind::NoHit => BricksOut {
                ball: rest.ball,
                bricks: seq![bricks[0]] + rest.bricks,
                bounce: rest.bounce,
                destroyed: rest.destroyed,
            },
            HitKind::Above => BricksOut {
                ball: rest.ball,
                bricks: rest.bricks,
                bounce: rest.bounce + 1,
                destroyed: rest.destroyed,
            },
            _ => BricksOut {
                ball: rest.ball,
                bricks: rest.bricks,
                bounce: rest.bounce,
                destroyed: rest.destroyed + 1,
            },
        }
    }
}

/// The brick at grid slot `k` (row-major, 20 per row) of a fresh layout.
pub open spec fn brick_at(k: int, width: int) -> BrickV {
    BrickV {
        pos: V2 { x: (k % 20) * (width * 50) + width * 25, y: (k / 20) * 40000 + 50000 },
        color: if (k / 20 + k % 20) % 2 == 0 {
            BrickColor::Gray
        } else {
            BrickColor::LightGray
        },
    }
}

/// The freshly initialized world: paddle centered low, ball held below the
/// screen center line, a full 5-by-20 brick grid. Flags are left as they
/// were.
pub open spec fn init_spec(g: GameV, width: int, height: int) -> GameV {
    GameV {
        width,
        height,
        game_over: g.game_over,
        pause: g.pause,
        player: PlayerV {
            pos: V2 { x: width * 500, y: height * 875 },
            size: V2 { x: width * 100, y: 20000 },
            life: PLAYER_MAX_LIFE as int,
        },
        ball: BallV {
            pos: V2 { x: width * 500, y: height * 1000 - 30000 },
            speed: V2 { x: 0, y: 0 },
            radius: BALL_RADIUS as int,
            active: false,
        },
        bricks: Seq::new(100, |k: int| brick_at(k, width)),
        brick_size: V2 { x: width * 50, y: 40000 },
    }
}

#[verifier::ext_equal]
pub ghost struct FrameOut {
    pub g: GameV,
    pub bounce: int,
    pub destroyed: int,
}

/// One whole frame. While playing and unpaused: paddle, ball launch and
/// movement, walls, paddle bounce, brick pass, then the game-over check
/// (life exhausted or all bricks gone). A pause toggle freezes everything
/// else in the same frame. From game over, a restart input re-initializes
/// the world.
pub open spec fn update_spec(g: GameV, inp: Input) -> FrameOut {
    if !g.game_over {
        let pause = if inp.pause {
            !g.pause
        } else {
            g.pause
        };
        if !pause {
            let player = paddle_step(g.player, inp, w_mil(g));
            let ball0 = ball_launch(g.ball, inp);
            let ball1 = ball_move(ball0, player.pos.x, h_mil(g));
            let wo = ball_walls(ball1, w_mil(g), h_mil(g));
            let life = if wo.lost {
                g.player.life - 1
            } else {
                g.player.life
            };
            let po = paddle_bounce(wo.ball, player);
            let bo = bricks_pass(po.ball, g.bricks, g.brick_size);
            let game_over = life <= 0 || bo.bricks.len() == 0;
            FrameOut {
                g: GameV {
                    width: g.width,
                    height: g.height,
                    game_over,
                    pause,
                    player: PlayerV { pos: player.pos, size: player.size, life },
                    ball: bo.ball,
                    bricks: bo.bricks,
                    brick_size: g.brick_size,
                },
                bounce: wo.bounce + po.bounce + bo.bounce,
                destroyed: bo.destroyed,
            }
        } else {
            FrameOut {
                g: GameV {
                    width: g.width,
                    height: g.height,
                    game_over: g.game_over,
                    pause,
                    player: g.player,
                    ball: g.ball,
                    bricks: g.bricks,
                    brick_size: g.brick_size,
                },
                bounce: 0,
                destroyed: 0,
            }
        }
    } else if inp.restart {
        let g1 = init_spec(g, g.width, g.height);
        FrameOut {
            g: GameV {
                width: g1.width,
                height: g1.height,
                game_over: false,
                pause: g1.pause,
                player: g1.player,
                ball: g1.ball,
                bricks: g1.bricks,
                brick_size: g1.brick_size,
            },
            bounce: 0,
            destroyed: 0,
        }
    } else {
        FrameOut { g, bounce: 0, destroyed: 0 }
    }
}

// ---------------------------------------------------------------------------
// Laws of the frame pipeline.
// ---------------------------------------------------------------------------

/// The paddle's position after a movement frame stays horizontally within
/// half its own width of both screen edges, wherever it started: the clamps
/// never let it escape.
pub proof fn lemma_paddle_step_stays_clamped(p: PlayerV, inp: Input, w: int)
    requires
        0 <= p.size.x,
        2 * (p.size.x / 2) <= w,
    ensures
        p.size.x / 2 <= paddle_step(p, inp, w).pos.x <= w - p.size.x / 2,
{
}

/// A brick pass in which no brick's hit test matches leaves the ball, the
/// bricks and the sound counts untouched.
pub proof fn lemma_bricks_pass_no_hits(b: BallV, bricks: Seq<BrickV>, bs: V2)
    requires
        forall|k: int| 0 <= k < bricks.len() ==> brick_hit(b, #[trigger] bricks[k], bs)
            == HitKind::NoHit,
    ensures
        bricks_pass(b, bricks, bs) == (BricksOut {
            ball: b,
            bricks: bricks,
            bounce: 0,
            destroyed: 0,
        }),
    decreases bricks.len(),
{
    if bricks.len() == 0 {
        assert(bricks =~= Seq::<BrickV>::empty());
    } else {
        assert(brick_hit(b, bricks[0], bs) == HitKind::NoHit);
        assert(forall|k: int| 0 <= k < bricks.drop_first().len() ==> #[trigger] bricks.drop_first()[k]
            == bricks[k + 1]);
        lemma_bricks_pass_no_hits(b, bricks.drop_first(), bs);
        assert(seq![bricks[0]] + bricks.drop_first() =~= bricks);
    }
}

/// A ball whose leading edge crosses the left wall while moving left comes
/// out of one frame with its horizontal velocity reversed and its vertical
/// velocity unchanged, as long as that frame hits nothing else.
pub proof fn lemma_left_wall_bounce(g: GameV, inp: Input)
    requires
        game_wf(g),
        !g.game_over,
        !g.pause,
        !inp.pause,
        g.ball.active,
        g.ball.speed.x < 0,
        g.ball.pos.x + g.ball.speed.x - g.ball.radius <= 0,
        g.ball.pos.y + g.ball.speed.y - g.ball.radius > 0,
        g.ball.pos.y + g.ball.speed.y + g.ball.radius < h_mil(g),
        paddle_bounce(
            ball_walls(
                ball_move(g.ball, paddle_step(g.player, inp, w_mil(g)).pos.x, h_mil(g)),
                w_mil(g),
                h_mil(g),
            ).ball,
            paddle_step(g.player, inp, w_mil(g)),
        ).bounce == 0,
        forall|k: int| 0 <= k < g.bricks.len() ==> brick_hit(
            ball_walls(
                ball_move(g.ball, paddle_step(g.player, inp, w_mil(g)).pos.x, h_mil(g)),
                w_mil(g),
                h_mil(g),
            ).ball,
            #[trigger] g.bricks[k],
            g.brick_size,
        ) == HitKind::NoHit,
    ensures
        update_spec(g, inp).g.ball.speed.x == -g.ball.speed.x,
        update_spec(g, inp).g.ball.speed.y == g.ball.speed.y,
        update_spec(g, inp).g.ball.pos == (V2 {
            x: g.ball.pos.x + g.ball.speed.x,
            y: g.ball.pos.y + g.ball.speed.y,
        }),
{
    let player1 = paddle_step(g.player, inp, w_mil(g));
    let ball1 = ball_move(ball_launch(g.ball, inp), player1.pos.x, h_mil(g));
    let wo = ball_walls(ball1, w_mil(g), h_mil(g));
    assert(wo.ball.speed.x == -g.ball.speed.x && wo.ball.speed.y == g.ball.speed.y);
    lemma_bricks_pass_no_hits(wo.ball, g.bricks, g.brick_size);
}

/// The four brick face tests resolve in a fixed order: a ball that satisfies
/// both the hit-from-below and the hit-from-left test takes the below
/// outcome — only the vertical velocity is reversed.
pub proof fn lemma_brick_priority_below(b: BallV, br: BrickV, bs: V2)
    requires
        hit_below(b, br, bs),
        hit_from_left(b, br, bs),
    ensures
        brick_hit(b, br, bs) == HitKind::Below,
        brick_deflect(b, brick_hit(b, br, bs)).speed == (V2 { x: b.speed.x, y: -b.speed.y }),
{
}

/// While the game is being played, the life counter never grows: a frame
/// either keeps it or, when the ball is lost across the floor, lowers it by
/// one. Only a restart from game over refills it.
pub proof fn lemma_life_never_increases(g: GameV, inp: Input)
    requires
        !g.game_over,
    ensures
        update_spec(g, inp).g.player.life <= g.player.life,
{
}

/// Toggling pause from a playing state freezes the frame: nothing but the
/// pause flag changes.
pub proof fn lemma_pause_freezes(g: GameV, inp: Input)
    requires
        !g.game_over,
        !g.pause,
        inp.pause,
    ensures
        update_spec(g, inp).g == (GameV {
            width: g.width,
            height: g.height,
            game_over: g.game_over,
            pause: true,
            player: g.player,
            ball: g.ball,
            bricks: g.bricks,
            brick_size: g.brick_size,
        }),
        update_spec(g, inp).bounce == 0,
        update_spec(g, inp).destroyed == 0,
{
}

/// Toggling pause twice from a playing state returns to exactly the playing
/// state: no entity position or velocity changes while paused. Stated for a
/// held ball and no other input, where the unpausing frame itself moves
/// nothing.
pub proof fn lemma_pause_toggle_twice(g: GameV, inp: Input)
    requires
        game_wf(g),
        !g.game_over,
        !g.pause,
        inp == (Input {
            left: false,
            right: false,
            up: false,
            down: false,
            fire: false,
            pause: true,
            restart: false,
        }),
        !g.ball.active,
        g.ball.pos == track_pos(g.player.pos.x, h_mil(g)),
        g.player.life >= 1,
        g.bricks.len() >= 1,
    ensures
        update_spec(g, inp).g.pause,
        update_spec(update_spec(g, inp).g, inp).g == g,
{
    lemma_pause_freezes(g, inp);
    let g1 = update_spec(g, inp).g;
    let w = w_mil(g1);
    let h = h_mil(g1);
    assert(w == w_mil(g) && h == h_mil(g));
    let player1 = paddle_step(g1.player, inp, w);
    assert(g.player.size.x == 2 * (50 * g.width));
    assert(g.player.size.x / 2 == 50 * g.width) by {
        vstd::arithmetic::div_mod::lemma_div_multiples_vanish(50 * g.width, 2);
        assert(g.player.size.x == 50 * g.width * 2);
    }
    assert(player1.pos.x == g.player.pos.x);
    assert(player1 =~= g.player);
    let ball1 = ball_move(ball_launch(g1.ball, inp), player1.pos.x, h);
    assert(ball1 =~= g.ball);
    let wo = ball_walls(ball1, w, h);
    assert(!(ball1.pos.y + ball1.radius >= h));
    assert(wo.ball =~= g.ball);
    assert(!wo.lost);
    let po = paddle_bounce(wo.ball, player1);
    assert(po.ball == g.ball);
    assert(forall|k: int| 0 <= k < g1.bricks.len() ==> brick_hit(
        g.ball,
        #[trigger] g1.bricks[k],
        g1.brick_size,
    ) == HitKind::NoHit);
    lemma_bricks_pass_no_hits(g.ball, g1.bricks, g1.brick_size);
    assert(update_spec(g1, inp).g =~= g);
}

// ---------------------------------------------------------------------------
// Executable frame pipeline, proved equal to the spec functions above.
// ---------------------------------------------------------------------------

/// The deflection the paddle can give the ball is bounded for every paddle
/// width the game accepts.
proof fn lemma_deflection_bound(dx: int, half: int)
    requires
        50 <= half,
        abs(dx) <= half + BALL_RADIUS,
    ensures
        abs(div_trunc(dx * BALL_SPEED, half)) <= MAX_DEFLECTION,
{
    let n = abs(dx) * 5000;
    assert(n <= 705000 * half) by (nonlinear_arith)
        requires
            50 <= half,
            0 <= abs(dx) <= half + 7000,
            n == abs(dx) * 5000,
    ;
    assert(abs(dx * 5000) == n) by (nonlinear_arith)
        requires
            n == abs(dx) * 5000,
    ;
    vstd::arithmetic::div_mod::lemma_div_is_ordered(n, 705000 * half, half);
    vstd::arithmetic::div_mod::lemma_div_multiples_vanish(705000, half);
    vstd::arithmetic::div_mod::lemma_div_is_ordered(0, n, half);
}

fn paddle_step_ex(p: Player, inp: &Input, width: i64, height: i64) -> (q: Player)
    requires
        1 <= width <= 100000,
        1 <= height <= 100000,
        player_wf(p@, width as int, height as int),
    ensures
        q@ == paddle_step(p@, *inp, width as int * 1000),
        player_wf(q@, width as int, height as int),
{
    let mut q = p;
    let half = div_nn(q.size.x, 2);
    let w1000 = width * 1000;
    if inp.left {
        q.position.x = q.position.x - PADDLE_STEP;
    }
    if q.position.x - half <= 0 {
        q.position.x = half;
    }
    if inp.right {
        q.position.x = q.position.x + PADDLE_STEP;
    }
    if q.position.x + half >= w1000 {
        q.position.x = w1000 - half;
    }
    q
}

fn ball_phase_ex(b: Ball, inp: &Input, px: i64, width: i64, height: i64) -> (out: (
    Ball,
    u32,
    bool,
))
    requires
        1 <= width <= 100000,
        1 <= height <= 100000,
        ball_wf(b@, width as int * 1000, height as int * 1000),
        width as int * 50 <= px <= width as int * 950,
    ensures
        ({
            let wo = ball_walls(
                ball_move(ball_launch(b@, *inp), px as int, height as int * 1000),
                width as int * 1000,
                height as int * 1000,
            );
            &&& out.0@ == wo.ball
            &&& out.1 as int == wo.bounce
            &&& out.2 == wo.lost
        }),
        ball_wf(out.0@, width as int * 1000, height as int * 1000),
        out.1 <= 2,
{
    let mut c = b;
    let w1000 = width * 1000;
    let h1000 = height * 1000;
    if !c.active && inp.fire {
        c.active = true;
        c.speed = Vec2::new(0, -BALL_SPEED);
    }
    if c.active {
        c.position.x = c.position.x + c.speed.x;
        c.position.y = c.position.y + c.speed.y;
    } else {
        c.position = Vec2::new(px, height * 875 - 30000);
        proof {
            assert(height as int * 1000 * 7 / 8 == height as int * 875) by {
                vstd::arithmetic::div_mod::lemma_div_multiples_vanish(
                    height as int * 875,
                    8,
                );
            }
        }
    }
    let mut bounce: u32 = 0;
    let mut lost = false;
    if c.position.x + c.radius >= w1000 || c.position.x - c.radius <= 0 {
        c.speed.x = -c.speed.x;
        bounce = bounce + 1;
    }
    if c.position.y - c.radius <= 0 {
        c.speed.y = -c.speed.y;
        bounce = bounce + 1;
    }
    if c.position.y + c.radius >= h1000 {
        c.speed = Vec2::new(0, 0);
        c.active = false;
        lost = true;
    }
    (c, bounce, lost)
}

fn paddle_bounce_ex(b: Ball, p: &Player, width: i64, height: i64) -> (out: (Ball, bool))
    requires
        1 <= width <= 100000,
        1 <= height <= 100000,
        ball_wf(b@, width as int * 1000, height as int * 1000),
        player_wf(p@, width as int, height as int),
    ensures
        out.0@ == paddle_bounce(b@, p@).ball,
        out.1 == (paddle_bounce(b@, p@).bounce == 1),
        ball_wf(out.0@, width as int * 1000, height as int * 1000),
{
    let mut c = b;
    let half_w = div_nn(p.size.x, 2);
    let half_h = div_nn(p.size.y, 2);
    let hit = circle_rect_collide(&c.position, c.radius, &p.position, half_w, half_h);
    if hit && c.speed.y > 0 {
        c.speed.y = -c.speed.y;
        let dx = c.position.x - p.position.x;
        proof {
            lemma_circle_rect_overlap_close(
                b@.pos,
                b@.radius,
                p@.pos,
                half_w as int,
                half_h as int,
            );
            lemma_deflection_bound(dx as int, half_w as int);
        }
        c.speed.x = div_trunc_ex(dx * BALL_SPEED, half_w);
        (c, true)
    } else {
        (c, false)
    }
}

fn brick_hit_ex(b: &Ball, br: &Brick, bs: &Vec2, width: i64, height: i64) -> (k: HitKind)
    requires
        1 <= width <= 100000,
        1 <= height <= 100000,
        ball_wf(b@, width as int * 1000, height as int * 1000),
        brick_wf(br@, width as int),
        bs@ == (V2 { x: width as int * 50, y: 40000 }),
    ensures
        k == brick_hit(b@, br@, bs@),
{
    let slop = div_nn(b.radius * 2, 3);
    let bw2 = div_nn(bs.x, 2);
    let bh2 = div_nn(bs.y, 2);
    let dxa = if b.position.x >= br.position.x {
        b.position.x - br.position.x
    } else {
        br.position.x - b.position.x
    };
    let dya = if b.position.y >= br.position.y {
        b.position.y - br.position.y
    } else {
        br.position.y - b.position.y
    };
    if b.position.y - b.radius <= br.position.y + bh2 && b.position.y - b.radius > br.position.y
        + bh2 + b.speed.y && dxa < bw2 + slop && b.speed.y < 0 {
        HitKind::Below
    } else if b.position.y + b.radius >= br.position.y - bh2 && b.position.y + b.radius
        < br.position.y - bh2 + b.speed.y && dxa < bw2 + slop && b.speed.y > 0 {
        HitKind::Above
    } else if b.position.x + b.radius >= br.position.x - bw2 && b.position.x + b.radius
        < br.position.x - bw2 + b.speed.x && dya < bh2 + slop && b.speed.x > 0 {
        HitKind::FromLeft
    } else if b.position.x - b.radius <= br.position.x + bw2 && b.position.x - b.radius
        > br.position.x + bw2 + b.speed.x && dya < bh2 + slop && b.speed.x < 0 {
        HitKind::FromRight
    } else {
        HitKind::NoHit
    }
}

proof fn lemma_bricks_view_push(s: Seq<Brick>, b: Brick)
    ensures
        bricks_view(s.push(b)) == bricks_view(s).push(b@),
{
    assert(bricks_view(s.push(b)) =~= bricks_view(s).push(b@));
}

fn bricks_pass_ex(b: Ball, bricks: &Vec<Brick>, bs: &Vec2, width: i64, height: i64) -> (out: (
    Ball,
    Vec<Brick>,
    u32,
    u32,
))
    requires
        1 <= width <= 100000,
        1 <= height <= 100000,
        ball_wf(b@, width as int * 1000, height as int * 1000),
        bricks@.len() <= 100,
        forall|k: int|
            0 <= k < bricks@.len() ==> brick_wf(#[trigger] bricks@[k]@, width as int),
        bs@ == (V2 { x: width as int * 50, y: 40000 }),
    ensures
        ({
            let bo = bricks_pass(b@, bricks_view(bricks@), bs@);
            &&& out.0@ == bo.ball
            &&& bricks_view(out.1@) == bo.bricks
            &&& out.2 as int == bo.bounce
            &&& out.3 as int == bo.destroyed
        }),
        ball_wf(out.0@, width as int * 1000, height as int * 1000),
        out.1@.len() <= bricks@.len(),
        forall|k: int|
            0 <= k < out.1@.len() ==> brick_wf(#[trigger] out.1@[k]@, width as int),
        out.2 <= 100,
        out.3 <= 100,
{
    let ghost bricks0 = bricks_view(bricks@);
    let ghost full = bricks_pass(b@, bricks0, bs@);
    let mut ball = b;
    let mut kept: Vec<Brick> = Vec::new();
    let mut bounce: u32 = 0;
    let mut destroyed: u32 = 0;
    let mut i: usize = 0;
    let n = bricks.len();
    proof {
        assert(bricks0.skip(0) =~= bricks0);
        assert(bricks_view(kept@) =~= Seq::<BrickV>::empty());
        let rec = bricks_pass(ball@, bricks0, bs@);
        assert(bricks_view(kept@) + rec.bricks =~= rec.bricks);
        assert(full =~= (BricksOut {
            ball: rec.ball,
            bricks: bricks_view(kept@) + rec.bricks,
            bounce: 0 + rec.bounce,
            destroyed: 0 + rec.destroyed,
        }));
    }
    while i < n
        invariant
            n == bricks@.len() <= 100,
            i <= n,
            1 <= width <= 100000,
            1 <= height <= 100000,
            bs@ == (V2 { x: width as int * 50, y: 40000 }),
            forall|k: int|
                0 <= k < bricks@.len() ==> brick_wf(#[trigger] bricks@[k]@, width as int),
            bricks0 == bricks_view(bricks@),
            ball_wf(ball@, width as int * 1000, height as int * 1000),
            kept@.len() + bounce + destroyed == i,
            forall|k: int| 0 <= k < kept@.len() ==> brick_wf(#[trigger] kept@[k]@, width as int),
            full == ({
                let rec = bricks_pass(ball@, bricks0.skip(i as int), bs@);
                BricksOut {
                    ball: rec.ball,
                    bricks: bricks_view(kept@) + rec.bricks,
                    bounce: bounce + rec.bounce,
                    destroyed: destroyed + rec.destroyed,
                }
            }),
        decreases n - i,
    {
        let brick = bricks[i];
        proof {
            assert(bricks0.skip(i as int).len() > 0);
            assert(bricks0.skip(i as int)[0] == brick@);
            assert(bricks0.skip(i as int).drop_first() =~= bricks0.skip(i as int + 1));
        }
        let kind = brick_hit_ex(&ball, &brick, bs, width, height);
        match kind {
            HitKind::NoHit => {
                proof {
                    lemma_bricks_view_push(kept@, brick);
                    assert(bricks_view(kept@).push(brick@) + bricks_pass(
                        ball@,
                        bricks0.skip(i as int + 1),
                        bs@,
                    ).bricks =~= bricks_view(kept@) + (seq![brick@] + bricks_pass(
                        ball@,
                        bricks0.skip(i as int + 1),
                        bs@,
                    ).bricks));
                }
                kept.push(brick);
            },
            HitKind::Above => {
                ball.speed.y = -ball.speed.y;
                bounce = bounce + 1;
            },
            HitKind::Below => {
                ball.speed.y = -ball.speed.y;
                destroyed = destroyed + 1;
            },
            HitKind::FromLeft => {
                ball.speed.x = -ball.speed.x;
                destroyed = destroyed + 1;
            },
            HitKind::FromRight => {
                ball.speed.x = -ball.speed.x;
                destroyed = destroyed + 1;
            },
        }
        i = i + 1;
    }
    proof {
        assert(bricks0.skip(n as int) =~= Seq::<BrickV>::empty());
        assert(bricks_view(kept@) + Seq::<BrickV>::empty() =~= bricks_view(kept@));
    }
    (ball, kept, bounce, destroyed)
}

impl Default for Game {
    /// The blank, not yet initialized world; `init` must run before `update`.
    fn default() -> (g: Game)
        ensures
            g@ == (GameV {
                width: 0,
                height: 0,
                game_over: false,
                pause: false,
                player: PlayerV {
                    pos: V2 { x: 0, y: 0 },
                    size: V2 { x: 0, y: 0 },
                    life: 0,
                },
                ball: BallV {
                    pos: V2 { x: 0, y: 0 },
                    speed: V2 { x: 0, y: 0 },
                    radius: 0,
                    active: false,
                },
                bricks: Seq::empty(),
                brick_size: V2 { x: 0, y: 0 },
            }),
    {
        let g = Game {
            width: 0,
            height: 0,
            game_over: false,
            pause: false,
            player: Player {
                position: Vec2::new(0, 0),
                size: Vec2::new(0, 0),
                life: 0,
            },
            ball: Ball {
                position: Vec2::new(0, 0),
                speed: Vec2::new(0, 0),
                radius: 0,
                active: false,
            },
            bricks: Vec::new(),
            brick_size: Vec2::new(0, 0),
        };
        proof {
            assert(g@.bricks =~= Seq::<BrickV>::empty());
            assert(g@ =~= (GameV {
                width: 0,
                height: 0,
                game_over: false,
                pause: false,
                player: PlayerV {
                    pos: V2 { x: 0, y: 0 },
                    size: V2 { x: 0, y: 0 },
                    life: 0,
                },
                ball: BallV {
                    pos: V2 { x: 0, y: 0 },
                    speed: V2 { x: 0, y: 0 },
                    radius: 0,
                    active: false,
                },
                bricks: Seq::empty(),
                brick_size: V2 { x: 0, y: 0 },
            }));
        }
        g
    }
}

impl Game {
    /// (Re)populate the world for the given screen: paddle and held ball
    /// centered, full lives, a fresh 5-by-20 brick grid. Play flags are left
    /// as they are.
    pub fn init(&mut self, width: i64, height: i64)
        requires
            1 <= width <= 100000,
            1 <= height <= 100000,
        ensures
            final(self)@ == init_spec(old(self)@, width as int, height as int),
            final(self).wf(),
    {
        self.width = width;
        self.height = height;
        self.brick_size = Vec2::new(width * 50, 40000);
        self.player = Player {
            position: Vec2::new(width * 500, height * 875),
            size: Vec2::new(width * 100, 20000),
            life: PLAYER_MAX_LIFE,
        };
        self.ball = Ball {
            position: Vec2::new(width * 500, height * 1000 - 30000),
            speed: Vec2::new(0, 0),
            radius: BALL_RADIUS,
            active: false,
        };
        let mut bricks: Vec<Brick> = Vec::new();
        let mut k: usize = 0;
        while k < 100
            invariant
                1 <= width <= 100000,
                k <= 100,
                bricks@.len() == k,
                forall|m: int|
                    0 <= m < k ==> #[trigger] bricks@[m]@ == brick_at(m, width as int),
            decreases 100 - k,
        {
            let row = k / 20;
            let col = k % 20;
            proof {
                assert(col < 20 && row < 5);
                assert(0 <= (col as int) * (width as int * 50) <= 19 * (width as int * 50))
                    by (nonlinear_arith)
                    requires
                        0 <= col as int <= 19,
                        1 <= width as int <= 100000,
                ;
            }
            let x = (col as i64) * (width * 50) + width * 25;
            let y = (row as i64) * 40000 + 50000;
            let color = if (row + col) % 2 == 0 {
                BrickColor::Gray
            } else {
                BrickColor::LightGray
            };
            bricks.push(Brick { position: Vec2::new(x, y), color });
            k = k + 1;
        }
        self.bricks = bricks;
        proof {
            assert(bricks_view(self.bricks@) =~= Seq::new(100, |m: int| brick_at(m, width as int)));
            assert(self@ =~= init_spec(old(self)@, width as int, height as int));
            assert forall|m: int| 0 <= m < self@.bricks.len() implies brick_wf(
                #[trigger] self@.bricks[m],
                width as int,
            ) by {
                assert(self@.bricks[m] == brick_at(m, width as int));
                let col = m % 20;
                let row = m / 20;
                assert(0 <= col <= 19 && 0 <= row <= 4) by (nonlinear_arith)
                    requires
                        0 <= m < 100,
                        col == m % 20,
                        row == m / 20,
                ;
                assert(0 <= col * (width as int * 50) <= 19 * (width as int * 50))
                    by (nonlinear_arith)
                    requires
                        0 <= col <= 19,
                        width as int >= 1,
                ;
            }
        }
    }

    /// One frame of the game: exactly `update_spec` of the previous state and
    /// this frame's input. The returned sound events are for the caller to
    /// play.
    pub fn update(&mut self, input: &Input) -> (s: Sounds)
        requires
            old(self).wf(),
        ensures
            final(self)@ == update_spec(old(self)@, *input).g,
            s.bounce as int == update_spec(old(self)@, *input).bounce,
            s.destroyed as int == update_spec(old(self)@, *input).destroyed,
            final(self).wf(),
    {
        if !self.game_over {
            if input.pause {
                self.pause = !self.pause;
            }
            if !self.pause {
                let width = self.width;
                let height = self.height;
                let player = paddle_step_ex(self.player, input, width, height);
                let (ball2, wall_bounce, lost) = ball_phase_ex(
                    self.ball,
                    input,
                    player.position.x,
                    width,
                    height,
                );
                let life = if lost {
                    self.player.life - 1
                } else {
                    self.player.life
                };
                let (ball3, pad_bounced) = paddle_bounce_ex(ball2, &player, width, height);
                proof {
                    assert forall|k: int| 0 <= k < self.bricks@.len() implies brick_wf(
                        #[trigger] self.bricks@[k]@,
                        width as int,
                    ) by {
                        assert(old(self)@.bricks[k] == self.bricks@[k]@);
                    }
                }
                let (ball4, kept, brick_bounce, brick_destroyed) = bricks_pass_ex(
                    ball3,
                    &self.bricks,
                    &self.brick_size,
                    width,
                    height,
                );
                self.player = Player { position: player.position, size: player.size, life };
                self.ball = ball4;
                self.bricks = kept;
                if life <= 0 || self.bricks.len() == 0 {
                    self.game_over = true;
                }
                let pad_bounce: u32 = if pad_bounced {
                    1
                } else {
                    0
                };
                proof {
                    assert(self@ =~= update_spec(old(self)@, *input).g);
                }
                Sounds { bounce: wall_bounce + pad_bounce + brick_bounce, destroyed: brick_destroyed }
            } else {
                proof {
                    assert(self@ =~= update_spec(old(self)@, *input).g);
                }
                Sounds { bounce: 0, destroyed: 0 }
            }
        } else if input.restart {
            let width = self.width;
            let height = self.height;
            self.init(width, height);
            self.game_over = false;
            proof {
                assert(self@ =~= update_spec(old(self)@, *input).g);
            }
            Sounds { bounce: 0, destroyed: 0 }
        } else {
            Sounds { bounce: 0, destroyed: 0 }
        }
    }
}

} // verus!
