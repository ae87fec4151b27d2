//! The asteroid shooter simulation: a turning, thrusting ship, wrapping
//! meteors in three size tiers, and short-lived shots that split what they
//! hit.
//!
//! Every frame runs the same pipeline: pause/restart gate, ship movement,
//! firing (capped), one ordered pass over the shots with aging, expiry and
//! first-hit resolution, the ship-versus-meteor check, meteor movement, and
//! the victory check. `iteration_spec` states the playing frame as a
//! mathematical function and `Game::update` is proved equal to it.

use vstd::prelude::*;

use crate::geom::{circles_overlap, circles_collide, Vec2, V2};
use crate::input::Input;
use crate::meteor::{
    meteor_move, meteor_wf, split_spec, Meteor, MeteorKind, MeteorV,
};
use crate::rng::random_between;
use crate::ship::{collider_of, ship_step, ship_wf, Player, ShipV, COLLIDER_RADIUS, SHIP_HEIGHT};
use crate::trig::{cos_milli, cos_lookup, sin_milli, sin_lookup};

verus! {

/// Meteors a fresh world starts with.
pub const MAX_BIG_METEORS: usize = 4;

/// Most shots that can be live at once. The bound is enforced at the fire
/// gate: a fire input while the list is full is ignored.
pub const MAX_SHOTS: usize = 10;

/// Frames a shot lives.
pub const SHOT_LIFE: u8 = 60;

/// Shot radius in milli-pixels.
pub const SHOT_RADIUS: i64 = 2000;

#[derive(Clone, Copy, Debug)]
pub struct Shoot {
    /// Center, in milli-pixels.
    pub position: Vec2,
    /// Velocity, in milli-pixels per frame; the vertical component is
    /// subtracted when moving, as screen coordinates grow downward.
    pub speed: Vec2,
    /// Radius in milli-pixels.
    pub radius: i64,
    /// Heading it was fired along, in degrees.
    pub rotation: i64,
    /// Frames left before it expires.
    pub life: u8,
}

#[verifier::ext_equal]
pub ghost struct ShootV {
    pub pos: V2,
    pub speed: V2,
    pub radius: int,
    pub rot: int,
    pub life: int,
}

impl View for Shoot {
    type V = ShootV;

    open spec fn view(&self) -> ShootV {
        ShootV {
            pos: self.position@,
            speed: self.speed@,
            radius: self.radius as int,
            rot: self.rotation as int,
            life: self.life as int,
        }
    }
}

/// Sound events one frame produced; playing them is the caller's business.
#[derive(Clone, Copy, Debug, PartialEq, Eq, Structural)]
pub struct Sounds {
    /// How many explosion sounds to play (one per meteor hit).
    pub explosions: u32,
    /// Whether a shot was fired this frame.
    pub shot: bool,
}

pub struct Game {
    /// Screen width in pixels, fixed by `init`.
    pub width: i64,
    /// Screen height in pixels, fixed by `init`.
    pub height: i64,
    pub game_over: bool,
    pub pause: bool,
    pub victory: bool,
    pub player: Player,
    pub meteors: Vec<Meteor>,
    pub shots: Vec<Shoot>,
}

#[verifier::ext_equal]
pub ghost struct GameV {
    pub width: int,
    pub height: int,
    pub game_over: bool,
    pub pause: bool,
    pub victory: bool,
    pub player: ShipV,
    pub meteors: Seq<MeteorV>,
    pub shots: Seq<ShootV>,
}

/// Mathematical value of a meteor list.
pub open spec fn meteors_view(s: Seq<Meteor>) -> Seq<MeteorV> {
    s.map(|i: int, m: Meteor| m@)
}

/// Mathematical value of a shot list.
pub open spec fn shots_view(s: Seq<Shoot>) -> Seq<ShootV> {
    s.map(|i: int, sh: Shoot| sh@)
}

impl View for Game {
    type V = GameV;

    open spec fn view(&self) -> GameV {
        GameV {
            width: self.width as int,
            height: self.height as int,
            game_over: self.game_over,
            pause: self.pause,
            victory: self.victory,
            player: self.player@,
            meteors: meteors_view(self.meteors@),
            shots: shots_view(self.shots@),
        }
    }
}

/// Screen width in milli-pixels.
pub open spec fn w_mil(g: GameV) -> int {
    g.width * 1000
}

/// Screen height in milli-pixels.
pub open spec fn h_mil(g: GameV) -> int {
    g.height * 1000
}

/// A live shot is a little outside the screen at most (it is removed once it
/// leaves by more than its radius; a fresh one starts within a ship height
/// of the ship), still has life left, and flies along a reachable heading.
pub open spec fn shot_wf(s: ShootV, w: int, h: int) -> bool {
    &&& s.radius == SHOT_RADIUS as int
    &&& 1 <= s.life <= SHOT_LIFE as int
    &&& 0 <= s.rot < 360
    &&& s.rot % 5 == 0
    &&& -9000 <= s.speed.x <= 9000
    &&& -9000 <= s.speed.y <= 9000
    &&& -60000 <= s.pos.x <= w + 60000
    &&& -60000 <= s.pos.y <= h + 60000
}

/// Well-formed world: established by `init`, preserved by `update`.
pub open spec fn game_wf(g: GameV) -> bool {
    &&& 1 <= g.width <= 100000
    &&& 1 <= g.height <= 100000
    &&& ship_wf(g.player, w_mil(g), h_mil(g))
    &&& g.shots.len() <= MAX_SHOTS as int
    &&& forall|k: int| 0 <= k < g.shots.len() ==> shot_wf(#[trigger] g.shots[k], w_mil(g), h_mil(g))
    &&& forall|k: int| 0 <= k < g.meteors.len() ==> meteor_wf(
        #[trigger] g.meteors[k],
        w_mil(g),
        h_mil(g),
    )
}

impl Game {
    pub open spec fn wf(&self) -> bool {
        game_wf(self@)
    }
}

// ---------------------------------------------------------------------------
// The frame pipeline, as spec functions.
// ---------------------------------------------------------------------------

/// One frame of shot aging and movement.
pub open spec fn shot_move(s: ShootV) -> ShootV {
    ShootV {
        pos: V2 { x: s.pos.x + s.speed.x, y: s.pos.y - s.speed.y },
        speed: s.speed,
        radius: s.radius,
        rot: s.rot,
        life: s.life - 1,
    }
}

/// A shot is removed once it leaves the screen by more than its radius or
/// runs out of life.
pub open spec fn shot_gone(s: ShootV, w: int, h: int) -> bool {
    ||| s.pos.x > w + s.radius
    ||| s.pos.x < -s.radius
    ||| s.pos.y > h + s.radius
    ||| s.pos.y < -s.radius
    ||| s.life == 0
}

/// Index of the first active meteor the circle at `pos` with radius `r`
/// overlaps, or the list's length when there is none.
pub open spec fn find_hit(ms: Seq<MeteorV>, pos: V2, r: int) -> int
    decreases ms.len(),
{
    if ms.len() == 0 {
        0
    } else if ms[0].active && circles_overlap(pos, r, ms[0].pos, ms[0].radius) {
        0
    } else {
        1 + find_hit(ms.drop_first(), pos, r)
    }
}

pub open spec fn deactivate(m: MeteorV) -> MeteorV {
    MeteorV { pos: m.pos, speed: m.speed, radius: m.radius, active: false, kind: m.kind }
}

/// Resolve a hit on meteor `i`: it goes inactive and, unless it was Small,
/// its two offspring are appended to the list.
pub open spec fn apply_hit(ms: Seq<MeteorV>, i: int, rot: int) -> Seq<MeteorV> {
    let ms1 = ms.update(i, deactivate(ms[i]));
    match split_spec(ms[i], rot) {
        None => ms1,
        Some(pair) => ms1 + seq![pair.0, pair.1],
    }
}

#[verifier::ext_equal]
pub ghost struct ShotsOut {
    pub shots: Seq<ShootV>,
    pub meteors: Seq<MeteorV>,
    pub explosions: int,
}

/// One in-order pass over the shots: each ages and moves, expired or
/// escaped shots are dropped, and a surviving shot that overlaps an active
/// meteor is consumed by resolving that hit (the first such meteor), so
/// later shots in the same pass see the updated meteor list.
pub open spec fn shots_pass(shots: Seq<ShootV>, ms: Seq<MeteorV>, w: int, h: int) -> ShotsOut
    decreases shots.len(),
{
    if shots.len() == 0 {
        ShotsOut { shots: Seq::empty(), meteors: ms, explosions: 0 }
    } else {
        let s1 = shot_move(shots[0]);
        if shot_gone(s1, w, h) {
            shots_pass(shots.drop_first(), ms, w, h)
        } else {
            let i = find_hit(ms, s1.pos, s1.radius);
            if i < ms.len() {
                let rest = shots_pass(shots.drop_first(), apply_hit(ms, i, s1.rot), w, h);
                ShotsOut {
                    shots: rest.shots,
                    meteors: rest.meteors,
                    explosions: rest.explosions + 1,
                }
            } else {
                let rest = shots_pass(shots.drop_first(), ms, w, h);
                ShotsOut {
                    shots: seq![s1] + rest.shots,
                    meteors: rest.meteors,
                    explosions: rest.explosions,
                }
            }
        }
    }
}

/// The shot a fire input spawns: at the ship's nose, one and a half times
/// the full thrust speed, along the ship's heading.
pub open spec fn spawn_shot(p: ShipV) -> ShootV {
    ShootV {
        pos: V2 {
            x: p.pos.x + crate::geom::div_trunc(sin_milli(p.rot) * SHIP_HEIGHT, 1000),
            y: p.pos.y - crate::geom::div_trunc(cos_milli(p.rot) * SHIP_HEIGHT, 1000),
        },
        speed: V2 { x: sin_milli(p.rot) * 9, y: cos_milli(p.rot) * 9 },
        radius: SHOT_RADIUS as int,
        rot: p.rot,
        life: SHOT_LIFE as int,
    }
}

/// No meteor is active any more.
pub open spec fn all_inactive(ms: Seq<MeteorV>) -> bool {
    forall|k: int| 0 <= k < ms.len() ==> !(#[trigger] ms[k]).active
}

/// Some active meteor overlaps the ship's nose collider.
pub open spec fn ship_hit(ms: Seq<MeteorV>, c: V2) -> bool {
    exists|k: int| 0 <= k < ms.len() && (#[trigger] ms[k]).active && circles_overlap(
        c,
        COLLIDER_RADIUS as int,
        ms[k].pos,
        ms[k].radius,
    )
}

#[verifier::ext_equal]
pub ghost struct IterOut {
    pub g: GameV,
    pub explosions: int,
    pub fired: bool,
}

/// One playing frame (the game is not over). While unpaused: ship movement,
/// the capped fire gate, the shots pass, the ship-versus-meteor check on the
/// freshly recomputed nose collider, meteor movement. Paused or not, the
/// victory flag is set once no meteor is active.
pub open spec fn iteration_spec(g: GameV, inp: Input) -> IterOut {
    let w = w_mil(g);
    let h = h_mil(g);
    let pause = if inp.pause {
        !g.pause
    } else {
        g.pause
    };
    if !pause {
        let player1 = ship_step(g.player, inp, w, h);
        let fired = inp.fire && g.shots.len() < MAX_SHOTS as int;
        let shots1 = if fired {
            g.shots.push(spawn_shot(player1))
        } else {
            g.shots
        };
        let so = shots_pass(shots1, g.meteors, w, h);
        let col = collider_of(player1.pos, player1.rot);
        let player2 = ShipV {
            pos: player1.pos,
            speed: player1.speed,
            acc: player1.acc,
            rot: player1.rot,
            collider: col,
        };
        let over = ship_hit(so.meteors, col);
        let ms2 = so.meteors.map(|i: int, m: MeteorV| meteor_move(m, w, h));
        let vict = all_inactive(ms2) || g.victory;
        IterOut {
            g: GameV {
                width: g.width,
                height: g.height,
                game_over: over,
                pause,
                victory: vict,
                player: player2,
                meteors: ms2,
                shots: so.shots,
            },
            explosions: so.explosions,
            fired,
        }
    } else {
        let vict = all_inactive(g.meteors) || g.victory;
        IterOut {
            g: GameV {
                width: g.width,
                height: g.height,
                game_over: g.game_over,
                pause,
                victory: vict,
                player: g.player,
                meteors: g.meteors,
                shots: g.shots,
            },
            explosions: 0,
            fired: false,
        }
    }
}

/// What a (re)initialization guarantees, besides leaving the play flags and
/// the shot list as they were: the ship recentered at rest with its collider
/// placed, and four active Big meteors inside the screen, none at a dead
/// stop. Meteor placement draws from the random source, so only these bounds
/// are promised.
pub open spec fn init_props(g0: GameV, g1: GameV, width: int, height: int) -> bool {
    &&& g1.width == width
    &&& g1.height == height
    &&& g1.pause == g0.pause
    &&& g1.victory == g0.victory
    &&& g1.shots == g0.shots
    &&& g1.player.pos == (V2 { x: width * 500, y: height * 500 - 13737 })
    &&& g1.player.acc == 0
    &&& g1.player.rot == g0.player.rot
    &&& g1.player.speed == g0.player.speed
    &&& g1.player.collider == collider_of(g1.player.pos, g1.player.rot)
    &&& g1.meteors.len() == MAX_BIG_METEORS as int
    &&& forall|k: int| 0 <= k < g1.meteors.len() ==> {
        let m = #[trigger] g1.meteors[k];
        &&& m.active
        &&& m.kind == MeteorKind::Big
        &&& m.radius == 40000
        &&& 0 <= m.pos.x <= width * 1000
        &&& 0 <= m.pos.y <= height * 1000
        &&& -2000 <= m.speed.x <= 2000
        &&& -2000 <= m.speed.y <= 2000
        &&& !(m.speed.x == 0 && m.speed.y == 0)
    }
}

// ---------------------------------------------------------------------------
// Laws of the frame pipeline.
// ---------------------------------------------------------------------------

/// How much a meteor tier weighs in descendants: one Big can become at most
/// two Mediums and four Smalls beyond itself.
pub open spec fn tier_weight(k: MeteorKind) -> int {
    match k {
        MeteorKind::Big => 6,
        MeteorKind::Medium => 2,
        MeteorKind::Small => 0,
    }
}

pub open spec fn active_tier_weight(m: MeteorV) -> int {
    if m.active {
        tier_weight(m.kind)
    } else {
        0
    }
}

/// Total tier weight of the active meteors: the world's remaining "mass".
pub open spec fn tier_sum(ms: Seq<MeteorV>) -> int
    decreases ms.len(),
{
    if ms.len() == 0 {
        0
    } else {
        active_tier_weight(ms[0]) + tier_sum(ms.drop_first())
    }
}

proof fn lemma_tier_sum_update(ms: Seq<MeteorV>, i: int, m: MeteorV)
    requires
        0 <= i < ms.len(),
    ensures
        tier_sum(ms.update(i, m)) == tier_sum(ms) - active_tier_weight(ms[i])
            + active_tier_weight(m),
    decreases ms.len(),
{
    if i == 0 {
        assert(ms.update(0, m).drop_first() =~= ms.drop_first());
    } else {
        assert(ms.update(i, m).drop_first() =~= ms.drop_first().update(i - 1, m));
        lemma_tier_sum_update(ms.drop_first(), i - 1, m);
    }
}

proof fn lemma_tier_sum_push(ms: Seq<MeteorV>, m: MeteorV)
    ensures
        tier_sum(ms.push(m)) == tier_sum(ms) + active_tier_weight(m),
    decreases ms.len(),
{
    if ms.len() == 0 {
        assert(ms.push(m).drop_first() =~= Seq::<MeteorV>::empty());
        assert(ms.push(m)[0] == m);
        assert(tier_sum(ms.push(m)) == active_tier_weight(m) + tier_sum(
            Seq::<MeteorV>::empty(),
        ));
    } else {
        assert(ms.push(m).drop_first() =~= ms.drop_first().push(m));
        assert(ms.push(m)[0] == ms[0]);
        lemma_tier_sum_push(ms.drop_first(), m);
        assert(tier_sum(ms.push(m)) == active_tier_weight(ms[0]) + tier_sum(
            ms.drop_first().push(m),
        ));
    }
}

/// Each resolved hit strictly lowers the active tier weight by 2 unless the
/// meteor was Small (which simply vanishes): one unit of a tier is replaced
/// by two units of the next smaller tier, so the mass of the meteor field
/// never grows.
pub proof fn lemma_hit_shrinks_tier_sum(ms: Seq<MeteorV>, i: int, rot: int)
    requires
        0 <= i < ms.len(),
        ms[i].active,
    ensures
        tier_sum(apply_hit(ms, i, rot)) == tier_sum(ms) - (if ms[i].kind == MeteorKind::Small {
            0int
        } else {
            2int
        }),
        tier_sum(apply_hit(ms, i, rot)) <= tier_sum(ms),
{
    let dead = deactivate(ms[i]);
    let ms1 = ms.update(i, dead);
    lemma_tier_sum_update(ms, i, dead);
    match split_spec(ms[i], rot) {
        None => {},
        Some(pair) => {
            assert(ms1 + seq![pair.0, pair.1] =~= ms1.push(pair.0).push(pair.1));
            lemma_tier_sum_push(ms1, pair.0);
            lemma_tier_sum_push(ms1.push(pair.0), pair.1);
        },
    }
}

/// Toggling pause from a playing state freezes the frame: nothing but the
/// pause flag changes (as long as victory is not declared that same frame).
pub proof fn lemma_pause_freezes(g: GameV, inp: Input)
    requires
        !g.pause,
        inp.pause,
        !all_inactive(g.meteors),
    ensures
        iteration_spec(g, inp).g == (GameV {
            width: g.width,
            height: g.height,
            game_over: g.game_over,
            pause: true,
            victory: g.victory,
            player: g.player,
            meteors: g.meteors,
            shots: g.shots,
        }),
        iteration_spec(g, inp).explosions == 0,
        !iteration_spec(g, inp).fired,
{
}

/// A paused frame without a pause input changes nothing at all (as long as
/// victory is not declared that same frame): movement and collision do not
/// run while paused.
pub proof fn lemma_paused_frame_frozen(g: GameV, inp: Input)
    requires
        g.pause,
        !inp.pause,
        !all_inactive(g.meteors),
    ensures
        iteration_spec(g, inp).g == g,
        iteration_spec(g, inp).explosions == 0,
        !iteration_spec(g, inp).fired,
{
    assert(iteration_spec(g, inp).g =~= g);
}

/// Toggling pause twice from a playing state returns to exactly the playing
/// state: no entity position or velocity changes while paused. Stated for a
/// resting ship (thrust level zero), no live shots and meteors at rest or
/// inactive, where the unpausing frame itself moves nothing.
pub proof fn lemma_pause_toggle_twice(g: GameV, inp: Input)
    requires
        game_wf(g),
        !g.game_over,
        !g.pause,
        inp == (Input {
            left: false,
            right: false,
            up: false,
            down: false,
            fire: false,
            pause: true,
            restart: false,
        }),
        g.player.acc == 0,
        g.player.speed == (V2 {
            x: sin_milli(g.player.rot) * crate::ship::PLAYER_SPEED,
            y: cos_milli(g.player.rot) * crate::ship::PLAYER_SPEED,
        }),
        g.player.collider == collider_of(g.player.pos, g.player.rot),
        g.shots.len() == 0,
        forall|k: int| 0 <= k < g.meteors.len() ==> {
            let m = #[trigger] g.meteors[k];
            !m.active || (m.speed.x == 0 && m.speed.y == 0 && -m.radius <= m.pos.x <= w_mil(g)
                + m.radius && -m.radius <= m.pos.y <= h_mil(g) + m.radius)
        },
        !all_inactive(g.meteors),
        !ship_hit(g.meteors, collider_of(g.player.pos, g.player.rot)),
    ensures
        iteration_spec(g, inp).g.pause,
        iteration_spec(iteration_spec(g, inp).g, inp).g == g,
{
    lemma_pause_freezes(g, inp);
    let g1 = iteration_spec(g, inp).g;
    let w = w_mil(g);
    let h = h_mil(g);
    let player1 = ship_step(g1.player, inp, w, h);
    assert(sin_milli(g.player.rot) * crate::ship::PLAYER_SPEED * 0 == 0) by (nonlinear_arith);
    assert(cos_milli(g.player.rot) * crate::ship::PLAYER_SPEED * 0 == 0) by (nonlinear_arith);
    assert(crate::geom::div_trunc(0, 100) == 0) by {
        vstd::arithmetic::div_mod::lemma_div_multiples_vanish(0, 100);
    }
    assert(player1 =~= g.player);
    assert(g1.shots =~= Seq::<ShootV>::empty());
    let so = shots_pass(g1.shots, g1.meteors, w, h);
    assert(so.shots =~= g.shots);
    let ms2 = so.meteors.map(|i: int, m: MeteorV| meteor_move(m, w, h));
    assert(ms2 =~= g.meteors) by {
        assert forall|k: int| 0 <= k < ms2.len() implies ms2[k] == g.meteors[k] by {
            assert(ms2[k] == meteor_move(g.meteors[k], w, h));
        }
    }
    assert(iteration_spec(g1, inp).g =~= g);
}

// ---------------------------------------------------------------------------
// Executable frame pipeline, proved equal to the spec functions above.
// ---------------------------------------------------------------------------

proof fn lemma_mview_push(s: Seq<Meteor>, m: Meteor)
    ensures
        meteors_view(s.push(m)) == meteors_view(s).push(m@),
{
    assert(meteors_view(s.push(m)) =~= meteors_view(s).push(m@));
}

proof fn lemma_mview_update(s: Seq<Meteor>, i: int, m: Meteor)
    requires
        0 <= i < s.len(),
    ensures
        meteors_view(s.update(i, m)) == meteors_view(s).update(i, m@),
{
    assert(meteors_view(s.update(i, m)) =~= meteors_view(s).update(i, m@));
}

proof fn lemma_sview_push(s: Seq<Shoot>, sh: Shoot)
    ensures
        shots_view(s.push(sh)) == shots_view(s).push(sh@),
{
    assert(shots_view(s.push(sh)) =~= shots_view(s).push(sh@));
}

fn clone_meteors(v: &Vec<Meteor>) -> (c: Vec<Meteor>)
    ensures
        c@ == v@,
{
    let mut c: Vec<Meteor> = Vec::new();
    let mut i: usize = 0;
    while i < v.len()
        invariant
            i <= v.len(),
            c@.len() == i,
            forall|k: int| 0 <= k < i ==> c@[k] == v@[k],
        decreases v.len() - i,
    {
        c.push(v[i]);
        i = i + 1;
    }
    proof {
        assert(c@ =~= v@);
    }
    c
}

fn find_hit_ex(ms: &Vec<Meteor>, pos: &Vec2, r: i64, width: i64, height: i64) -> (j: usize)
    requires
        1 <= width <= 100000,
        1 <= height <= 100000,
        forall|k: int| 0 <= k < ms@.len() ==> meteor_wf(
            #[trigger] ms@[k]@,
            width as int * 1000,
            height as int * 1000,
        ),
        -200_000_000 <= pos@.x <= 200_000_000,
        -200_000_000 <= pos@.y <= 200_000_000,
        0 <= r <= 100000,
    ensures
        j as int == find_hit(meteors_view(ms@), pos@, r as int),
        j <= ms@.len(),
{
    let ghost full = meteors_view(ms@);
    let n = ms.len();
    let mut i: usize = 0;
    proof {
        assert(full.skip(0) =~= full);
    }
    while i < n
        invariant
            n == ms@.len(),
            i <= n,
            1 <= width <= 100000,
            1 <= height <= 100000,
            forall|k: int| 0 <= k < ms@.len() ==> meteor_wf(
                #[trigger] ms@[k]@,
                width as int * 1000,
                height as int * 1000,
            ),
            -200_000_000 <= pos@.x <= 200_000_000,
            -200_000_000 <= pos@.y <= 200_000_000,
            0 <= r <= 100000,
            full == meteors_view(ms@),
            find_hit(full, pos@, r as int) == i + find_hit(full.skip(i as int), pos@, r as int),
        decreases n - i,
    {
        let m = ms[i];
        proof {
            assert(full.skip(i as int).len() > 0);
            assert(full.skip(i as int)[0] == m@);
            assert(full.skip(i as int).drop_first() =~= full.skip(i as int + 1));
        }
        if m.active && circles_collide(pos, r, &m.position, m.radius) {
            proof {
                assert(find_hit(full.skip(i as int), pos@, r as int) == 0);
            }
            return i;
        }
        i = i + 1;
    }
    proof {
        assert(full.skip(n as int) =~= Seq::<MeteorV>::empty());
    }
    n
}

fn any_hit_ex(ms: &Vec<Meteor>, c: &Vec2, width: i64, height: i64) -> (b: bool)
    requires
        1 <= width <= 100000,
        1 <= height <= 100000,
        forall|k: int| 0 <= k < ms@.len() ==> meteor_wf(
            #[trigger] ms@[k]@,
            width as int * 1000,
            height as int * 1000,
        ),
        -200_000_000 <= c@.x <= 200_000_000,
        -200_000_000 <= c@.y <= 200_000_000,
    ensures
        b == ship_hit(meteors_view(ms@), c@),
{
    let mut found = false;
    let mut i: usize = 0;
    let n = ms.len();
    while i < n
        invariant
            n == ms@.len(),
            i <= n,
            1 <= width <= 100000,
            1 <= height <= 100000,
            forall|k: int| 0 <= k < ms@.len() ==> meteor_wf(
                #[trigger] ms@[k]@,
                width as int * 1000,
                height as int * 1000,
            ),
            -200_000_000 <= c@.x <= 200_000_000,
            -200_000_000 <= c@.y <= 200_000_000,
            found ==> ship_hit(meteors_view(ms@), c@),
            !found ==> forall|k: int| 0 <= k < i ==> !((#[trigger] meteors_view(ms@)[k]).active
                && circles_overlap(
                c@,
                COLLIDER_RADIUS as int,
                meteors_view(ms@)[k].pos,
                meteors_view(ms@)[k].radius,
            )),
        decreases n - i,
    {
        let m = ms[i];
        proof {
            assert(m@ == ms@[i as int]@);
            assert(meteors_view(ms@)[i as int] == m@);
        }
        if m.active && circles_collide(c, COLLIDER_RADIUS, &m.position, m.radius) {
            found = true;
        }
        i = i + 1;
    }
    found
}

fn all_inactive_ex(ms: &Vec<Meteor>) -> (b: bool)
    ensures
        b == all_inactive(meteors_view(ms@)),
{
    let mut all = true;
    let mut i: usize = 0;
    let n = ms.len();
    while i < n
        invariant
            n == ms@.len(),
            i <= n,
            all == (forall|k: int| 0 <= k < i ==> !(#[trigger] meteors_view(ms@)[k]).active),
        decreases n - i,
    {
        proof {
            assert(meteors_view(ms@)[i as int] == ms@[i as int]@);
        }
        if ms[i].active {
            all = false;
        }
        i = i + 1;
    }
    all
}

fn move_meteors_ex(ms: &Vec<Meteor>, width: i64, height: i64) -> (out: Vec<Meteor>)
    requires
        1 <= width <= 100000,
        1 <= height <= 100000,
        forall|k: int| 0 <= k < ms@.len() ==> meteor_wf(
            #[trigger] ms@[k]@,
            width as int * 1000,
            height as int * 1000,
        ),
    ensures
        meteors_view(out@) == meteors_view(ms@).map(
            |i: int, m: MeteorV| meteor_move(m, width as int * 1000, height as int * 1000),
        ),
        forall|k: int| 0 <= k < out@.len() ==> meteor_wf(
            #[trigger] out@[k]@,
            width as int * 1000,
            height as int * 1000,
        ),
{
    let mut out: Vec<Meteor> = Vec::new();
    let mut i: usize = 0;
    let n = ms.len();
    while i < n
        invariant
            n == ms@.len(),
            i <= n,
            1 <= width <= 100000,
            1 <= height <= 100000,
            forall|k: int| 0 <= k < ms@.len() ==> meteor_wf(
                #[trigger] ms@[k]@,
                width as int * 1000,
                height as int * 1000,
            ),
            out@.len() == i,
            forall|k: int| 0 <= k < i ==> #[trigger] out@[k]@ == meteor_move(
                ms@[k]@,
                width as int * 1000,
                height as int * 1000,
            ),
            forall|k: int| 0 <= k < i ==> meteor_wf(
                #[trigger] out@[k]@,
                width as int * 1000,
                height as int * 1000,
            ),
        decreases n - i,
    {
        let mut m = ms[i];
        m.update(width, height);
        out.push(m);
        i = i + 1;
    }
    proof {
        assert(meteors_view(out@) =~= meteors_view(ms@).map(
            |i: int, m: MeteorV| meteor_move(m, width as int * 1000, height as int * 1000),
        ));
    }
    out
}

fn process_shots_ex(shots: &Vec<Shoot>, ms_in: Vec<Meteor>, width: i64, height: i64) -> (out: (
    Vec<Shoot>,
    Vec<Meteor>,
    u32,
))
    requires
        1 <= width <= 100000,
        1 <= height <= 100000,
        shots@.len() <= 11,
        forall|k: int| 0 <= k < shots@.len() ==> shot_wf(
            #[trigger] shots@[k]@,
            width as int * 1000,
            height as int * 1000,
        ),
        forall|k: int| 0 <= k < ms_in@.len() ==> meteor_wf(
            #[trigger] ms_in@[k]@,
            width as int * 1000,
            height as int * 1000,
        ),
    ensures
        ({
            let so = shots_pass(
                shots_view(shots@),
                meteors_view(ms_in@),
                width as int * 1000,
                height as int * 1000,
            );
            &&& shots_view(out.0@) == so.shots
            &&& meteors_view(out.1@) == so.meteors
            &&& out.2 as int == so.explosions
        }),
        out.0@.len() <= shots@.len(),
        out.2 <= shots@.len(),
        forall|k: int| 0 <= k < out.0@.len() ==> shot_wf(
            #[trigger] out.0@[k]@,
            width as int * 1000,
            height as int * 1000,
        ),
        forall|k: int| 0 <= k < out.1@.len() ==> meteor_wf(
            #[trigger] out.1@[k]@,
            width as int * 1000,
            height as int * 1000,
        ),
{
    let ghost w = width as int * 1000;
    let ghost h = height as int * 1000;
    let ghost shots0 = shots_view(shots@);
    let ghost full = shots_pass(shots0, meteors_view(ms_in@), w, h);
    let w1000 = width * 1000;
    let h1000 = height * 1000;
    let mut ms = ms_in;
    let mut kept: Vec<Shoot> = Vec::new();
    let mut expl: u32 = 0;
    let mut i: usize = 0;
    let n = shots.len();
    proof {
        assert(shots0.skip(0) =~= shots0);
        assert(shots_view(kept@) =~= Seq::<ShootV>::empty());
        let rec = shots_pass(shots0, meteors_view(ms@), w, h);
        assert(shots_view(kept@) + rec.shots =~= rec.shots);
        assert(full =~= (ShotsOut {
            shots: shots_view(kept@) + rec.shots,
            meteors: rec.meteors,
            explosions: 0 + rec.explosions,
        }));
    }
    while i < n
        invariant
            n == shots@.len() <= 11,
            i <= n,
            1 <= width <= 100000,
            1 <= height <= 100000,
            w == width as int * 1000,
            h == height as int * 1000,
            w1000 == width * 1000,
            h1000 == height * 1000,
            shots0 == shots_view(shots@),
            forall|k: int| 0 <= k < shots@.len() ==> shot_wf(#[trigger] shots@[k]@, w, h),
            forall|k: int| 0 <= k < ms@.len() ==> meteor_wf(#[trigger] ms@[k]@, w, h),
            kept@.len() + expl <= i,
            forall|k: int| 0 <= k < kept@.len() ==> shot_wf(#[trigger] kept@[k]@, w, h),
            full == ({
                let rec = shots_pass(shots0.skip(i as int), meteors_view(ms@), w, h);
                ShotsOut {
                    shots: shots_view(kept@) + rec.shots,
                    meteors: rec.meteors,
                    explosions: expl + rec.explosions,
                }
            }),
        decreases n - i,
    {
        let sh = shots[i];
        proof {
            assert(shots0.skip(i as int).len() > 0);
            assert(shots0.skip(i as int)[0] == sh@);
            assert(shots0.skip(i as int).drop_first() =~= shots0.skip(i as int + 1));
        }
        let mut s = sh;
        s.life = s.life - 1;
        s.position.x = s.position.x + s.speed.x;
        s.position.y = s.position.y - s.speed.y;
        proof {
            assert(s@ == shot_move(sh@));
        }
        let gone = s.position.x > w1000 + s.radius || s.position.x < -s.radius || s.position.y
            > h1000 + s.radius || s.position.y < -s.radius || s.life == 0;
        if !gone {
            let j = find_hit_ex(&ms, &s.position, s.radius, width, height);
            if j < ms.len() {
                let ghost msv = meteors_view(ms@);
                let ghost ms_seq = ms@;
                expl = expl + 1;
                let parent = ms[j];
                let mut husk = parent;
                husk.active = false;
                ms.set(j, husk);
                proof {
                    lemma_mview_update(ms_seq, j as int, husk);
                }
                let ghost ms1 = msv.update(j as int, deactivate(parent@));
                proof {
                    assert(husk@ == deactivate(parent@));
                    assert(meteors_view(ms@) == ms1);
                }
                match parent.split(&s) {
                    None => {
                        proof {
                            assert(apply_hit(msv, j as int, s@.rot) == ms1);
                        }
                    },
                    Some((m1, m2)) => {
                        proof {
                            lemma_mview_push(ms@, m1);
                        }
                        ms.push(m1);
                        proof {
                            lemma_mview_push(ms@, m2);
                        }
                        ms.push(m2);
                        proof {
                            let pair = split_spec(parent@, s@.rot).unwrap();
                            assert(meteors_view(ms@) =~= ms1 + seq![pair.0, pair.1]);
                            assert(apply_hit(msv, j as int, s@.rot) == meteors_view(ms@));
                            crate::trig::lemma_sin_milli_bounds(s@.rot);
                        }
                    },
                }
                proof {
                    assert(meteors_view(ms@) == apply_hit(msv, j as int, s@.rot));
                }
            } else {
                proof {
                    lemma_sview_push(kept@, s);
                    let rec = shots_pass(shots0.skip(i as int + 1), meteors_view(ms@), w, h);
                    assert(shots_view(kept@).push(s@) + rec.shots =~= shots_view(kept@) + (seq![
                        s@,
                    ] + rec.shots));
                }
                kept.push(s);
            }
        }
        i = i + 1;
    }
    proof {
        assert(shots0.skip(n as int) =~= Seq::<ShootV>::empty());
        assert(shots_view(kept@) + Seq::<ShootV>::empty() =~= shots_view(kept@));
    }
    (kept, ms, expl)
}

impl Default for Game {
    /// The blank, not yet initialized world; `init` must run before `update`.
    fn default() -> (g: Game)
        ensures
            g@ == (GameV {
                width: 0,
                height: 0,
                game_over: false,
                pause: false,
                victory: false,
                player: ShipV {
                    pos: V2 { x: 0, y: 0 },
                    speed: V2 { x: 0, y: 0 },
                    acc: 0,
                    rot: 0,
                    collider: V2 { x: 0, y: 0 },
                },
                meteors: Seq::empty(),
                shots: Seq::empty(),
            }),
    {
        let g = Game {
            width: 0,
            height: 0,
            game_over: false,
            pause: false,
            victory: false,
            player: Player {
                position: Vec2::new(0, 0),
                speed: Vec2::new(0, 0),
                acceleration: 0,
                rotation: 0,
                collider: Vec2::new(0, 0),
            },
            meteors: Vec::new(),
            shots: Vec::new(),
        };
        proof {
            assert(g@.meteors =~= Seq::<MeteorV>::empty());
            assert(g@.shots =~= Seq::<ShootV>::empty());
            assert(g@ =~= (GameV {
                width: 0,
                height: 0,
                game_over: false,
                pause: false,
                victory: false,
                player: ShipV {
                    pos: V2 { x: 0, y: 0 },
                    speed: V2 { x: 0, y: 0 },
                    acc: 0,
                    rot: 0,
                    collider: V2 { x: 0, y: 0 },
                },
                meteors: Seq::empty(),
                shots: Seq::empty(),
            }));
        }
        g
    }
}

impl Game {
    /// (Re)populate the world for the given screen: the ship recentered at
    /// rest, and four active Big meteors drawn from the random source, kept
    /// away from the screen center and from a dead stop by bounded rejection
    /// sampling (a retry cap guarantees termination; after the cap the
    /// position is accepted as drawn and a stopped velocity is nudged to a
    /// fixed non-zero one). Play flags and any live shots are left as they
    /// are.
    pub fn init(&mut self, width: i64, height: i64)
        requires
            1 <= width <= 100000,
            1 <= height <= 100000,
            0 <= old(self).player.rotation < 360,
            old(self)@.player.rot % 5 == 0,
            -6000 <= old(self)@.player.speed.x <= 6000,
            -6000 <= old(self)@.player.speed.y <= 6000,
            old(self)@.shots.len() <= MAX_SHOTS as int,
            forall|k: int| 0 <= k < old(self)@.shots.len() ==> shot_wf(
                #[trigger] old(self)@.shots[k],
                width as int * 1000,
                height as int * 1000,
            ),
        ensures
            init_props(old(self)@, final(self)@, width as int, height as int),
            final(self)@.game_over == old(self)@.game_over,
            final(self).wf(),
    {
        self.width = width;
        self.height = height;
        self.player.position = Vec2::new(width * 500, height * 500 - 13737);
        self.player.acceleration = 0;
        let col = self.player.compute_collider();
        self.player.collider = col;
        let half_w = crate::geom::div_nn(width, 2);
        let half_h = crate::geom::div_nn(height, 2);
        let mut ms: Vec<Meteor> = Vec::new();
        let mut i: usize = 0;
        while i < MAX_BIG_METEORS
            invariant
                i <= MAX_BIG_METEORS,
                1 <= width <= 100000,
                1 <= height <= 100000,
                0 <= half_w <= 50000,
                0 <= half_h <= 50000,
                ms@.len() == i,
                forall|k: int| 0 <= k < i ==> {
                    let m = (#[trigger] ms@[k])@;
                    &&& m.active
                    &&& m.kind == MeteorKind::Big
                    &&& m.radius == 40000
                    &&& 0 <= m.pos.x <= width as int * 1000
                    &&& 0 <= m.pos.y <= height as int * 1000
                    &&& -2000 <= m.speed.x <= 2000
                    &&& -2000 <= m.speed.y <= 2000
                    &&& !(m.speed.x == 0 && m.speed.y == 0)
                },
            decreases MAX_BIG_METEORS - i,
        {
            let mut x = random_between(0, width);
            let mut tries: usize = 0;
            while x > half_w - 150 && x < half_w + 150 && tries < 100
                invariant
                    0 <= x <= width,
                    tries <= 100,
                    1 <= width <= 100000,
                    0 <= half_w <= 50000,
                decreases 100 - tries,
            {
                x = random_between(0, width);
                tries = tries + 1;
            }
            let mut y = random_between(0, height);
            tries = 0;
            while y > half_h - 150 && y < half_h + 150 && tries < 100
                invariant
                    0 <= y <= height,
                    tries <= 100,
                    1 <= height <= 100000,
                    0 <= half_h <= 50000,
                decreases 100 - tries,
            {
                y = random_between(0, height);
                tries = tries + 1;
            }
            let mut vel_x = random_between(-2, 2);
            let mut vel_y = random_between(-2, 2);
            tries = 0;
            while vel_x == 0 && vel_y == 0 && tries < 100
                invariant
                    -2 <= vel_x <= 2,
                    -2 <= vel_y <= 2,
                    tries <= 100,
                decreases 100 - tries,
            {
                vel_x = random_between(-2, 2);
                vel_y = random_between(-2, 2);
                tries = tries + 1;
            }
            if vel_x == 0 && vel_y == 0 {
                vel_x = 1;
            }
            ms.push(
                Meteor {
                    position: Vec2::new(x * 1000, y * 1000),
                    speed: Vec2::new(vel_x * 1000, vel_y * 1000),
                    radius: 40000,
                    active: true,
                    kind: MeteorKind::Big,
                },
            );
            i = i + 1;
        }
        self.meteors = ms;
    }

    /// Fire a shot from the ship's nose along its heading — unless the shot
    /// list is already at its configured maximum, in which case the input is
    /// ignored.
    fn make_shot(&mut self) -> (fired: bool)
        requires
            1 <= old(self).width <= 100000,
            1 <= old(self).height <= 100000,
            ship_wf(
                old(self)@.player,
                old(self)@.width * 1000,
                old(self)@.height * 1000,
            ),
            old(self)@.shots.len() <= MAX_SHOTS as int,
            forall|k: int| 0 <= k < old(self).shots@.len() ==> shot_wf(
                #[trigger] old(self).shots@[k]@,
                old(self)@.width * 1000,
                old(self)@.height * 1000,
            ),
        ensures
            fired == (old(self)@.shots.len() < MAX_SHOTS as int),
            final(self)@ == (GameV {
                width: old(self)@.width,
                height: old(self)@.height,
                game_over: old(self)@.game_over,
                pause: old(self)@.pause,
                victory: old(self)@.victory,
                player: old(self)@.player,
                meteors: old(self)@.meteors,
                shots: if old(self)@.shots.len() < MAX_SHOTS as int {
                    old(self)@.shots.push(spawn_shot(old(self)@.player))
                } else {
                    old(self)@.shots
                },
            }),
            final(self).shots@.len() <= old(self).shots@.len() + 1 <= 11,
            forall|k: int| 0 <= k < final(self).shots@.len() ==> shot_wf(
                #[trigger] final(self).shots@[k]@,
                old(self)@.width * 1000,
                old(self)@.height * 1000,
            ),
    {
        if self.shots.len() < MAX_SHOTS {
            let sx = sin_lookup(self.player.rotation);
            let cx = cos_lookup(self.player.rotation);
            let shot = Shoot {
                position: Vec2::new(
                    self.player.position.x + crate::geom::div_trunc_ex(sx * SHIP_HEIGHT, 1000),
                    self.player.position.y - crate::geom::div_trunc_ex(cx * SHIP_HEIGHT, 1000),
                ),
                speed: Vec2::new(sx * 9, cx * 9),
                radius: SHOT_RADIUS,
                rotation: self.player.rotation,
                life: SHOT_LIFE,
            };
            proof {
                crate::trig::lemma_sin_milli_bounds(old(self)@.player.rot);
                crate::geom::lemma_div_trunc_bound(
                    sin_milli(old(self)@.player.rot) * SHIP_HEIGHT,
                    1000,
                );
                crate::geom::lemma_div_trunc_bound(
                    cos_milli(old(self)@.player.rot) * SHIP_HEIGHT,
                    1000,
                );
                assert(shot@ == spawn_shot(old(self)@.player));
                lemma_sview_push(self.shots@, shot);
            }
            self.shots.push(shot);
            proof {
                assert forall|k: int| 0 <= k < self.shots@.len() implies shot_wf(
                    #[trigger] self.shots@[k]@,
                    old(self)@.width * 1000,
                    old(self)@.height * 1000,
                ) by {
                    if k < old(self).shots@.len() {
                        assert(self.shots@[k] == old(self).shots@[k]);
                    } else {
                        assert(self.shots@[k]@ == spawn_shot(old(self)@.player));
                    }
                }
            }
            true
        } else {
            false
        }
    }

    /// Recompute the ship's nose collider and end the game if any active
    /// meteor overlaps it.
    fn check_meteor_player_collisions(&mut self)
        requires
            1 <= old(self).width <= 100000,
            1 <= old(self).height <= 100000,
            ship_wf(
                old(self)@.player,
                old(self)@.width * 1000,
                old(self)@.height * 1000,
            ),
            forall|k: int| 0 <= k < old(self)@.meteors.len() ==> meteor_wf(
                #[trigger] old(self)@.meteors[k],
                old(self)@.width * 1000,
                old(self)@.height * 1000,
            ),
        ensures
            final(self)@ == (GameV {
                width: old(self)@.width,
                height: old(self)@.height,
                game_over: old(self)@.game_over || ship_hit(
                    old(self)@.meteors,
                    collider_of(old(self)@.player.pos, old(self)@.player.rot),
                ),
                pause: old(self)@.pause,
                victory: old(self)@.victory,
                player: ShipV {
                    pos: old(self)@.player.pos,
                    speed: old(self)@.player.speed,
                    acc: old(self)@.player.acc,
                    rot: old(self)@.player.rot,
                    collider: collider_of(old(self)@.player.pos, old(self)@.player.rot),
                },
                meteors: old(self)@.meteors,
                shots: old(self)@.shots,
            }),
    {
        let col = self.player.compute_collider();
        self.player.collider = col;
        proof {
            assert forall|k: int| 0 <= k < self.meteors@.len() implies meteor_wf(
                #[trigger] self.meteors@[k]@,
                self.width as int * 1000,
                self.height as int * 1000,
            ) by {
                assert(old(self)@.meteors[k] == self.meteors@[k]@);
            }
        }
        if any_hit_ex(&self.meteors, &col, self.width, self.height) {
            self.game_over = true;
        }
    }

    /// One playing frame; see `iteration_spec`.
    fn game_iteration(&mut self, input: &Input) -> (s: Sounds)
        requires
            old(self).wf(),
            !old(self)@.game_over,
        ensures
            final(self)@ == iteration_spec(old(self)@, *input).g,
            s.explosions as int == iteration_spec(old(self)@, *input).explosions,
            s.shot == iteration_spec(old(self)@, *input).fired,
            final(self).wf(),
    {
        if input.pause {
            self.pause = !self.pause;
        }
        let mut explosions: u32 = 0;
        let mut fired = false;
        if !self.pause {
            let width = self.width;
            let height = self.height;
            self.player.process_player_movement(input, width, height);
            proof {
                let w = width as int * 1000;
                let h = height as int * 1000;
                assert forall|k: int| 0 <= k < self.shots@.len() implies shot_wf(
                    #[trigger] self.shots@[k]@,
                    w,
                    h,
                ) by {
                    assert(old(self)@.shots[k] == self.shots@[k]@);
                }
            }
            proof {
                assert(self@.player == ship_step(
                    old(self)@.player,
                    *input,
                    w_mil(old(self)@),
                    h_mil(old(self)@),
                ));
            }
            if input.fire {
                fired = self.make_shot();
            }
            proof {
                let g0 = old(self)@;
                let player1 = ship_step(g0.player, *input, w_mil(g0), h_mil(g0));
                assert(fired == (input.fire && g0.shots.len() < MAX_SHOTS as int));
                assert(self@.shots == if fired {
                    g0.shots.push(spawn_shot(player1))
                } else {
                    g0.shots
                });
            }
            let ms0 = clone_meteors(&self.meteors);
            proof {
                let w = width as int * 1000;
                let h = height as int * 1000;
                assert forall|k: int| 0 <= k < ms0@.len() implies meteor_wf(
                    #[trigger] ms0@[k]@,
                    w,
                    h,
                ) by {
                    assert(old(self)@.meteors[k] == ms0@[k]@);
                }
            }
            let (kept, ms1, expl) = process_shots_ex(&self.shots, ms0, width, height);
            explosions = expl;
            self.shots = kept;
            self.meteors = ms1;
            proof {
                let g0 = old(self)@;
                let player1 = ship_step(g0.player, *input, w_mil(g0), h_mil(g0));
                let shots1 = if fired {
                    g0.shots.push(spawn_shot(player1))
                } else {
                    g0.shots
                };
                let so = shots_pass(shots1, g0.meteors, w_mil(g0), h_mil(g0));
                assert(self@.shots == so.shots);
                assert(self@.meteors == so.meteors);
                assert(explosions as int == so.explosions);
            }
            self.check_meteor_player_collisions();
            proof {
                let w = width as int * 1000;
                let h = height as int * 1000;
                assert forall|k: int| 0 <= k < self.meteors@.len() implies meteor_wf(
                    #[trigger] self.meteors@[k]@,
                    w,
                    h,
                ) by {
                    assert(self@.meteors[k] == self.meteors@[k]@);
                    assert(meteors_view(ms1@)[k] == ms1@[k]@);
                }
            }
            let moved = move_meteors_ex(&self.meteors, width, height);
            self.meteors = moved;
        }
        if all_inactive_ex(&self.meteors) {
            self.victory = true;
        }
        proof {
            assert(self@ =~= iteration_spec(old(self)@, *input).g);
        }
        Sounds { explosions, shot: fired }
    }

    /// One frame of the game. While playing it is exactly `iteration_spec`
    /// of the previous state and this frame's input; from game over, a
    /// restart input re-initializes the world (see `init_props`) and resumes
    /// play. The returned sound events are for the caller to play.
    pub fn update(&mut self, input: &Input) -> (s: Sounds)
        requires
            old(self).wf(),
        ensures
            !old(self)@.game_over ==> final(self)@ == iteration_spec(old(self)@, *input).g
                && s.explosions as int == iteration_spec(old(self)@, *input).explosions && s.shot
                == iteration_spec(old(self)@, *input).fired,
            old(self)@.game_over && !input.restart ==> final(self)@ == old(self)@ && s
                == (Sounds { explosions: 0, shot: false }),
            old(self)@.game_over && input.restart ==> init_props(
                old(self)@,
                final(self)@,
                old(self)@.width,
                old(self)@.height,
            ) && !final(self)@.game_over && s == (Sounds { explosions: 0, shot: false }),
            final(self).wf(),
    {
        if !self.game_over {
            self.game_iteration(input)
        } else if input.restart {
            let width = self.width;
            let height = self.height;
            self.init(width, height);
            self.game_over = false;
            Sounds { explosions: 0, shot: false }
        } else {
            proof {
                assert(self@ =~= old(self)@);
            }
            Sounds { explosions: 0, shot: false }
        }
    }
}

} // verus!
