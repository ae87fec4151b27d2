//! The shooter's ship: turning in 5-degree steps, thrust with asymmetric
//! ramp-up and decay, toroidal wrapping, and the nose collider.

use vstd::prelude::*;

use crate::geom::{div_trunc, div_trunc_ex, Vec2, V2};
use crate::input::Input;
use crate::trig::{cos_milli, cos_lookup, sin_milli, sin_lookup};

verus! {

/// Ship height in milli-pixels: 10 / tan(20°) pixels, the height of the
/// drawn triangle.
pub const SHIP_HEIGHT: i64 = 27475;

/// Full thrust speed in pixels per frame.
pub const PLAYER_SPEED: i64 = 6;

/// Distance from the ship's center to its nose collider, in milli-pixels
/// (ship height / 2.5).
pub const COLLIDER_OFFSET: i64 = 10990;

/// Radius of the nose collider, in milli-pixels.
pub const COLLIDER_RADIUS: i64 = 12000;

#[derive(Clone, Copy, Debug)]
pub struct Player {
    /// Center, in milli-pixels.
    pub position: Vec2,
    /// Velocity at full thrust for the current heading, in milli-pixels per
    /// frame; scaled by `acceleration` when integrating.
    pub speed: Vec2,
    /// Thrust level in hundredths, 0 through 100.
    pub acceleration: i64,
    /// Heading in degrees, a multiple of 5 in [0, 360).
    pub rotation: i64,
    /// Center of the nose collider, in milli-pixels; recomputed from the
    /// position and heading before each use.
    pub collider: Vec2,
}

#[verifier::ext_equal]
pub ghost struct ShipV {
    pub pos: V2,
    pub speed: V2,
    pub acc: int,
    pub rot: int,
    pub collider: V2,
}

impl View for Player {
    type V = ShipV;

    open spec fn view(&self) -> ShipV {
        ShipV {
            pos: self.position@,
            speed: self.speed@,
            acc: self.acceleration as int,
            rot: self.rotation as int,
            collider: self.collider@,
        }
    }
}

/// The ship wraps within one ship height of the screen, its heading is one
/// of the 72 reachable multiples of 5 degrees, and its thrust level is a
/// percentage.
pub open spec fn ship_wf(p: ShipV, w: int, h: int) -> bool {
    &&& -SHIP_HEIGHT <= p.pos.x <= w + SHIP_HEIGHT
    &&& -SHIP_HEIGHT <= p.pos.y <= h + SHIP_HEIGHT
    &&& 0 <= p.acc <= 100
    &&& 0 <= p.rot < 360
    &&& p.rot % 5 == 0
    &&& -6000 <= p.speed.x <= 6000
    &&& -6000 <= p.speed.y <= 6000
}

/// A heading one 5-degree step away, brought back into [0, 360).
pub open spec fn norm_deg(d: int) -> int {
    if d < 0 {
        d + 360
    } else if d >= 360 {
        d - 360
    } else {
        d
    }
}

/// Where the nose collider sits for a given position and heading.
pub open spec fn collider_of(pos: V2, rot: int) -> V2 {
    V2 {
        x: pos.x + div_trunc(sin_milli(rot) * COLLIDER_OFFSET, 1000),
        y: pos.y - div_trunc(cos_milli(rot) * COLLIDER_OFFSET, 1000),
    }
}

/// One movement frame: turn by the held keys, rederive the full-thrust
/// velocity from the heading, ramp the thrust level (up by 4 while thrusting,
/// down by 3 otherwise, down by 4 more on reverse thrust), advance by the
/// scaled velocity, and wrap toroidally with the ship height as margin. The
/// collider field is not touched here.
pub open spec fn ship_step(p: ShipV, inp: Input, w: int, h: int) -> ShipV {
    let rot1 = if inp.left {
        norm_deg(p.rot - 5)
    } else {
        p.rot
    };
    let rot = if inp.right {
        norm_deg(rot1 + 5)
    } else {
        rot1
    };
    let speed = V2 { x: sin_milli(rot) * PLAYER_SPEED, y: cos_milli(rot) * PLAYER_SPEED };
    let acc1 = if inp.up {
        if p.acc + 4 <= 100 {
            p.acc + 4
        } else {
            100
        }
    } else {
        if p.acc - 3 >= 0 {
            p.acc - 3
        } else {
            0
        }
    };
    let acc = if inp.down {
        if acc1 - 4 >= 0 {
            acc1 - 4
        } else {
            0
        }
    } else {
        acc1
    };
    let x1 = p.pos.x + div_trunc(speed.x * acc, 100);
    let y1 = p.pos.y - div_trunc(speed.y * acc, 100);
    let x2 = if x1 > w + SHIP_HEIGHT {
        -SHIP_HEIGHT
    } else if x1 < -SHIP_HEIGHT {
        w + SHIP_HEIGHT
    } else {
        x1
    };
    let y2 = if y1 > h + SHIP_HEIGHT {
        -SHIP_HEIGHT
    } else if y1 < -SHIP_HEIGHT {
        h + SHIP_HEIGHT
    } else {
        y1
    };
    ShipV { pos: V2 { x: x2, y: y2 }, speed, acc, rot, collider: p.collider }
}

/// The ship's position after a movement frame lies within one ship height
/// of the screen on both axes: the toroidal wrap never lets it escape,
/// wherever it started.
pub proof fn lemma_ship_step_stays_on_torus(p: ShipV, inp: Input, w: int, h: int)
    requires
        0 <= w,
        0 <= h,
    ensures
        -SHIP_HEIGHT <= ship_step(p, inp, w, h).pos.x <= w + SHIP_HEIGHT,
        -SHIP_HEIGHT <= ship_step(p, inp, w, h).pos.y <= h + SHIP_HEIGHT,
{
}

impl Player {
    /// One movement frame; see `ship_step`.
    #[verifier::rlimit(50)]
    pub fn process_player_movement(&mut self, input: &Input, width: i64, height: i64)
        requires
            1 <= width <= 100000,
            1 <= height <= 100000,
            ship_wf(old(self)@, width as int * 1000, height as int * 1000),
        ensures
            final(self)@ == ship_step(
                old(self)@,
                *input,
                width as int * 1000,
                height as int * 1000,
            ),
            ship_wf(final(self)@, width as int * 1000, height as int * 1000),
    {
        let w1000 = width * 1000;
        let h1000 = height * 1000;
        if input.left {
            self.rotation = self.rotation - 5;
            if self.rotation < 0 {
                self.rotation = self.rotation + 360;
            }
        }
        if input.right {
            self.rotation = self.rotation + 5;
            if self.rotation >= 360 {
                self.rotation = self.rotation - 360;
            }
        }
        self.speed.x = sin_lookup(self.rotation) * PLAYER_SPEED;
        self.speed.y = cos_lookup(self.rotation) * PLAYER_SPEED;
        if input.up {
            self.acceleration = if self.acceleration + 4 <= 100 {
                self.acceleration + 4
            } else {
                100
            };
        } else {
            self.acceleration = if self.acceleration - 3 >= 0 {
                self.acceleration - 3
            } else {
                0
            };
        }
        if input.down {
            self.acceleration = if self.acceleration - 4 >= 0 {
                self.acceleration - 4
            } else {
                0
            };
        }
        proof {
            assert(-600000 <= self@.speed.x * self@.acc <= 600000) by (nonlinear_arith)
                requires
                    -6000 <= self@.speed.x <= 6000,
                    0 <= self@.acc <= 100,
            ;
            assert(-600000 <= self@.speed.y * self@.acc <= 600000) by (nonlinear_arith)
                requires
                    -6000 <= self@.speed.y <= 6000,
                    0 <= self@.acc <= 100,
            ;
        }
        self.position.x = self.position.x + div_trunc_ex(self.speed.x * self.acceleration, 100);
        self.position.y = self.position.y - div_trunc_ex(self.speed.y * self.acceleration, 100);
        if self.position.x > w1000 + SHIP_HEIGHT {
            self.position.x = -SHIP_HEIGHT;
        } else if self.position.x < -SHIP_HEIGHT {
            self.position.x = w1000 + SHIP_HEIGHT;
        }
        if self.position.y > h1000 + SHIP_HEIGHT {
            self.position.y = -SHIP_HEIGHT;
        } else if self.position.y < -SHIP_HEIGHT {
            self.position.y = h1000 + SHIP_HEIGHT;
        }
    }

    /// Where the nose collider sits for the current position and heading.
    pub fn compute_collider(&self) -> (c: Vec2)
        requires
            0 <= self.rotation < 360,
            -100_000_000 <= self@.pos.x <= 200_000_000,
            -100_000_000 <= self@.pos.y <= 200_000_000,
        ensures
            c@ == collider_of(self@.pos, self@.rot),
    {
        let sx = sin_lookup(self.rotation);
        let cy = cos_lookup(self.rotation);
        Vec2::new(
            self.position.x + div_trunc_ex(sx * COLLIDER_OFFSET, 1000),
            self.position.y - div_trunc_ex(cy * COLLIDER_OFFSET, 1000),
        )
    }
}

} // verus!
