//! Meteors of the shooter: three size tiers, toroidal movement, and the
//! split rule that turns a hit meteor into two of the next smaller tier.

use vstd::prelude::*;

use crate::asteroids::Shoot;
use crate::geom::{Vec2, V2};
use crate::trig::{cos_milli, cos_lookup, sin_milli, sin_lookup};

verus! {

/// Speed the offspring of a split inherit, in pixels per frame.
pub const METEORS_SPEED: i64 = 2;

/// The three meteor size tiers.
#[derive(Clone, Copy, Debug, PartialEq, Eq, Structural)]
pub enum MeteorKind {
    Big,
    Medium,
    Small,
}

impl MeteorKind {
    /// The tier a split of this tier produces.
    pub open spec fn next_spec(self) -> Option<MeteorKind> {
        match self {
            MeteorKind::Big => Some(MeteorKind::Medium),
            MeteorKind::Medium => Some(MeteorKind::Small),
            MeteorKind::Small => None,
        }
    }

    /// The fixed radius of this tier, in milli-pixels.
    pub open spec fn radius_spec(self) -> int {
        match self {
            MeteorKind::Big => 40000,
            MeteorKind::Medium => 20000,
            MeteorKind::Small => 10000,
        }
    }

    pub fn next(&self) -> (n: Option<MeteorKind>)
        ensures
            n == self.next_spec(),
    {
        match self {
            MeteorKind::Big => Some(MeteorKind::Medium),
            MeteorKind::Medium => Some(MeteorKind::Small),
            MeteorKind::Small => None,
        }
    }

    pub fn get_radius(&self) -> (r: i64)
        ensures
            r as int == self.radius_spec(),
    {
        match self {
            MeteorKind::Big => 40000,
            MeteorKind::Medium => 20000,
            MeteorKind::Small => 10000,
        }
    }
}

#[derive(Clone, Copy, Debug)]
pub struct Meteor {
    /// Center, in milli-pixels.
    pub position: Vec2,
    /// Velocity, in milli-pixels per frame.
    pub speed: Vec2,
    /// Radius in milli-pixels; always the radius of `kind`.
    pub radius: i64,
    /// False once the meteor was shot; it then stays in the list as a husk.
    pub active: bool,
    pub kind: MeteorKind,
}

#[verifier::ext_equal]
pub ghost struct MeteorV {
    pub pos: V2,
    pub speed: V2,
    pub radius: int,
    pub active: bool,
    pub kind: MeteorKind,
}

impl View for Meteor {
    type V = MeteorV;

    open spec fn view(&self) -> MeteorV {
        MeteorV {
            pos: self.position@,
            speed: self.speed@,
            radius: self.radius as int,
            active: self.active,
            kind: self.kind,
        }
    }
}

/// A meteor stays within the largest tier's wrap margin of the screen (fresh
/// split offspring start at their larger parent's position) and moves slower
/// than its own radius per frame, so the toroidal wrap below keeps it there.
pub open spec fn meteor_wf(m: MeteorV, w: int, h: int) -> bool {
    &&& m.radius == m.kind.radius_spec()
    &&& -50000 <= m.pos.x <= w + 50000
    &&& -50000 <= m.pos.y <= h + 50000
    &&& -2000 <= m.speed.x <= 2000
    &&& -2000 <= m.speed.y <= 2000
}

/// One movement frame: integrate the velocity, then wrap around each screen
/// edge with the meteor's own radius as margin. Inactive meteors stay put.
pub open spec fn meteor_move(m: MeteorV, w: int, h: int) -> MeteorV {
    if m.active {
        let x1 = m.pos.x + m.speed.x;
        let y1 = m.pos.y + m.speed.y;
        let x2 = if x1 > w + m.radius {
            -m.radius
        } else if x1 < -m.radius {
            w + m.radius
        } else {
            x1
        };
        let y2 = if y1 > h + m.radius {
            -m.radius
        } else if y1 < -m.radius {
            h + m.radius
        } else {
            y1
        };
        MeteorV { pos: V2 { x: x2, y: y2 }, speed: m.speed, radius: m.radius, active: m.active, kind: m.kind }
    } else {
        m
    }
}

/// The two offspring a split produces: the next smaller tier at the parent's
/// position, flying apart along the hit shot's heading (mirrored), at the
/// fixed meteor speed. A Small meteor yields none.
pub open spec fn split_spec(m: MeteorV, rot: int) -> Option<(MeteorV, MeteorV)> {
    match m.kind.next_spec() {
        None => None,
        Some(k) => {
            let sx = cos_milli(rot) * METEORS_SPEED;
            let sy = sin_milli(rot) * METEORS_SPEED;
            Some(
                (
                    MeteorV {
                        pos: m.pos,
                        speed: V2 { x: sx, y: sy },
                        radius: k.radius_spec(),
                        active: true,
                        kind: k,
                    },
                    MeteorV {
                        pos: m.pos,
                        speed: V2 { x: -sx, y: -sy },
                        radius: k.radius_spec(),
                        active: true,
                        kind: k,
                    },
                ),
            )
        },
    }
}

/// An active meteor's position after a movement frame lies within one
/// radius of the screen on both axes: the toroidal wrap never lets it
/// escape, wherever it started.
pub proof fn lemma_meteor_move_stays_on_torus(m: MeteorV, w: int, h: int)
    requires
        m.active,
        m.radius > 0,
        0 <= w,
        0 <= h,
    ensures
        -m.radius <= meteor_move(m, w, h).pos.x <= w + m.radius,
        -m.radius <= meteor_move(m, w, h).pos.y <= h + m.radius,
{
}

impl Meteor {
    /// One movement frame; see `meteor_move`.
    pub fn update(&mut self, width: i64, height: i64)
        requires
            1 <= width <= 100000,
            1 <= height <= 100000,
            meteor_wf(old(self)@, width as int * 1000, height as int * 1000),
        ensures
            final(self)@ == meteor_move(old(self)@, width as int * 1000, height as int * 1000),
            meteor_wf(final(self)@, width as int * 1000, height as int * 1000),
            old(self).active ==> -final(self)@.radius <= final(self)@.pos.x <= width as int * 1000
                + final(self)@.radius,
            old(self).active ==> -final(self)@.radius <= final(self)@.pos.y <= height as int * 1000
                + final(self)@.radius,
    {
        if self.active {
            let w1000 = width * 1000;
            let h1000 = height * 1000;
            self.position.x = self.position.x + self.speed.x;
            self.position.y = self.position.y + self.speed.y;
            if self.position.x > w1000 + self.radius {
                self.position.x = -self.radius;
            } else if self.position.x < -self.radius {
                self.position.x = w1000 + self.radius;
            }
            if self.position.y > h1000 + self.radius {
                self.position.y = -self.radius;
            } else if self.position.y < -self.radius {
                self.position.y = h1000 + self.radius;
            }
        }
    }

    /// Split the meteor in two smaller parts, if its tier allows it.
    ///
    /// A Big parent yields exactly two Medium offspring at the parent's own
    /// position with the Medium radius; a Small parent yields `None` (it is
    /// simply removed by the caller).
    pub fn split(&self, shot: &Shoot) -> (out: Option<(Meteor, Meteor)>)
        requires
            0 <= shot.rotation < 360,
        ensures
            ({
                let s = split_spec(self@, shot.rotation as int);
                match out {
                    None => s is None,
                    Some(pair) => s == Some((pair.0@, pair.1@)),
                }
            }),
            self.kind == MeteorKind::Big ==> out is Some,
            self.kind == MeteorKind::Small ==> out is None,
            out is Some ==> {
                let pair = out.unwrap();
                &&& pair.0.position == self.position
                &&& pair.1.position == self.position
                &&& pair.0@.radius == self.kind.next_spec().unwrap().radius_spec()
                &&& pair.1@.radius == pair.0@.radius
                &&& pair.0.active && pair.1.active
            },
    {
        match self.kind.next() {
            None => None,
            Some(k) => {
                let r = k.get_radius();
                let sx = cos_lookup(shot.rotation) * METEORS_SPEED;
                let sy = sin_lookup(shot.rotation) * METEORS_SPEED;
                Some(
                    (
                        Meteor {
                            position: self.position,
                            speed: Vec2::new(sx, sy),
                            radius: r,
                            active: true,
                            kind: k,
                        },
                        Meteor {
                            position: self.position,
                            speed: Vec2::new(-sx, -sy),
                            radius: r,
                            active: true,
                            kind: k,
                        },
                    ),
                )
            },
        }
    }
}

} // verus!
