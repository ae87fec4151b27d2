use arcade::asteroids::{Game, Shoot, MAX_SHOTS};
use arcade::geom::Vec2;
use arcade::input::Input;
use arcade::meteor::{Meteor, MeteorKind};

fn none() -> Input {
    Input::none()
}

fn fire_key() -> Input {
    Input { fire: true, ..Input::none() }
}

fn pause_key() -> Input {
    Input { pause: true, ..Input::none() }
}

fn test_shot(rotation: i64) -> Shoot {
    Shoot {
        position: Vec2::new(100000, 100000),
        speed: Vec2::new(0, 0),
        radius: 2000,
        rotation,
        life: 10,
    }
}

#[test]
fn init_spawns_four_big_meteors() {
    let mut g = Game::default();
    g.init(800, 480);
    assert_eq!(g.meteors.len(), 4);
    for m in &g.meteors {
        assert!(m.active);
        assert!(matches!(m.kind, MeteorKind::Big));
        assert_eq!(m.radius, 40000);
        assert!(0 <= m.position.x && m.position.x <= 800000);
        assert!(0 <= m.position.y && m.position.y <= 480000);
        assert!(-2000 <= m.speed.x && m.speed.x <= 2000);
        assert!(-2000 <= m.speed.y && m.speed.y <= 2000);
        assert!(m.speed.x != 0 || m.speed.y != 0);
    }
    assert_eq!(g.player.position.x, 400000);
    assert_eq!(g.player.position.y, 226263);
    assert_eq!(g.player.acceleration, 0);
    assert_eq!(g.shots.len(), 0);
    assert!(!g.game_over);
    assert!(!g.victory);
}

#[test]
fn deactivating_all_meteors_declares_victory() {
    // With all four initial Big meteors deactivated directly, the next
    // frame sets the victory flag.
    let mut g = Game::default();
    g.init(800, 480);
    assert_eq!(g.meteors.len(), 4);
    assert!(!g.victory);
    for m in g.meteors.iter_mut() {
        m.active = false;
    }
    g.update(&none());
    assert!(g.victory);
    assert!(!g.game_over);
}

#[test]
fn fire_is_capped_at_max_shots() {
    // The configured maximum of live shots is enforced at the fire gate:
    // an eleventh shot is refused.
    let mut g = Game::default();
    g.init(800, 480);
    g.meteors.clear();
    for n in 1..=MAX_SHOTS {
        let s = g.update(&fire_key());
        assert!(s.shot);
        assert_eq!(g.shots.len(), n);
    }
    let s = g.update(&fire_key());
    assert!(!s.shot, "a fire input with a full shot list is ignored");
    assert_eq!(g.shots.len(), MAX_SHOTS);
}

#[test]
fn split_big_meteor_yields_two_mediums() {
    let parent = Meteor {
        position: Vec2::new(123000, 45000),
        speed: Vec2::new(1000, -1000),
        radius: 40000,
        active: true,
        kind: MeteorKind::Big,
    };
    let pair = parent.split(&test_shot(90)).unwrap();
    assert!(matches!(pair.0.kind, MeteorKind::Medium));
    assert!(matches!(pair.1.kind, MeteorKind::Medium));
    assert_eq!(pair.0.radius, 20000);
    assert_eq!(pair.1.radius, 20000);
    assert_eq!(pair.0.position.x, 123000);
    assert_eq!(pair.0.position.y, 45000);
    assert_eq!(pair.1.position.x, 123000);
    assert_eq!(pair.1.position.y, 45000);
    assert!(pair.0.active && pair.1.active);
    // Heading 90 degrees: cos 0, sin 1, meteor speed 2 pixels per frame,
    // mirrored between the two offspring.
    assert_eq!(pair.0.speed.x, 0);
    assert_eq!(pair.0.speed.y, 2000);
    assert_eq!(pair.1.speed.x, 0);
    assert_eq!(pair.1.speed.y, -2000);
}

#[test]
fn split_medium_yields_smalls_and_small_yields_none() {
    let mut m = Meteor {
        position: Vec2::new(0, 0),
        speed: Vec2::new(0, 0),
        radius: 20000,
        active: true,
        kind: MeteorKind::Medium,
    };
    let pair = m.split(&test_shot(0)).unwrap();
    assert!(matches!(pair.0.kind, MeteorKind::Small));
    assert_eq!(pair.0.radius, 10000);
    // Heading 0: cos 1, sin 0.
    assert_eq!(pair.0.speed.x, 2000);
    assert_eq!(pair.0.speed.y, 0);
    m.kind = MeteorKind::Small;
    m.radius = 10000;
    assert!(m.split(&test_shot(0)).is_none());
}

#[test]
fn shot_destroys_meteor_and_spawns_offspring() {
    let mut g = Game::default();
    g.init(800, 480);
    g.meteors.clear();
    g.meteors.push(Meteor {
        position: Vec2::new(100000, 100000),
        speed: Vec2::new(0, 0),
        radius: 40000,
        active: true,
        kind: MeteorKind::Big,
    });
    g.shots.push(Shoot {
        position: Vec2::new(95000, 105000),
        speed: Vec2::new(0, 0),
        radius: 2000,
        rotation: 0,
        life: 5,
    });
    let s = g.update(&none());
    assert_eq!(s.explosions, 1);
    assert_eq!(g.shots.len(), 0, "the hitting shot is consumed");
    assert_eq!(g.meteors.len(), 3);
    assert!(!g.meteors[0].active);
    assert!(g.meteors[1].active && g.meteors[2].active);
    assert!(matches!(g.meteors[1].kind, MeteorKind::Medium));
    assert!(matches!(g.meteors[2].kind, MeteorKind::Medium));
    // Offspring fly apart along the shot's heading (0 degrees: cos 1,
    // sin 0) and then move by that velocity in the same frame.
    assert_eq!(g.meteors[1].speed.x, 2000);
    assert_eq!(g.meteors[1].speed.y, 0);
    assert_eq!(g.meteors[2].speed.x, -2000);
    assert_eq!(g.meteors[2].speed.y, 0);
    assert_eq!(g.meteors[1].position.x, 102000);
    assert_eq!(g.meteors[1].position.y, 100000);
    assert_eq!(g.meteors[2].position.x, 98000);
    assert_eq!(g.meteors[2].position.y, 100000);
    assert!(!g.victory);
}

#[test]
fn small_meteor_vanishes_without_offspring() {
    let mut g = Game::default();
    g.init(800, 480);
    g.meteors.clear();
    g.meteors.push(Meteor {
        position: Vec2::new(100000, 100000),
        speed: Vec2::new(0, 0),
        radius: 10000,
        active: true,
        kind: MeteorKind::Small,
    });
    g.shots.push(Shoot {
        position: Vec2::new(100000, 100000),
        speed: Vec2::new(0, 0),
        radius: 2000,
        rotation: 0,
        life: 5,
    });
    let s = g.update(&none());
    assert_eq!(s.explosions, 1);
    assert_eq!(g.meteors.len(), 1);
    assert!(!g.meteors[0].active);
    // No active meteor is left, so the same frame declares victory.
    assert!(g.victory);
}

#[test]
fn shot_expires_when_life_runs_out() {
    let mut g = Game::default();
    g.init(800, 480);
    g.meteors.clear();
    g.shots.push(Shoot {
        position: Vec2::new(400000, 200000),
        speed: Vec2::new(0, 0),
        radius: 2000,
        rotation: 0,
        life: 2,
    });
    g.update(&none());
    assert_eq!(g.shots.len(), 1);
    assert_eq!(g.shots[0].life, 1);
    g.update(&none());
    assert_eq!(g.shots.len(), 0);
}

#[test]
fn shot_leaving_the_screen_is_removed() {
    let mut g = Game::default();
    g.init(800, 480);
    g.meteors.clear();
    g.shots.push(Shoot {
        position: Vec2::new(400000, 1000),
        speed: Vec2::new(0, 9000),
        radius: 2000,
        rotation: 0,
        life: 60,
    });
    g.update(&none());
    // It moved up to y = -8000, beyond its radius margin.
    assert_eq!(g.shots.len(), 0);
}

#[test]
fn ship_turns_thrusts_and_moves() {
    let mut g = Game::default();
    g.init(800, 480);
    let up_right = Input { up: true, right: true, ..Input::none() };
    g.update(&up_right);
    assert_eq!(g.player.rotation, 5);
    assert_eq!(g.player.acceleration, 4);
    // Heading 5 degrees: speed (87 * 6, 996 * 6) scaled by 4 percent.
    assert_eq!(g.player.speed.x, 522);
    assert_eq!(g.player.speed.y, 5976);
    assert_eq!(g.player.position.x, 400020);
    assert_eq!(g.player.position.y, 226024);
}

#[test]
fn rotation_wraps_around() {
    let mut g = Game::default();
    g.init(800, 480);
    let left = Input { left: true, ..Input::none() };
    g.update(&left);
    assert_eq!(g.player.rotation, 355);
    let right = Input { right: true, ..Input::none() };
    g.update(&right);
    assert_eq!(g.player.rotation, 0);
}

#[test]
fn acceleration_decays_without_thrust() {
    let mut g = Game::default();
    g.init(800, 480);
    g.player.acceleration = 10;
    g.update(&none());
    assert_eq!(g.player.acceleration, 7);
    let down = Input { down: true, ..Input::none() };
    g.update(&down);
    // Decay by 3, then reverse thrust by 4 more.
    assert_eq!(g.player.acceleration, 0);
    g.update(&none());
    assert_eq!(g.player.acceleration, 0);
}

#[test]
fn meteor_wraps_at_screen_edge() {
    let mut m = Meteor {
        position: Vec2::new(839000, 100000),
        speed: Vec2::new(2000, 0),
        radius: 40000,
        active: true,
        kind: MeteorKind::Big,
    };
    m.update(800, 480);
    assert_eq!(m.position.x, -40000);
    assert_eq!(m.position.y, 100000);
    let mut m2 = Meteor {
        position: Vec2::new(100000, -39000),
        speed: Vec2::new(0, -2000),
        radius: 40000,
        active: true,
        kind: MeteorKind::Big,
    };
    m2.update(800, 480);
    assert_eq!(m2.position.y, 520000);
}

#[test]
fn inactive_meteor_stays_put() {
    let mut m = Meteor {
        position: Vec2::new(100000, 100000),
        speed: Vec2::new(2000, 2000),
        radius: 40000,
        active: false,
        kind: MeteorKind::Big,
    };
    m.update(800, 480);
    assert_eq!(m.position.x, 100000);
    assert_eq!(m.position.y, 100000);
}

#[test]
fn ship_meteor_collision_ends_the_game() {
    let mut g = Game::default();
    g.init(800, 480);
    g.meteors.clear();
    // Park a meteor right on the ship's nose collider.
    g.meteors.push(Meteor {
        position: Vec2::new(400000, 215273),
        speed: Vec2::new(0, 0),
        radius: 40000,
        active: true,
        kind: MeteorKind::Big,
    });
    g.update(&none());
    assert!(g.game_over);
    // Game over freezes the world until a restart input.
    let px = g.player.position.x;
    g.update(&fire_key());
    assert!(g.game_over);
    assert_eq!(g.shots.len(), 0);
    assert_eq!(g.player.position.x, px);
    g.update(&Input { restart: true, ..Input::none() });
    assert!(!g.game_over);
    assert_eq!(g.meteors.len(), 4);
}

#[test]
fn pause_freezes_the_shooter() {
    let mut g = Game::default();
    g.init(800, 480);
    let positions: Vec<(i64, i64)> =
        g.meteors.iter().map(|m| (m.position.x, m.position.y)).collect();
    g.update(&pause_key());
    assert!(g.pause);
    let busy = Input { left: true, up: true, fire: true, ..Input::none() };
    g.update(&busy);
    g.update(&busy);
    for (m, p) in g.meteors.iter().zip(positions.iter()) {
        assert_eq!((m.position.x, m.position.y), *p);
    }
    assert_eq!(g.player.rotation, 0);
    assert_eq!(g.shots.len(), 0);
    g.update(&pause_key());
    assert!(!g.pause);
}
