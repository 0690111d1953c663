//! Tests for the behavior state machine and the animation engine, driven
//! through the public tick and pointer entry points.

use manzar::behavior::{BehaviorConfig, ManzarState};
use manzar::sprite::{Animation, AnimationDuration, ManzarSprites, Point, Sprite};

fn standard_pet(origin: Point) -> ManzarState {
    ManzarState::new(ManzarSprites::kitty(), BehaviorConfig::standard(), (800, 600), origin)
        .unwrap()
}

/// The sprite currently playing is an animation whose first frame is `first`.
fn playing_animation_starting_at(pet: &ManzarState, first: Point) -> bool {
    match &pet.animation.sprite {
        Sprite::Animated(a) => a.states[0] == first,
        Sprite::Static(_) => false,
    }
}

#[test]
fn config_and_roster_validation() {
    assert!(BehaviorConfig::standard().is_valid());
    let mut config = BehaviorConfig::standard();
    config.scratch_interval = 0;
    assert!(!config.is_valid());
    assert!(ManzarSprites::kitty().check_wf());
}

#[test]
fn construction_rejects_bad_speed() {
    let mut config = BehaviorConfig::standard();
    config.speed = 0;
    assert!(ManzarState::new(ManzarSprites::kitty(), config, (800, 600), Point(32, 32)).is_none());
}

#[test]
fn construction_rejects_bad_window() {
    let config = BehaviorConfig::standard();
    assert!(ManzarState::new(ManzarSprites::kitty(), config, (-1, 600), Point(32, 32)).is_none());
}

#[test]
fn construction_rejects_unplayable_sprite() {
    let mut sprites = ManzarSprites::kitty();
    sprites.idle = Sprite::Animated(Animation {
        states: vec![],
        duration: AnimationDuration::Infinite,
        speed: 100,
    });
    let config = BehaviorConfig::standard();
    assert!(ManzarState::new(sprites, config, (800, 600), Point(32, 32)).is_none());
}

#[test]
fn mouse_down_overwrites_pointer() {
    let mut pet = standard_pet(Point(32, 32));
    pet.on_mouse_down(500, 400);
    assert_eq!(pet.mouse, Point(500, 400));
    assert_eq!(pet.cat, Point(32, 32));
}

#[test]
fn move_to_places_pet() {
    let mut pet = standard_pet(Point(32, 32));
    pet.move_to(120, 130);
    assert_eq!(pet.cat, Point(120, 130));
}

#[test]
fn close_pet_never_moves() {
    let mut pet = standard_pet(Point(400, 300));
    for _ in 0..200 {
        let eff = pet.render();
        assert!(!eff.moved);
        assert_eq!(eff.pos, Point(400, 300));
    }
    assert_eq!(pet.cat, Point(400, 300));
}

#[test]
fn first_chase_tick_moves_toward_pointer() {
    let mut pet = standard_pet(Point(100, 100));
    pet.on_mouse_down(500, 500);
    let eff = pet.render();
    // Distance ~565.7 >= speed 10: the pet takes a ~10 px step along the
    // normalized delta, rounded: 100 - round(-400 * 10 / 565) = 107.
    assert!(eff.moved);
    assert_eq!(eff.pos, Point(107, 107));
    assert_eq!(pet.cat, Point(107, 107));
    // Pet below and left of the pointer: the south-east walk cycle, on its
    // second frame after one advance.
    assert!(playing_animation_starting_at(&pet, Point(-5, -1)));
    assert_eq!(eff.cell, Some(Point(-5, -2)));
}

#[test]
fn chase_step_is_rounded_against_true_distance() {
    // Pet (402,300), pointer (400,298), speed 2: the distance is sqrt(8),
    // so each axis steps round(2 * 2 / 2.8284...) = round(1.414...) = 1.
    let mut config = BehaviorConfig::standard();
    config.speed = 2;
    let mut pet =
        ManzarState::new(ManzarSprites::kitty(), config, (800, 600), Point(402, 300)).unwrap();
    pet.on_mouse_down(400, 298);
    let eff = pet.render();
    assert!(eff.moved);
    assert_eq!(eff.pos, Point(401, 299));

    // Pet (455,410), pointer (400,300), speed 10: distance sqrt(15125) =
    // 122.98..., so the x step is round(550 / 122.98) = 4 (not the 5 that
    // dividing by the rounded-down root 122 would give) and the y step is
    // round(1100 / 122.98) = 9.
    let mut pet = standard_pet(Point(455, 410));
    pet.on_mouse_down(400, 300);
    let eff = pet.render();
    assert!(eff.moved);
    assert_eq!(eff.pos, Point(451, 401));
}

#[test]
fn chase_converges_and_stops_within_speed() {
    let mut pet = standard_pet(Point(100, 100));
    pet.on_mouse_down(500, 500);
    for _ in 0..100 {
        pet.render();
    }
    // 7 px per axis per tick until the distance drops under 10 px.
    assert_eq!(pet.cat, Point(499, 499));
    // Close from then on: no further movement, ever.
    for _ in 0..50 {
        let eff = pet.render();
        assert!(!eff.moved);
        assert_eq!(pet.cat, Point(499, 499));
    }
}

#[test]
fn idle_ramp_idle_tired_sleeping() {
    let mut pet = standard_pet(Point(400, 300));
    for tick in 1..=120u32 {
        let eff = pet.render();
        match tick {
            // First close tick: the idle pose shows and the ramp starts.
            1 => assert_eq!(eff.cell, Some(Point(-3, -3))),
            // Ramp-up: no sprite request, the display is left alone.
            2..=49 => assert_eq!(eff.cell, None),
            // Offsets 0..20 past the timeout: the current (idle) sprite is
            // re-requested.
            50..=69 => assert_eq!(eff.cell, Some(Point(-3, -3))),
            // Offsets 20..40: the tired pose.
            70..=89 => assert_eq!(eff.cell, Some(Point(-3, -2))),
            // Offset 40 is outside the window: the current (tired) pose.
            90 => assert_eq!(eff.cell, Some(Point(-3, -2))),
            // Offsets past 40: the sleeping loop, one frame advance per
            // tick, a displayed-frame change every 100/25 = 4 advances
            // (the counter reads 1..3 on ticks 91..93, 4..7 on 94..97).
            91..=93 => assert_eq!(eff.cell, Some(Point(-2, 0))),
            94..=97 => assert_eq!(eff.cell, Some(Point(-2, -1))),
            98..=101 => assert_eq!(eff.cell, Some(Point(-2, 0))),
            _ => {},
        }
        assert!(!eff.moved);
    }
    assert_eq!(pet.cat, Point(400, 300));
}

#[test]
fn alert_holds_before_chase_resumes() {
    let mut pet = standard_pet(Point(400, 300));
    pet.render(); // close: arms the alert buffer (5 ticks)
    assert_eq!(pet.idle.buffer, 5);
    pet.on_mouse_down(600, 300);
    for _ in 0..5 {
        let eff = pet.render();
        assert_eq!(eff.cell, Some(Point(-7, -3))); // alert pose
        assert!(!eff.moved);
        assert_eq!(pet.cat, Point(400, 300));
    }
    assert_eq!(pet.idle.buffer, 0);
    // Buffer spent: the chase resumes due east at full speed.
    let eff = pet.render();
    assert!(eff.moved);
    assert_eq!(eff.pos, Point(410, 300));
    assert_eq!(eff.cell, Some(Point(-3, -1))); // east walk cycle, 2nd frame
}

#[test]
fn definite_animation_runs_to_completion() {
    let mut pet = standard_pet(Point(400, 300));
    let scratch = pet.sprites.scratch.cat.clone();
    let tired = pet.sprites.tired.clone();
    let cell = pet.set_sprite(&scratch);
    // Adopted: one advance, showing the 3-frame scratch's second cell.
    assert_eq!(cell, Point(-6, 0));
    assert!(playing_animation_starting_at(&pet, Point(-5, 0)));
    assert_eq!(pet.animation.frame, 1);
    // Requests for a different sprite are ignored until the budget of 20
    // advances is spent.
    for expected_frame in 2..=20u32 {
        pet.set_sprite(&tired);
        assert!(playing_animation_starting_at(&pet, Point(-5, 0)));
        assert_eq!(pet.animation.frame, expected_frame);
    }
    // Budget spent: the next request falls back to idle and resets the
    // ramp and tick counters.
    pet.frame = 7;
    pet.idle.frame = 3;
    let cell = pet.set_sprite(&tired);
    assert_eq!(cell, Point(-3, -3));
    assert!(matches!(pet.animation.sprite, Sprite::Static(Point(-3, -3))));
    assert_eq!(pet.animation.frame, 0);
    assert_eq!(pet.frame, 0);
    assert_eq!(pet.idle.frame, 0);
}

#[test]
fn frame_wrap_follows_playback_rate() {
    let mut pet = standard_pet(Point(400, 300));
    let sleeping = pet.sprites.sleeping.clone();
    // Speed 25: the displayed index is floor(frame / 4) mod 2.
    let mut cells = Vec::new();
    for _ in 0..12 {
        cells.push(pet.set_sprite(&sleeping));
    }
    let a = Point(-2, 0);
    let b = Point(-2, -1);
    assert_eq!(cells, vec![a, a, a, b, b, b, b, a, a, a, a, b]);
    // Speed 100: the displayed index is frame mod 2.
    let walk = pet.sprites.cardinal.n.clone();
    let first = pet.set_sprite(&walk);
    let second = pet.set_sprite(&walk);
    let third = pet.set_sprite(&walk);
    assert_eq!(first, Point(-1, -3));
    assert_eq!(second, Point(-1, -2));
    assert_eq!(third, Point(-1, -3));
}

fn scratchy_config() -> BehaviorConfig {
    let mut config = BehaviorConfig::standard();
    config.idle_timeout = 3;
    config.scratch_interval = 7;
    config
}

#[test]
fn scratch_fires_on_interval_and_blocks_other_requests() {
    // Pet in the middle of the viewport: the generic scratch sprite.
    let mut pet =
        ManzarState::new(ManzarSprites::kitty(), scratchy_config(), (800, 600), Point(400, 300))
            .unwrap();
    for tick in 1..=26u32 {
        let eff = pet.render();
        match tick {
            1 => assert_eq!(eff.cell, Some(Point(-3, -3))),
            2 => assert_eq!(eff.cell, None),
            // Past the 3-tick timeout the idle pose is re-requested...
            3..=6 => assert_eq!(eff.cell, Some(Point(-3, -3))),
            // ...until tick 7, a multiple of the scratch interval: the
            // 20-advance generic scratch starts.
            7 => assert_eq!(eff.cell, Some(Point(-6, 0))),
            // While it plays, every request is ignored; its own frames
            // cycle through the three scratch cells.
            8..=26 => {
                assert!(playing_animation_starting_at(&pet, Point(-5, 0)));
                let frame = tick - 6; // adopted at tick 7 with one advance
                let expected = [Point(-5, 0), Point(-6, 0), Point(-7, 0)][(frame % 3) as usize];
                assert_eq!(eff.cell, Some(expected));
            },
            _ => {},
        }
    }
    assert_eq!(pet.animation.frame, 20);
    // Budget spent: the next tick's request triggers the fallback — idle
    // pose, and the ramp and tick counters restart.
    let eff = pet.render();
    assert_eq!(eff.cell, Some(Point(-3, -3)));
    assert_eq!(pet.frame, 0);
    assert_eq!(pet.idle.frame, 0);
    assert_eq!(pet.animation.frame, 0);
    // The ramp indeed restarts from scratch.
    let eff = pet.render();
    assert_eq!(eff.cell, Some(Point(-3, -3)));
    assert_eq!(pet.idle.frame, 1);
}

#[test]
fn scratch_picks_the_near_edge() {
    // Pet 5 px from the west edge: the directional west scratch.
    let mut pet =
        ManzarState::new(ManzarSprites::kitty(), scratchy_config(), (800, 600), Point(5, 200))
            .unwrap();
    for tick in 1..=7u32 {
        let eff = pet.render();
        if tick == 7 {
            assert!(playing_animation_starting_at(&pet, Point(-4, 0)));
            assert_eq!(eff.cell, Some(Point(-4, -1)));
        }
    }
}

#[test]
fn definite_animation_blocks_travel() {
    let mut pet = standard_pet(Point(400, 300));
    let scratch = pet.sprites.scratch.cat.clone();
    pet.set_sprite(&scratch);
    // Pointer far away, but the definite scratch is mid-play: no movement.
    pet.on_mouse_down(600, 300);
    let eff = pet.render();
    assert!(!eff.moved);
    assert_eq!(pet.cat, Point(400, 300));
    assert!(playing_animation_starting_at(&pet, Point(-5, 0)));
}
