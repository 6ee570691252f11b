//! The per-tick dispatch: overlap symmetry, the win latch, the flee
//! rule, the hero's interaction pass, and the world-bounds clamps.

use rust_rider::assets::{AssetMap, ImageAsset};
use rust_rider::camera::Camera2;
use rust_rider::default_actor::DefaultActor;
use rust_rider::detective::{Detective, DetectiveState};
use rust_rider::entity::{overlap, Rect};
use rust_rider::game::State;
use rust_rider::hero::{Hero, HeroState};
use rust_rider::level;
use rust_rider::level::ActorType;
use rust_rider::sound::SoundEffects;

fn clip(frames: usize, duration_ms: i64) -> ImageAsset {
    let mut a = ImageAsset::new();
    let mut i = 0;
    while i < frames {
        a.add_frame(i as u64, duration_ms);
        i += 1;
    }
    a
}

fn test_level() -> level::Level {
    level::Level {
        world_bounds: (
            level::Point { x: 0, y: 0 },
            level::Point { x: 5_000_000, y: 1_000_000 },
        ),
        hero: hero_cfg(),
        detective: detective_cfg(),
        actors: Vec::new(),
    }
}

fn hero_cfg() -> level::Hero {
    level::Hero {
        name: "ghost".to_string(),
        idle: "hero_idle".to_string(),
        ascend: "hero_ascend".to_string(),
        position: level::Point { x: 1_000_000, y: 0 },
        scale: 1000,
        speed: 500,
        width: 100_000,
    }
}

fn detective_cfg() -> level::Detective {
    level::Detective {
        name: "detective".to_string(),
        idle: "det_idle".to_string(),
        walk: "det_walk".to_string(),
        clue: "det_clue".to_string(),
        clue_sound: "cans".to_string(),
        position: level::Point { x: 1_050_000, y: 0 },
        scale: 1000,
        speed: 200,
        width: 100_000,
    }
}

fn test_assets() -> AssetMap {
    let mut assets = AssetMap::new();
    assets.insert("hero_idle".to_string(), clip(1, 100));
    assets.insert("hero_ascend".to_string(), clip(2, 100));
    assets.insert("det_idle".to_string(), clip(1, 100));
    assets.insert("det_walk".to_string(), clip(2, 100));
    assets.insert("det_clue".to_string(), clip(3, 200));
    assets.insert("img".to_string(), clip(1, 0));
    assets
}

fn world_actor(assets: &AssetMap, name: &str, x: i64, ty: ActorType, active: bool) -> DefaultActor {
    let cfg = level::Actor {
        name: name.to_string(),
        image: "img".to_string(),
        sound: "rocks".to_string(),
        position: level::Point { x, y: 0 },
        scale: 1000,
        width: 100_000,
        visible: true,
        active,
        reversible: false,
        actor_type: ty,
    };
    DefaultActor::new(&cfg, assets, 11).unwrap()
}

fn test_state() -> State {
    let assets = test_assets();
    let level = test_level();
    let hero = Hero::new(&level.hero, &assets, 1).unwrap();
    let det = Detective::new(&level.detective, &assets, 2).unwrap();
    let mut s = State::new(level, Camera2::new());
    s.set_hero(hero);
    s.set_detective(det);
    s
}

#[test]
fn overlap_is_symmetric() {
    let a = Rect { x: 0, y: 0, w: 100_000, h: 100_000 };
    let b = Rect { x: 80_000, y: 0, w: 100_000, h: 100_000 };
    let c = Rect { x: 900_000, y: 0, w: 100_000, h: 100_000 };
    assert_eq!(overlap(&a, 100_000, &b, 100_000), overlap(&b, 100_000, &a, 100_000));
    assert_eq!(overlap(&a, 100_000, &c, 100_000), overlap(&c, 100_000, &a, 100_000));
    assert!(overlap(&a, 100_000, &b, 100_000));
    assert!(!overlap(&a, 100_000, &c, 100_000));
}

#[test]
fn overlap_tests_only_horizontal_axis() {
    let a = Rect { x: 0, y: 0, w: 100_000, h: 100_000 };
    let far_below = Rect { x: 0, y: 90_000_000, w: 100_000, h: 100_000 };
    assert!(overlap(&a, 100_000, &far_below, 100_000));
}

#[test]
fn overlap_counts_exact_touch() {
    // Intervals [−50, 50] and [50, 150]: touching endpoints count as
    // overlap; one unit further apart they no longer do.
    let a = Rect { x: -50_000, y: 0, w: 100_000, h: 100_000 };
    let touching = Rect { x: 50_000, y: 0, w: 100_000, h: 100_000 };
    let apart = Rect { x: 50_001, y: 0, w: 100_000, h: 100_000 };
    assert!(overlap(&a, 100_000, &touching, 100_000));
    assert!(!overlap(&a, 100_000, &apart, 100_000));
}

#[test]
fn build_state_assembles_the_world() {
    let assets = test_assets();
    let mut level = test_level();
    level.actors.push(level::Actor {
        name: "crate".to_string(),
        image: "img".to_string(),
        sound: "rocks".to_string(),
        position: level::Point { x: 2_000_000, y: 0 },
        scale: 1000,
        width: 100_000,
        visible: true,
        active: true,
        reversible: false,
        actor_type: ActorType::Obstacle,
    });
    let s = rust_rider::game::build_state(level, Camera2::new(), &assets).unwrap();
    assert_eq!(s.entities.len(), 1);
    assert_eq!(s.entities[0].name().as_str(), "crate");
    assert_eq!(s.entities[0].sprite_id(), 1);
    assert_eq!(s.get_detective().sprite_id(), 2);
    assert_eq!(s.get_hero().sprite_id(), 3);
    assert!(!s.found && !s.win);
}

#[test]
fn build_state_reports_first_bad_actor() {
    let assets = test_assets();
    let mut level = test_level();
    level.actors.push(level::Actor {
        name: "ghostly".to_string(),
        image: "no_such_clip".to_string(),
        sound: "rocks".to_string(),
        position: level::Point { x: 2_000_000, y: 0 },
        scale: 1000,
        width: 100_000,
        visible: true,
        active: true,
        reversible: false,
        actor_type: ActorType::Static,
    });
    match rust_rider::game::build_state(level, Camera2::new(), &assets) {
        Err(rust_rider::error::Error::MissingAsset) => {},
        _ => panic!("expected a missing-asset error"),
    }
}

#[test]
fn state_new_defaults() {
    let s = State::new(test_level(), Camera2::new());
    assert!(!s.found);
    assert!(!s.win);
    assert_eq!(s.entities.len(), 0);
    assert!(s.hero.is_none());
    assert!(s.detective.is_none());
    assert_eq!(s.title_text.strings.len(), 3);
    assert_eq!(s.title_text.duration, 10);
    assert_eq!(s.hint_text.strings.len(), 2);
    assert_eq!(s.hint_text.duration, 15);
}

#[test]
fn get_hero_and_detective() {
    let s = test_state();
    assert_eq!(s.get_hero().name().as_str(), "ghost");
    assert_eq!(s.get_detective().name().as_str(), "detective");
}

#[test]
fn win_latch_fires_exactly_once() {
    // Once done() is true and the found event fires, later ticks
    // neither re-queue the ascension nor rewrite the title text.
    let mut s = test_state();
    let mut sounds = SoundEffects::new();
    if let Some(d) = s.detective.as_mut() {
        d.done = true;
    }
    s.on_update(10, 1_000_000, &mut sounds);
    assert!(s.found);
    assert_eq!(s.title_text.strings.len(), 3);
    assert_eq!(s.title_text.duration, 4);
    assert_eq!(s.title_text.strings[0].as_str(), "The detective found your body!");
    assert_eq!(s.get_hero().next_state, HeroState::Ascend);
    // Mark the title, then tick again: a re-fire would replace it.
    s.title_text.next("marker".to_string(), 5);
    s.on_update(10, 1_000_000, &mut sounds);
    assert!(s.found);
    assert_eq!(s.title_text.strings.len(), 4);
    assert_eq!(s.title_text.duration, 5);
}

#[test]
fn win_follows_hero_done() {
    let mut s = test_state();
    let mut sounds = SoundEffects::new();
    if let Some(h) = s.hero.as_mut() {
        h.ascend();
    }
    // Idle completes, ascend plays through, done is reached.
    s.on_update(100, 1_000_000, &mut sounds);
    s.on_update(100, 1_000_000, &mut sounds);
    s.on_update(100, 1_000_000, &mut sounds);
    assert!(s.get_hero().won());
    assert!(s.win);
}

#[test]
fn detective_flees_opaque_faced_hero() {
    // Hero at x=1000 units, detective at x=1050 facing left (towards
    // him), within the 800-unit flee distance: opaque hero is spotted.
    let mut s = test_state();
    let mut sounds = SoundEffects::new();
    if let Some(d) = s.detective.as_mut() {
        d.set_direction(false); // face left, towards the hero
    }
    if let Some(h) = s.hero.as_mut() {
        h.turn_opaque();
    }
    s.on_update(10, 1_000_000, &mut sounds);
    let d = s.get_detective();
    assert!(d.direction()); // turned away
    assert_eq!(d.next_state, DetectiveState::Walk);
    assert_eq!(d.text().as_str(), "Aaaaah!!!");
}

#[test]
fn transparent_hero_is_not_seen() {
    let mut s = test_state();
    let mut sounds = SoundEffects::new();
    if let Some(d) = s.detective.as_mut() {
        d.set_direction(false);
    }
    s.on_update(10, 1_000_000, &mut sounds);
    let d = s.get_detective();
    assert!(!d.direction()); // still facing the transparent hero
    assert_eq!(d.text().as_str(), "");
}

#[test]
fn detective_interacts_with_overlapping_clue() {
    let mut s = test_state();
    let assets = test_assets();
    let mut sounds = SoundEffects::new();
    // A clue right under the detective, and scenery far away.
    s.add_entity(world_actor(&assets, "note", 1_050_000, ActorType::Clue(false), true));
    s.add_entity(world_actor(&assets, "tree", 4_000_000, ActorType::Static, true));
    s.on_update(10, 1_000_000, &mut sounds);
    let d = s.get_detective();
    assert_eq!(d.next_state, DetectiveState::Clue);
    assert_eq!(d.last_clue.as_str(), "note");
    assert_eq!(sounds.pending_count(), 1);
    assert_eq!(sounds.pending_at(0).as_str(), "cans");
}

#[test]
fn distant_actor_does_not_interact() {
    let mut s = test_state();
    let assets = test_assets();
    let mut sounds = SoundEffects::new();
    s.add_entity(world_actor(&assets, "note", 4_000_000, ActorType::Clue(false), true));
    s.on_update(10, 1_000_000, &mut sounds);
    assert_eq!(s.get_detective().next_state, DetectiveState::Idle);
    assert_eq!(sounds.pending_count(), 0);
}

#[test]
fn hero_clamped_to_world_bounds() {
    let mut s = test_state();
    let mut sounds = SoundEffects::new();
    if let Some(h) = s.hero.as_mut() {
        h.set_velocity(rust_rider::entity::WorldVector2::new(-500, 0));
    }
    // Drive the hero far past the left bound.
    let mut i = 0;
    while i < 10 {
        s.on_update(1_000_000, 1_000_000, &mut sounds);
        i += 1;
    }
    // World bound 0 plus the 75-unit margin.
    assert_eq!(s.get_hero().position.x, 75_000);
}

#[test]
fn camera_follows_clamped_hero() {
    let mut s = test_state();
    let mut sounds = SoundEffects::new();
    s.on_update(10, 1_000_000, &mut sounds);
    // Hero near x=1000 units, window 1000 units wide: the camera may
    // follow him exactly.
    assert_eq!(s.camera.position.x, s.get_hero().position.x);
    // With a window wider than the world can show, the camera clamps.
    s.on_update(10, 9_000_000, &mut sounds);
    assert_eq!(s.camera.position.x, 4_500_000);
}

#[test]
fn hero_interact_pokes_overlapping_props() {
    let mut s = test_state();
    let assets = test_assets();
    let mut sounds = SoundEffects::new();
    s.add_entity(world_actor(&assets, "lever", 1_000_000, ActorType::Static, false));
    s.add_entity(world_actor(&assets, "door", 4_000_000, ActorType::Static, false));
    if let Some(h) = s.hero.as_mut() {
        h.turn_opaque();
    }
    s.hero_interact(&mut sounds);
    assert!(s.entities[0].animating); // under the hero: poked
    assert!(!s.entities[1].animating); // far away: untouched
    assert_eq!(sounds.pending_count(), 1);
    assert_eq!(sounds.pending_at(0).as_str(), "rocks");
    // The overlapping detective is poked too: he resumes walking.
    assert_eq!(s.get_detective().next_state, DetectiveState::Walk);
}

#[test]
fn transparent_hero_interacts_with_nothing() {
    let mut s = test_state();
    let assets = test_assets();
    let mut sounds = SoundEffects::new();
    s.add_entity(world_actor(&assets, "lever", 1_000_000, ActorType::Static, false));
    s.hero_interact(&mut sounds);
    assert!(!s.entities[0].animating);
    assert_eq!(sounds.pending_count(), 0);
    assert_eq!(s.get_detective().next_state, DetectiveState::Idle);
}
