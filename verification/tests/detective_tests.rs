//! The detective's behavior machine: dedup guards, clue discovery,
//! macguffin discovery ending in done, and obstacle bounces.

use rust_rider::assets::{AssetMap, ImageAsset};
use rust_rider::default_actor::DefaultActor;
use rust_rider::detective::{Detective, DetectiveState};
use rust_rider::level;
use rust_rider::level::ActorType;
use rust_rider::sound::SoundEffects;

fn clip(frames: usize, duration_ms: i64) -> ImageAsset {
    let mut a = ImageAsset::new();
    let mut i = 0;
    while i < frames {
        a.add_frame(i as u64, duration_ms);
        i += 1;
    }
    a
}

/// A detective with a 1-frame idle clip (100 ms), a 2-frame walk clip
/// (100 ms) and a 3-frame clue clip (200 ms), at x = 1000 units.
fn make_detective() -> Detective {
    let mut assets = AssetMap::new();
    assets.insert("det_idle".to_string(), clip(1, 100));
    assets.insert("det_walk".to_string(), clip(2, 100));
    assets.insert("det_clue".to_string(), clip(3, 200));
    let cfg = level::Detective {
        name: "detective".to_string(),
        idle: "det_idle".to_string(),
        walk: "det_walk".to_string(),
        clue: "det_clue".to_string(),
        clue_sound: "cans".to_string(),
        position: level::Point { x: 1_000_000, y: 0 },
        scale: 1000,
        speed: 200,
        width: 100_000,
    };
    Detective::new(&cfg, &assets, 3).unwrap()
}

fn make_world_actor(name: &str, x: i64, actor_type: ActorType, active: bool) -> DefaultActor {
    let mut assets = AssetMap::new();
    assets.insert("img".to_string(), clip(1, 0));
    let cfg = level::Actor {
        name: name.to_string(),
        image: "img".to_string(),
        sound: "rocks".to_string(),
        position: level::Point { x, y: 0 },
        scale: 1000,
        width: 100_000,
        visible: true,
        active,
        reversible: false,
        actor_type,
    };
    DefaultActor::new(&cfg, &assets, 9).unwrap()
}

#[test]
fn obstacle_reverses_direction_once() {
    // Repeated overlap with the same obstacle across consecutive ticks
    // fires the reversal exactly once.
    let mut d = make_detective();
    let crate_actor = make_world_actor("crate", 1_000_000, ActorType::Obstacle, true);
    let mut sounds = SoundEffects::new();
    assert!(d.direction());
    d.interact_entity(&crate_actor, &mut sounds);
    assert!(!d.direction());
    d.interact_entity(&crate_actor, &mut sounds);
    d.interact_entity(&crate_actor, &mut sounds);
    assert!(!d.direction()); // still reversed only once
    assert_eq!(d.last_obstacle.as_str(), "crate");
}

#[test]
fn different_obstacle_fires_again() {
    let mut d = make_detective();
    let crate_actor = make_world_actor("crate", 1_000_000, ActorType::Obstacle, true);
    let barrel = make_world_actor("barrel", 1_000_000, ActorType::Obstacle, true);
    let mut sounds = SoundEffects::new();
    d.interact_entity(&crate_actor, &mut sounds);
    assert!(!d.direction());
    d.interact_entity(&barrel, &mut sounds);
    assert!(d.direction()); // a different obstacle reverses again
}

#[test]
fn inactive_obstacle_recorded_but_no_turn() {
    let mut d = make_detective();
    let crate_actor = make_world_actor("crate", 1_000_000, ActorType::Obstacle, false);
    let mut sounds = SoundEffects::new();
    d.interact_entity(&crate_actor, &mut sounds);
    assert!(d.direction());
    assert_eq!(d.last_obstacle.as_str(), "crate");
}

#[test]
fn clue_discovery_queues_clue_then_walk() {
    // A detective with an empty clue guard overlapping a non-macguffin
    // clue queues the inspection; once the clue clip has played through,
    // he walks on.
    let mut d = make_detective();
    let note = make_world_actor("note", 1_000_000, ActorType::Clue(false), true);
    let mut sounds = SoundEffects::new();
    assert_eq!(d.last_clue.as_str(), "");
    d.interact_entity(&note, &mut sounds);
    assert_eq!(d.next_state, DetectiveState::Clue);
    assert!(!d.found_macguffin);
    assert_eq!(d.last_clue.as_str(), "note");
    assert_eq!(sounds.pending_count(), 1);
    assert_eq!(sounds.pending_at(0).as_str(), "cans");
    // The idle clip (1 frame, 100 ms) completes: enter Clue.
    d.on_update(100);
    assert_eq!(d.state, DetectiveState::Clue);
    // The clue clip (3 frames, 200 ms) completes: continue walking.
    d.on_update(200);
    d.on_update(200);
    d.on_update(200);
    assert_eq!(d.state, DetectiveState::Walk);
    assert!(!d.done());
}

#[test]
fn clue_dedup_plays_sound_once() {
    let mut d = make_detective();
    let note = make_world_actor("note", 1_000_000, ActorType::Clue(false), true);
    let mut sounds = SoundEffects::new();
    d.interact_entity(&note, &mut sounds);
    d.interact_entity(&note, &mut sounds);
    d.interact_entity(&note, &mut sounds);
    assert_eq!(sounds.pending_count(), 1);
}

#[test]
fn inactive_clue_ignored() {
    let mut d = make_detective();
    let note = make_world_actor("note", 1_000_000, ActorType::Clue(false), false);
    let mut sounds = SoundEffects::new();
    d.interact_entity(&note, &mut sounds);
    assert_eq!(d.next_state, DetectiveState::Idle);
    assert_eq!(sounds.pending_count(), 0);
}

#[test]
fn macguffin_discovery_ends_in_done() {
    // With the macguffin, the clue clip ends in Idle, and completing
    // that idle cycle latches done.
    let mut d = make_detective();
    let body = make_world_actor("body", 1_000_000, ActorType::Clue(true), true);
    let mut sounds = SoundEffects::new();
    d.interact_entity(&body, &mut sounds);
    assert!(d.found_macguffin);
    assert_eq!(d.next_state, DetectiveState::Clue);
    d.on_update(100); // idle completes: enter Clue
    assert_eq!(d.state, DetectiveState::Clue);
    d.on_update(200);
    d.on_update(200);
    d.on_update(200); // clue completes: enter Idle (macguffin found)
    assert_eq!(d.state, DetectiveState::Idle);
    d.on_update(100); // the idle cycle completes
    assert!(d.done());
}

#[test]
fn static_actor_ignored() {
    let mut d = make_detective();
    let rock = make_world_actor("rock", 1_000_000, ActorType::Static, true);
    let mut sounds = SoundEffects::new();
    let dir = d.direction();
    d.interact_entity(&rock, &mut sounds);
    assert_eq!(d.direction(), dir);
    assert_eq!(sounds.pending_count(), 0);
}

#[test]
fn obstacle_bounce_walks_left_next_tick() {
    // Walking right at speed 200, a first overlap with an active
    // obstacle flips the direction; the next tick moves him left.
    let mut d = make_detective();
    let mut sounds = SoundEffects::new();
    d.interact_hero(&mut sounds); // queue walking
    d.on_update(100); // idle completes: enter Walk
    assert_eq!(d.state, DetectiveState::Walk);
    assert!(d.direction());
    let x0 = d.position.x;
    d.on_update(10);
    assert_eq!(d.position.x, x0 + 2000); // 200 units/s for 10 ms
    let crate_actor = make_world_actor("crate", 1_000_000, ActorType::Obstacle, true);
    d.interact_entity(&crate_actor, &mut sounds);
    assert!(!d.direction());
    let x1 = d.position.x;
    d.on_update(10);
    assert_eq!(d.position.x, x1 - 2000); // leftward motion now
}

#[test]
fn idle_rests_unless_auto_patrol() {
    // By default, completed idle cycles rest; with auto-patrol on, the
    // next idle cycle hands over to walking.
    let mut d = make_detective();
    d.on_update(100);
    d.on_update(100);
    assert_eq!(d.state, DetectiveState::Idle);
    d.set_auto_patrol(true);
    d.on_update(100); // idle completes: walking is queued
    d.on_update(100);
    assert_eq!(d.state, DetectiveState::Walk);
}

#[test]
fn run_away_turns_and_cries_out() {
    let mut d = make_detective();
    assert!(d.direction());
    d.run_away();
    assert!(!d.direction());
    assert_eq!(d.next_state, DetectiveState::Walk);
    assert_eq!(d.text().as_str(), "Aaaaah!!!");
    assert_eq!(d.last_obstacle.as_str(), "");
}

#[test]
fn patrol_clamp_turns_at_bounds() {
    let mut d = make_detective();
    let mut sounds = SoundEffects::new();
    d.interact_hero(&mut sounds);
    d.on_update(100); // enter Walk, facing right
    d.set_patrol_bounds(150_000, 2_000_000);
    // Walk right for a long time: 200 units/s, 1000 ms per tick.
    let mut i = 0;
    while i < 10 {
        d.on_update(1000);
        i += 1;
    }
    // Past the right turnaround he faces left again.
    assert!(!d.direction());
}
