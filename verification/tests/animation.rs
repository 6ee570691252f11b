//! The animation driver on generic actors: frame-index bounds, one-shot
//! termination, and ping-pong behavior across interactions.

use rust_rider::assets::{AssetMap, ImageAsset};
use rust_rider::default_actor::DefaultActor;
use rust_rider::level;
use rust_rider::level::ActorType;
use rust_rider::sound::SoundEffects;

fn clip(frames: usize, duration_ms: i64) -> ImageAsset {
    let mut a = ImageAsset::new();
    let mut i = 0;
    while i < frames {
        a.add_frame(i as u64, duration_ms);
        i += 1;
    }
    a
}

fn prop_cfg(name: &str, reversible: bool) -> level::Actor {
    level::Actor {
        name: name.to_string(),
        image: "prop_img".to_string(),
        sound: "rocks".to_string(),
        position: level::Point { x: 1_000_000, y: 0 },
        scale: 1000,
        width: 100_000,
        visible: true,
        active: false,
        reversible,
        actor_type: ActorType::Static,
    }
}

fn make_prop(frames: usize, duration_ms: i64, reversible: bool) -> DefaultActor {
    let mut assets = AssetMap::new();
    assets.insert("prop_img".to_string(), clip(frames, duration_ms));
    DefaultActor::new(&prop_cfg("prop", reversible), &assets, 7).unwrap()
}

#[test]
fn frame_index_stays_in_range() {
    let mut a = make_prop(3, 200, false);
    let mut sounds = SoundEffects::new();
    a.interact_hero(&mut sounds);
    let mut t = 0;
    while t < 40 {
        a.on_update(137);
        assert!(a.frame < a.asset.frame_count());
        a.interact_hero(&mut sounds);
        t += 1;
    }
}

#[test]
fn one_shot_terminates_on_last_frame() {
    // A one-shot clip of 3 frames, 200 ms each: after 3 * 200 ms of
    // simulated time it rests on frame 2 with the animation stopped.
    let mut a = make_prop(3, 200, false);
    let mut sounds = SoundEffects::new();
    assert!(!a.animating);
    a.interact_hero(&mut sounds);
    assert!(a.animating);
    a.on_update(200);
    a.on_update(200);
    a.on_update(200);
    assert!(!a.animating);
    assert_eq!(a.frame, 2);
    assert!(a.active); // started inactive; one traversal toggles it
}

#[test]
fn one_shot_does_not_restart_from_far_end() {
    let mut a = make_prop(2, 100, false);
    let mut sounds = SoundEffects::new();
    a.interact_hero(&mut sounds);
    a.on_update(100);
    a.on_update(100);
    assert!(!a.animating);
    // Not reversible: poking it at the far end does nothing.
    a.interact_hero(&mut sounds);
    assert!(!a.animating);
    assert_eq!(sounds.pending_count(), 1);
}

#[test]
fn interact_mid_animation_does_not_restart() {
    let mut a = make_prop(3, 200, true);
    let mut sounds = SoundEffects::new();
    a.interact_hero(&mut sounds);
    a.on_update(200); // now on frame 1, mid-animation
    assert_eq!(a.frame, 1);
    let frame_before = a.frame;
    let timer_before = a.next_frame;
    let active_before = a.active;
    a.interact_hero(&mut sounds);
    assert_eq!(a.frame, frame_before);
    assert_eq!(a.next_frame, timer_before);
    assert_eq!(a.active, active_before);
    assert!(a.animating);
    assert_eq!(sounds.pending_count(), 1); // no second sound
}

#[test]
fn reversible_toggles_active_after_each_traversal() {
    let mut a = make_prop(3, 200, true);
    let mut sounds = SoundEffects::new();
    assert!(!a.active);
    // Forward traversal: two advancing ticks reach the far end.
    a.interact_hero(&mut sounds);
    a.on_update(200);
    a.on_update(200);
    assert!(!a.animating);
    assert!(a.state); // resting at the far end
    assert!(a.active);
    // Backward traversal: reversible, so it fires again.
    a.interact_hero(&mut sounds);
    assert!(a.animating);
    a.on_update(200);
    a.on_update(200);
    assert!(!a.animating);
    assert!(!a.state);
    assert!(!a.active);
    assert_eq!(a.frame, 0);
    assert_eq!(sounds.pending_count(), 2);
}

#[test]
fn zero_duration_frames_advance_one_per_tick() {
    // Instant frames are valid; even so, the driver advances at most
    // one frame per tick.
    let mut a = make_prop(3, 0, false);
    let mut sounds = SoundEffects::new();
    a.interact_hero(&mut sounds);
    a.on_update(1000);
    assert_eq!(a.frame, 1);
    assert!(a.animating);
    a.on_update(1000);
    assert_eq!(a.frame, 2);
    assert!(!a.animating);
}

#[test]
fn motion_integrates_velocity() {
    let mut a = make_prop(1, 0, false);
    a.set_velocity(rust_rider::entity::WorldVector2::new(500, 0));
    let x0 = a.position.x;
    a.on_update(16);
    // 500 units/s for 16 ms is 8000 thousandths of a unit.
    assert_eq!(a.position.x, x0 + 8000);
}

#[test]
fn text_clears_after_timeout() {
    let mut a = make_prop(1, 0, false);
    a.set_text("Boo!".to_string(), 1000);
    a.on_update(600);
    assert_eq!(a.text().as_str(), "Boo!");
    a.on_update(600);
    // Timer has gone negative: the next tick clears the text.
    a.on_update(1);
    assert_eq!(a.text().as_str(), "");
}
