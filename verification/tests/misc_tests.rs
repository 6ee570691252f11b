//! The smaller pieces: clamping, the sound queue and effect table, the
//! timed text transitions, the clip table, and the load-time errors.

use rust_rider::assets::{AssetMap, ImageAsset};
use rust_rider::clamp;
use rust_rider::detective::Detective;
use rust_rider::error::Error;
use rust_rider::font::FontTransition;
use rust_rider::hero::{Hero, HeroState};
use rust_rider::level;
use rust_rider::sound::{effect_params, SoundEffects};

fn clip(frames: usize, duration_ms: i64) -> ImageAsset {
    let mut a = ImageAsset::new();
    let mut i = 0;
    while i < frames {
        a.add_frame(i as u64, duration_ms);
        i += 1;
    }
    a
}

#[test]
fn clamp_behaves() {
    assert_eq!(clamp(5, 0, 10), 5);
    assert_eq!(clamp(-5, 0, 10), 0);
    assert_eq!(clamp(15, 0, 10), 10);
    // min takes precedence when the bounds cross
    assert_eq!(clamp(3, 7, 2), 7);
}

#[test]
fn sound_queue_appends_in_order() {
    let mut s = SoundEffects::new();
    assert_eq!(s.pending_count(), 0);
    assert!(!s.music_started);
    s.play("cans");
    s.play("rocks");
    assert_eq!(s.pending_count(), 2);
    assert_eq!(s.pending_at(0).as_str(), "cans");
    assert_eq!(s.pending_at(1).as_str(), "rocks");
    s.clear_pending();
    assert_eq!(s.pending_count(), 0);
    s.start_music();
    assert!(s.music_started);
    s.start_music();
    assert!(s.music_started);
}

#[test]
fn effect_table_matches() {
    let cans = effect_params("cans").unwrap();
    assert_eq!(cans.filename.as_str(), "cans.wav");
    assert_eq!(cans.volume, 100);
    assert_eq!(cans.max_length, 1500);
    let horn = effect_params("car_horn").unwrap();
    assert_eq!(horn.filename.as_str(), "car_horn.wav");
    assert_eq!(horn.volume, 10);
    assert_eq!(horn.max_length, 0);
    let rustle = effect_params("foliage_rustle").unwrap();
    assert_eq!(rustle.filename.as_str(), "foliage_rustle.wav");
    assert_eq!(rustle.max_length, 2000);
    assert!(effect_params("rocks").is_some());
    assert!(effect_params("crow_squawk").is_some());
    assert!(effect_params("crunchy_leaf").is_some());
    assert!(effect_params("spooked_birds").is_some());
    assert!(effect_params("twig_snap").is_some());
    assert!(effect_params("door_creak").is_none());
    assert!(effect_params("").is_none());
}

#[test]
fn font_transition_picks_line_by_time() {
    let f = FontTransition {
        strings: vec!["one".to_string(), "two".to_string(), "three".to_string()],
        start_time: 1_000,
        duration: 2,
    };
    // At or before the start: the first line.
    assert_eq!(f.text_at(1_000).as_str(), "one");
    assert_eq!(f.text_at(500).as_str(), "one");
    // 1999 ms elapsed: still within the first 2-second slot.
    assert_eq!(f.text_at(2_999).as_str(), "one");
    // 2001 ms elapsed: 2 whole seconds, the second slot.
    assert_eq!(f.text_at(3_001).as_str(), "two");
    assert_eq!(f.text_at(5_001).as_str(), "three");
    // Far past the end: rests on the last line.
    assert_eq!(f.text_at(1_000_000).as_str(), "three");
}

#[test]
fn font_transition_next_appends() {
    let mut f = FontTransition::new(vec!["a".to_string()], 3);
    f.next("b".to_string(), 7);
    assert_eq!(f.strings.len(), 2);
    assert_eq!(f.strings[1].as_str(), "b");
    assert_eq!(f.duration, 7);
    let current = f.current_text();
    assert!(current.as_str() == "a" || current.as_str() == "b");
}

#[test]
fn asset_map_lookup() {
    let mut m = AssetMap::new();
    assert!(!m.contains("walk"));
    m.insert("walk".to_string(), clip(4, 50));
    assert!(m.contains("walk"));
    let a = m.get("walk").unwrap();
    assert_eq!(a.frame_count(), 4);
    assert!(m.get("run").is_none());
}

#[test]
fn clip_frame_out_of_range() {
    let c = clip(2, 50);
    assert_eq!(c.frame(0).unwrap().image, 0);
    assert_eq!(c.frame(1).unwrap().frame_time, 50);
    assert_eq!(c.frame(2), Err(Error::OutOfRange));
}

#[test]
fn error_descriptions() {
    assert_eq!(Error::OutOfRange.describe(), "frame index out of range");
    assert_eq!(Error::MissingAsset.describe(), "missing asset");
    assert_eq!(Error::EmptyClip.describe(), "empty animation clip");
}

#[test]
fn missing_asset_fails_construction() {
    let assets = AssetMap::new();
    let cfg = level::Hero {
        name: "ghost".to_string(),
        idle: "hero_idle".to_string(),
        ascend: "hero_ascend".to_string(),
        position: level::Point { x: 0, y: 0 },
        scale: 1000,
        speed: 500,
        width: 100_000,
    };
    match Hero::new(&cfg, &assets, 1) {
        Err(Error::MissingAsset) => {},
        _ => panic!("expected a missing-asset error"),
    }
}

#[test]
fn empty_clip_fails_construction() {
    let mut assets = AssetMap::new();
    assets.insert("det_idle".to_string(), ImageAsset::new());
    assets.insert("det_walk".to_string(), clip(2, 100));
    assets.insert("det_clue".to_string(), clip(2, 100));
    let cfg = level::Detective {
        name: "detective".to_string(),
        idle: "det_idle".to_string(),
        walk: "det_walk".to_string(),
        clue: "det_clue".to_string(),
        clue_sound: "cans".to_string(),
        position: level::Point { x: 0, y: 0 },
        scale: 1000,
        speed: 200,
        width: 100_000,
    };
    match Detective::new(&cfg, &assets, 1) {
        Err(Error::EmptyClip) => {},
        _ => panic!("expected an empty-clip error"),
    }
}

#[test]
fn level_check_rejects_out_of_range_fields() {
    let good = level::Level {
        world_bounds: (level::Point { x: 0, y: 0 }, level::Point { x: 5_000_000, y: 0 }),
        hero: level::Hero {
            name: "ghost".to_string(),
            idle: "i".to_string(),
            ascend: "a".to_string(),
            position: level::Point { x: 0, y: 0 },
            scale: 1000,
            speed: 500,
            width: 100_000,
        },
        detective: level::Detective {
            name: "d".to_string(),
            idle: "i".to_string(),
            walk: "w".to_string(),
            clue: "c".to_string(),
            clue_sound: "cans".to_string(),
            position: level::Point { x: 0, y: 0 },
            scale: 1000,
            speed: 200,
            width: 100_000,
        },
        actors: Vec::new(),
    };
    assert!(good.check());
    let mut bad = good;
    bad.hero.speed = -1;
    assert!(!bad.check());
}

#[test]
fn hero_transparency_and_ascension() {
    let mut assets = AssetMap::new();
    assets.insert("hero_idle".to_string(), clip(1, 100));
    assets.insert("hero_ascend".to_string(), clip(2, 100));
    let cfg = level::Hero {
        name: "ghost".to_string(),
        idle: "hero_idle".to_string(),
        ascend: "hero_ascend".to_string(),
        position: level::Point { x: 0, y: 0 },
        scale: 1000,
        speed: 500,
        width: 100_000,
    };
    let mut h = Hero::new(&cfg, &assets, 1).unwrap();
    assert!(h.is_transparent());
    h.turn_opaque();
    assert!(!h.is_transparent());
    h.turn_transparent();
    assert!(h.is_transparent());
    assert!(!h.won());
    h.ascend();
    h.ascend(); // idempotent
    assert_eq!(h.next_state, HeroState::Ascend);
    h.on_update(100); // idle completes: ascending
    assert_eq!(h.state, HeroState::Ascend);
    h.on_update(100);
    h.on_update(100); // ascend completes: done, frozen on the last pose
    assert!(h.won());
    assert_eq!(h.frame, 1);
    h.on_update(100);
    assert!(h.won());
    assert_eq!(h.frame, 1);
}
