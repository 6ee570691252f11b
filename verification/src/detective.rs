//! The detective: an NPC with a three-state behavior machine (idle,
//! walking patrol, clue inspection) layered on the animation countdown.
//! State transitions are queued by events and take effect only when the
//! current clip completes a full cycle. Dedup guards keep a level-held
//! overlap from re-firing every tick, and the investigation ends once an
//! idle cycle completes after the macguffin was found.

use vstd::prelude::*;

use crate::arith::{
    count_down, integrate, reload, spec_count_down, spec_integrate, spec_reload, MAX_DT, MAX_SPEED,
    POS_LIMIT, TIME_LIMIT,
};
use crate::assets::{spec_map_get, spec_map_has, str_eq, AssetMap, Frame, ImageAsset};
use crate::default_actor::DefaultActor;
use crate::entity::{Rect, WorldPoint2, WorldVector2, RECT_LIMIT};
use crate::error::Error;
use crate::level;
use crate::level::ActorType;
use crate::sound::SoundEffects;

verus! {

/// Where the detective turns back towards the level, in thousandths of
/// a world unit, when a level does not configure its own bounds.
pub const PATROL_MAX_DEFAULT: i64 = 4800000;

pub const PATROL_MIN_DEFAULT: i64 = 150000;

/// The detective's behavior states.
#[derive(Clone, Copy, Debug, PartialEq, Eq, Structural)]
pub enum DetectiveState {
    Idle,
    Walk,
    Clue,
}

/// The mathematical model of the detective.
#[verifier::ext_equal]
pub ghost struct DetectiveV {
    pub name: Seq<char>,
    pub pos_x: int,
    pub pos_y: int,
    pub scale: int,
    pub speed: int,
    pub width: int,
    pub text: Seq<char>,
    pub visible: bool,
    pub active: bool,
    pub sprite_id: int,
    pub bb_x: int,
    pub bb_y: int,
    pub bb_w: int,
    pub bb_h: int,
    pub idle: Seq<Frame>,
    pub walk: Seq<Frame>,
    pub clue: Seq<Frame>,
    pub clue_sound: Seq<char>,
    pub frame: int,
    pub next_frame: int,
    pub state: DetectiveState,
    pub next_state: DetectiveState,
    pub last_obstacle: Seq<char>,
    pub last_clue: Seq<char>,
    pub direction: bool,
    pub found_macguffin: bool,
    pub done: bool,
    pub auto_patrol: bool,
    pub patrol_min: int,
    pub patrol_max: int,
}

/// The NPC itself. The behavior machine is tied to the animations: code
/// may queue `next_state`, but the detective only enters it when the
/// current clip has played through.
#[derive(Debug)]
pub struct Detective {
    pub name: String,
    pub position: WorldPoint2,
    pub scale: i64,
    pub speed: i64,
    pub width: i64,
    pub text: String,
    pub visible: bool,
    pub active: bool,
    pub sprite_id: u64,
    pub bb: Rect,
    pub idle: ImageAsset,
    pub walk: ImageAsset,
    pub clue: ImageAsset,
    pub clue_sound: String,
    pub frame: usize,
    pub next_frame: i64,
    pub state: DetectiveState,
    pub next_state: DetectiveState,
    pub last_obstacle: String,
    pub last_clue: String,
    pub direction: bool,
    pub found_macguffin: bool,
    pub done: bool,
    /// Whether completing an idle cycle resumes the walking patrol of
    /// its own accord, instead of resting until an event queues it.
    pub auto_patrol: bool,
    pub patrol_min: i64,
    pub patrol_max: i64,
}

impl View for Detective {
    type V = DetectiveV;

    open spec fn view(&self) -> DetectiveV {
        DetectiveV {
            name: self.name@,
            pos_x: self.position.x as int,
            pos_y: self.position.y as int,
            scale: self.scale as int,
            speed: self.speed as int,
            width: self.width as int,
            text: self.text@,
            visible: self.visible,
            active: self.active,
            sprite_id: self.sprite_id as int,
            bb_x: self.bb.x as int,
            bb_y: self.bb.y as int,
            bb_w: self.bb.w as int,
            bb_h: self.bb.h as int,
            idle: self.idle.frames@,
            walk: self.walk.frames@,
            clue: self.clue.frames@,
            clue_sound: self.clue_sound@,
            frame: self.frame as int,
            next_frame: self.next_frame as int,
            state: self.state,
            next_state: self.next_state,
            last_obstacle: self.last_obstacle@,
            last_clue: self.last_clue@,
            direction: self.direction,
            found_macguffin: self.found_macguffin,
            done: self.done,
            auto_patrol: self.auto_patrol,
            patrol_min: self.patrol_min as int,
            patrol_max: self.patrol_max as int,
        }
    }
}

/// The clip the detective plays in a given behavior state.
pub open spec fn spec_clip_of(d: DetectiveV, s: DetectiveState) -> Seq<Frame> {
    match s {
        DetectiveState::Idle => d.idle,
        DetectiveState::Walk => d.walk,
        DetectiveState::Clue => d.clue,
    }
}

/// Admissible durations throughout one clip.
pub open spec fn clip_durs_ok(frames: Seq<Frame>) -> bool {
    forall|i: int| 0 <= i < frames.len() ==> 0 <= (#[trigger] frames[i]).frame_time <= TIME_LIMIT
}

/// The ranges every reachable detective state stays in; the frame index
/// is always inside the clip of the current behavior state.
pub open spec fn detective_inv(d: DetectiveV) -> bool {
    &&& 1 <= d.idle.len()
    &&& 1 <= d.walk.len()
    &&& 1 <= d.clue.len()
    &&& clip_durs_ok(d.idle)
    &&& clip_durs_ok(d.walk)
    &&& clip_durs_ok(d.clue)
    &&& 0 <= d.frame < spec_clip_of(d, d.state).len()
    &&& -POS_LIMIT <= d.pos_x <= POS_LIMIT
    &&& -POS_LIMIT <= d.pos_y <= POS_LIMIT
    &&& 0 <= d.speed <= MAX_SPEED
    &&& -TIME_LIMIT <= d.next_frame <= TIME_LIMIT
    &&& 0 <= d.width <= RECT_LIMIT
    &&& -RECT_LIMIT <= d.bb_x <= RECT_LIMIT
    &&& -RECT_LIMIT <= d.bb_y <= RECT_LIMIT
    &&& 0 <= d.bb_w <= RECT_LIMIT
    &&& 0 <= d.bb_h <= RECT_LIMIT
    &&& -POS_LIMIT <= d.patrol_min <= POS_LIMIT
    &&& -POS_LIMIT <= d.patrol_max <= POS_LIMIT
}

/// Move to `(x, y)` and keep the bounding box centered there.
pub open spec fn spec_det_place(d: DetectiveV, x: int, y: int) -> DetectiveV {
    DetectiveV { pos_x: x, pos_y: y, bb_x: x - d.bb_w / 2, bb_y: y - d.bb_h / 2, ..d }
}

/// The walking velocity: the patrol speed, signed by the facing
/// direction; zero outside the walking state.
pub open spec fn spec_det_velocity(d: DetectiveV) -> int {
    if d.state == DetectiveState::Walk {
        if d.direction {
            d.speed
        } else {
            -d.speed
        }
    } else {
        0
    }
}

/// The patrol clamp: past either turnaround coordinate the detective
/// faces back towards the level and both dedup guards are cleared.
pub open spec fn spec_patrol_clamp(d: DetectiveV) -> DetectiveV {
    if d.pos_x > d.patrol_max {
        DetectiveV {
            direction: false,
            last_obstacle: Seq::<char>::empty(),
            last_clue: Seq::<char>::empty(),
            ..d
        }
    } else if d.pos_x < d.patrol_min {
        DetectiveV {
            direction: true,
            last_obstacle: Seq::<char>::empty(),
            last_clue: Seq::<char>::empty(),
            ..d
        }
    } else {
        d
    }
}

/// The transition table, consulted when a clip completes: idle rests
/// (or, with `auto_patrol`, resumes walking), walking continues, and a
/// clue inspection ends in idle once the macguffin was found, else
/// back to walking. Completing an idle cycle latches `done` to the
/// macguffin flag.
pub open spec fn spec_det_table(s: DetectiveState, found: bool, auto_patrol: bool) -> DetectiveState {
    match s {
        DetectiveState::Idle => if auto_patrol {
            DetectiveState::Walk
        } else {
            DetectiveState::Idle
        },
        DetectiveState::Walk => DetectiveState::Walk,
        DetectiveState::Clue => if found {
            DetectiveState::Idle
        } else {
            DetectiveState::Walk
        },
    }
}

/// The animation-and-transition part of one tick.
pub open spec fn spec_det_animate(d: DetectiveV, dt: int) -> DetectiveV {
    let t = spec_count_down(d.next_frame, dt);
    if t > 0 {
        DetectiveV { next_frame: t, ..d }
    } else {
        let stepped = d.frame + 1;
        if stepped >= spec_clip_of(d, d.state).len() {
            let entered = d.next_state;
            let done2 = if d.next_state == DetectiveState::Idle {
                d.found_macguffin
            } else {
                d.done
            };
            DetectiveV {
                frame: 0,
                state: entered,
                next_state: spec_det_table(d.next_state, d.found_macguffin, d.auto_patrol),
                done: done2,
                next_frame: spec_reload(t, spec_clip_of(d, entered)[0].frame_time as int),
                ..d
            }
        } else {
            DetectiveV {
                frame: stepped,
                next_frame: spec_reload(
                    t,
                    spec_clip_of(d, d.state)[stepped].frame_time as int,
                ),
                ..d
            }
        }
    }
}

/// One whole tick: patrol motion while walking, the turnaround clamp,
/// then the animation countdown and any queued transition.
pub open spec fn spec_det_update(d: DetectiveV, dt: int) -> DetectiveV {
    let moved = if d.state == DetectiveState::Walk {
        spec_det_place(
            d,
            spec_integrate(d.pos_x, spec_det_velocity(d), dt),
            spec_integrate(d.pos_y, 0, dt),
        )
    } else {
        d
    };
    spec_det_animate(spec_patrol_clamp(moved), dt)
}

/// Whether an interaction with this actor queues a clue inspection
/// (and plays the clue sound): a first overlap with an active clue.
pub open spec fn spec_clue_fires(
    d: DetectiveV,
    ty: ActorType,
    oname: Seq<char>,
    oactive: bool,
) -> bool {
    ty matches ActorType::Clue(_) && d.last_clue != oname && oactive
}

/// What one interaction with an overlapping actor does: nothing for
/// scenery; a first contact with an obstacle records it and, if the
/// obstacle is active, turns the detective around and clears the clue
/// guard; a first contact with an active clue records it, queues the
/// inspection state and notes the macguffin.
pub open spec fn spec_det_interact(
    d: DetectiveV,
    ty: ActorType,
    oname: Seq<char>,
    oactive: bool,
) -> DetectiveV {
    match ty {
        ActorType::Static => d,
        ActorType::Obstacle => {
            if d.last_obstacle != oname {
                if oactive {
                    DetectiveV {
                        last_obstacle: oname,
                        direction: !d.direction,
                        last_clue: Seq::<char>::empty(),
                        ..d
                    }
                } else {
                    DetectiveV { last_obstacle: oname, ..d }
                }
            } else {
                d
            }
        },
        ActorType::Clue(macguffin) => {
            if d.last_clue != oname && oactive {
                DetectiveV {
                    last_clue: oname,
                    next_state: DetectiveState::Clue,
                    found_macguffin: d.found_macguffin || macguffin,
                    ..d
                }
            } else {
                d
            }
        },
    }
}

/// What fleeing from the hero does: clear the obstacle guard, turn
/// around, queue walking, and cry out.
pub open spec fn spec_run_away(d: DetectiveV) -> DetectiveV {
    DetectiveV {
        last_obstacle: Seq::<char>::empty(),
        direction: !d.direction,
        next_state: DetectiveState::Walk,
        text: "Aaaaah!!!"@,
        ..d
    }
}

/// The detective a configuration entry and its three clips describe.
pub open spec fn spec_detective_from_cfg(
    cfg: level::Detective,
    idle: Seq<Frame>,
    walk: Seq<Frame>,
    clue: Seq<Frame>,
    sprite_id: int,
) -> DetectiveV {
    let width = cfg.width as int * cfg.scale as int / level::SCALE_ONE as int;
    DetectiveV {
        name: cfg.name@,
        pos_x: cfg.position.x as int,
        pos_y: cfg.position.y as int,
        scale: cfg.scale as int,
        speed: cfg.speed as int,
        width: width,
        text: Seq::<char>::empty(),
        visible: true,
        active: true,
        sprite_id: sprite_id,
        bb_x: cfg.position.x as int - width / 2,
        bb_y: cfg.position.y as int - width / 2,
        bb_w: width,
        bb_h: width,
        idle: idle,
        walk: walk,
        clue: clue,
        clue_sound: cfg.clue_sound@,
        frame: 0,
        next_frame: idle[0].frame_time as int,
        state: DetectiveState::Idle,
        next_state: DetectiveState::Idle,
        last_obstacle: Seq::<char>::empty(),
        last_clue: Seq::<char>::empty(),
        direction: true,
        found_macguffin: false,
        done: false,
        auto_patrol: false,
        patrol_min: PATROL_MIN_DEFAULT as int,
        patrol_max: PATROL_MAX_DEFAULT as int,
    }
}

impl Detective {
    /// Build the detective from its configuration entry, the clip table
    /// and the renderer's sprite handle. Fails fast on a missing or
    /// empty clip.
    pub fn new(actor: &level::Detective, assets: &AssetMap, sprite_id: u64) -> (r: Result<
        Detective,
        Error,
    >)
        requires
            level::detective_cfg_wf(*actor),
            assets.wf(),
        ensures
            r == Err::<Detective, Error>(Error::MissingAsset) <==> (!spec_map_has(
                assets.entries@,
                actor.idle@,
            ) || !spec_map_has(assets.entries@, actor.walk@) || !spec_map_has(
                assets.entries@,
                actor.clue@,
            )),
            r == Err::<Detective, Error>(Error::EmptyClip) <==> (spec_map_has(
                assets.entries@,
                actor.idle@,
            ) && spec_map_has(assets.entries@, actor.walk@) && spec_map_has(
                assets.entries@,
                actor.clue@,
            ) && (spec_map_get(assets.entries@, actor.idle@).frames@.len() == 0 || spec_map_get(
                assets.entries@,
                actor.walk@,
            ).frames@.len() == 0 || spec_map_get(assets.entries@, actor.clue@).frames@.len()
                == 0)),
            r is Ok <==> spec_map_has(assets.entries@, actor.idle@) && spec_map_has(
                assets.entries@,
                actor.walk@,
            ) && spec_map_has(assets.entries@, actor.clue@) && spec_map_get(
                assets.entries@,
                actor.idle@,
            ).frames@.len() > 0 && spec_map_get(assets.entries@, actor.walk@).frames@.len() > 0
                && spec_map_get(assets.entries@, actor.clue@).frames@.len() > 0,
            r matches Ok(d) ==> d@ == spec_detective_from_cfg(
                *actor,
                spec_map_get(assets.entries@, actor.idle@).frames@,
                spec_map_get(assets.entries@, actor.walk@).frames@,
                spec_map_get(assets.entries@, actor.clue@).frames@,
                sprite_id as int,
            ) && detective_inv(d@),
    {
        let idle = match assets.get(actor.idle.as_str()) {
            Some(a) => a,
            None => {
                return Err(Error::MissingAsset);
            },
        };
        let walk = match assets.get(actor.walk.as_str()) {
            Some(a) => a,
            None => {
                return Err(Error::MissingAsset);
            },
        };
        let clue = match assets.get(actor.clue.as_str()) {
            Some(a) => a,
            None => {
                return Err(Error::MissingAsset);
            },
        };
        if idle.frame_count() == 0 || walk.frame_count() == 0 || clue.frame_count() == 0 {
            return Err(Error::EmptyClip);
        }
        let width = level::scaled_width(actor.width, actor.scale);
        let next_frame = idle.frames[0].frame_time;
        let bb = Rect::new(actor.position.x - width / 2, actor.position.y - width / 2, width, width);
        Ok(
            Detective {
                name: actor.name.clone(),
                position: WorldPoint2::new(actor.position.x, actor.position.y),
                scale: actor.scale,
                speed: actor.speed,
                width,
                text: String::new(),
                visible: true,
                active: true,
                sprite_id,
                bb,
                idle: idle.duplicate(),
                walk: walk.duplicate(),
                clue: clue.duplicate(),
                clue_sound: actor.clue_sound.clone(),
                frame: 0,
                next_frame,
                state: DetectiveState::Idle,
                next_state: DetectiveState::Idle,
                last_obstacle: String::new(),
                last_clue: String::new(),
                direction: true,
                found_macguffin: false,
                done: false,
                auto_patrol: false,
                patrol_min: PATROL_MIN_DEFAULT,
                patrol_max: PATROL_MAX_DEFAULT,
            },
        )
    }

    /// One simulation tick of `dt` milliseconds.
    #[verifier::rlimit(100)]
    pub fn on_update(&mut self, dt: i64)
        requires
            detective_inv(old(self)@),
            0 <= dt <= MAX_DT,
        ensures
            final(self)@ == spec_det_update(old(self)@, dt as int),
            detective_inv(final(self)@),
    {
        match self.state {
            DetectiveState::Walk => {
                let vx = if self.direction {
                    self.speed
                } else {
                    -self.speed
                };
                let px = integrate(self.position.x, vx, dt);
                let py = integrate(self.position.y, 0, dt);
                self.set_position(WorldPoint2::new(px, py));
            },
            _ => {},
        }

        if self.position.x > self.patrol_max {
            self.set_direction(false);
            self.last_obstacle = String::new();
            self.last_clue = String::new();
        } else if self.position.x < self.patrol_min {
            self.set_direction(true);
            self.last_obstacle = String::new();
            self.last_clue = String::new();
        }

        self.next_frame = count_down(self.next_frame, dt);
        if self.next_frame <= 0 {
            let len = match self.state {
                DetectiveState::Idle => self.idle.frames.len(),
                DetectiveState::Walk => self.walk.frames.len(),
                DetectiveState::Clue => self.clue.frames.len(),
            };
            self.frame = self.frame + 1;
            if self.frame >= len {
                self.frame = 0;
                self.state = self.next_state;
                self.next_state = match self.next_state {
                    DetectiveState::Idle => {
                        self.done = self.found_macguffin;
                        if self.auto_patrol {
                            DetectiveState::Walk
                        } else {
                            DetectiveState::Idle
                        }
                    },
                    DetectiveState::Walk => DetectiveState::Walk,
                    DetectiveState::Clue => {
                        if self.found_macguffin {
                            DetectiveState::Idle
                        } else {
                            DetectiveState::Walk
                        }
                    },
                };
            }
            let ft = match self.state {
                DetectiveState::Idle => self.idle.frames[self.frame].frame_time,
                DetectiveState::Walk => self.walk.frames[self.frame].frame_time,
                DetectiveState::Clue => self.clue.frames[self.frame].frame_time,
            };
            self.next_frame = reload(self.next_frame, ft);
        }
    }

    /// React to an overlapping actor: obstacles turn the detective
    /// around once each, active clues queue an inspection and play the
    /// clue sound, scenery does nothing.
    pub fn interact_entity(&mut self, actor: &DefaultActor, sounds: &mut SoundEffects)
        ensures
            final(self)@ == spec_det_interact(
                old(self)@,
                actor@.actor_type,
                actor@.name,
                actor@.active,
            ),
            spec_clue_fires(old(self)@, actor@.actor_type, actor@.name, actor@.active)
                ==> final(sounds).pending@.len() == old(sounds).pending@.len() + 1
                && final(sounds).pending@[old(sounds).pending@.len() as int]@
                == old(self)@.clue_sound && (forall|i: int|
                0 <= i < old(sounds).pending@.len() ==> final(sounds).pending@[i] == old(
                    sounds,
                ).pending@[i]),
            !spec_clue_fires(old(self)@, actor@.actor_type, actor@.name, actor@.active)
                ==> final(sounds).pending@ == old(sounds).pending@,
            final(sounds).music_started == old(sounds).music_started,
    {
        match actor.actor_type() {
            ActorType::Static => {},
            ActorType::Obstacle => {
                if !str_eq(self.last_obstacle.as_str(), actor.name.as_str()) {
                    self.last_obstacle = actor.name();
                    if actor.active() {
                        let dir = !self.direction;
                        self.set_direction(dir);
                        self.last_clue = String::new();
                    }
                }
            },
            ActorType::Clue(macguffin) => {
                if !str_eq(self.last_clue.as_str(), actor.name.as_str()) && actor.active() {
                    self.last_clue = actor.name();
                    self.next_state = DetectiveState::Clue;
                    let sound_name = self.clue_sound.clone();
                    sounds.play(sound_name.as_str());
                    if macguffin {
                        self.found_macguffin = true;
                    }
                }
            },
        }
    }

    /// Flee from the hero: turn around, forget the last obstacle, queue
    /// walking, and cry out.
    pub fn run_away(&mut self)
        ensures
            final(self)@ == spec_run_away(old(self)@),
    {
        self.last_obstacle = String::new();
        let dir = !self.direction;
        self.set_direction(dir);
        self.next_state = DetectiveState::Walk;
        self.set_text(String::from_str("Aaaaah!!!"));
    }

    /// Face right (`true`) or left (`false`).
    pub fn set_direction(&mut self, dir: bool)
        ensures
            final(self)@ == (DetectiveV { direction: dir, ..old(self)@ }),
    {
        self.direction = dir;
    }

    /// Whether the investigation has ended: the detective completed an
    /// idle cycle after finding the macguffin.
    pub fn done(&self) -> (r: bool)
        ensures
            r == self@.done,
    {
        self.done
    }

    pub fn name(&self) -> (r: String)
        ensures
            r@ == self@.name,
    {
        self.name.clone()
    }

    pub fn position(&self) -> (r: WorldPoint2)
        ensures
            r == self.position,
    {
        self.position
    }

    /// The detective's velocity is internal to its patrol logic; the
    /// generic motion integration never moves it.
    pub fn velocity(&self) -> (r: WorldVector2)
        ensures
            r.x == 0 && r.y == 0,
    {
        WorldVector2::new(0, 0)
    }

    /// The detective's motion is his own: an assigned velocity is
    /// ignored.
    pub fn set_velocity(&mut self, _velocity: WorldVector2)
        ensures
            *final(self) == *old(self),
    {
    }

    pub fn scale(&self) -> (r: i64)
        ensures
            r == self.scale,
    {
        self.scale
    }

    pub fn visible(&self) -> (r: bool)
        ensures
            r == self.visible,
    {
        self.visible
    }

    pub fn active(&self) -> (r: bool)
        ensures
            r == self.active,
    {
        self.active
    }

    pub fn sprite_id(&self) -> (r: u64)
        ensures
            r == self.sprite_id,
    {
        self.sprite_id
    }

    pub fn width(&self) -> (r: i64)
        ensures
            r == self.width,
    {
        self.width
    }

    pub fn direction(&self) -> (r: bool)
        ensures
            r == self.direction,
    {
        self.direction
    }

    pub fn text(&self) -> (r: &String)
        ensures
            *r == self.text,
    {
        &self.text
    }

    pub fn set_text(&mut self, new_text: String)
        ensures
            final(self)@ == (DetectiveV { text: new_text@, ..old(self)@ }),
    {
        self.text = new_text;
    }

    /// The render-time bounding box the overlap test reads.
    pub fn bb(&self) -> (r: Rect)
        ensures
            r == self.bb,
    {
        self.bb
    }

    /// Move the detective; the bounding box follows, centered on the
    /// new position, until the renderer reports a fresher one.
    pub fn set_position(&mut self, position: WorldPoint2)
        requires
            detective_inv(old(self)@),
            -POS_LIMIT <= position.x <= POS_LIMIT,
            -POS_LIMIT <= position.y <= POS_LIMIT,
        ensures
            final(self)@ == spec_det_place(old(self)@, position.x as int, position.y as int),
            detective_inv(final(self)@),
    {
        self.position = position;
        self.bb.x = position.x - self.bb.w / 2;
        self.bb.y = position.y - self.bb.h / 2;
    }

    pub fn set_scale(&mut self, scale: i64)
        ensures
            final(self)@ == (DetectiveV { scale: scale as int, ..old(self)@ }),
    {
        self.scale = scale;
    }

    pub fn set_visible(&mut self, visible: bool)
        ensures
            final(self)@ == (DetectiveV { visible, ..old(self)@ }),
    {
        self.visible = visible;
    }

    pub fn set_active(&mut self, active: bool)
        ensures
            final(self)@ == (DetectiveV { active, ..old(self)@ }),
    {
        self.active = active;
    }

    /// Take the renderer's own bounding box for the detective's sprite.
    pub fn set_bb(&mut self, bb: Rect)
        requires
            crate::entity::rect_wf(bb),
        ensures
            final(self)@ == (DetectiveV {
                bb_x: bb.x as int,
                bb_y: bb.y as int,
                bb_w: bb.w as int,
                bb_h: bb.h as int,
                ..old(self)@
            }),
    {
        self.bb = bb;
    }

    /// Choose whether completing an idle cycle resumes the walking
    /// patrol of its own accord; by default the detective rests idle
    /// until an event queues walking.
    pub fn set_auto_patrol(&mut self, auto_patrol: bool)
        ensures
            final(self)@ == (DetectiveV { auto_patrol, ..old(self)@ }),
    {
        self.auto_patrol = auto_patrol;
    }

    /// Override the patrol turnaround coordinates the defaults stand in
    /// for, e.g. from the level's own world bounds.
    pub fn set_patrol_bounds(&mut self, min: i64, max: i64)
        requires
            -POS_LIMIT <= min <= POS_LIMIT,
            -POS_LIMIT <= max <= POS_LIMIT,
        ensures
            final(self)@ == (DetectiveV {
                patrol_min: min as int,
                patrol_max: max as int,
                ..old(self)@
            }),
    {
        self.patrol_min = min;
        self.patrol_max = max;
    }

    /// The hero pokes the detective: he resumes walking when his
    /// current clip completes.
    pub fn interact_hero(&mut self, _sounds: &mut SoundEffects)
        ensures
            final(self)@ == (DetectiveV { next_state: DetectiveState::Walk, ..old(self)@ }),
            *final(_sounds) == *old(_sounds),
    {
        self.next_state = DetectiveState::Walk;
    }

    /// The image handle the renderer should currently show.
    pub fn current_image(&self) -> (r: u64)
        requires
            detective_inv(self@),
        ensures
            r == spec_clip_of(self@, self@.state)[self@.frame].image,
    {
        match self.state {
            DetectiveState::Idle => self.idle.frames[self.frame].image,
            DetectiveState::Walk => self.walk.frames[self.frame].image,
            DetectiveState::Clue => self.clue.frames[self.frame].image,
        }
    }
}

/// The obstacle dedup guard: a second contact with the same obstacle,
/// with no reset in between, changes nothing — the turnaround fires
/// exactly once per distinct obstacle.
pub proof fn lemma_obstacle_dedup(d: DetectiveV, oname: Seq<char>, oactive: bool)
    ensures
        spec_det_interact(
            spec_det_interact(d, ActorType::Obstacle, oname, oactive),
            ActorType::Obstacle,
            oname,
            oactive,
        ) == spec_det_interact(d, ActorType::Obstacle, oname, oactive),
{
}

/// The clue dedup guard: a second contact with the same clue, with no
/// reset in between, changes nothing and fires no second sound.
pub proof fn lemma_clue_dedup(d: DetectiveV, macguffin: bool, oname: Seq<char>, oactive: bool)
    ensures
        spec_det_interact(
            spec_det_interact(d, ActorType::Clue(macguffin), oname, oactive),
            ActorType::Clue(macguffin),
            oname,
            oactive,
        ) == spec_det_interact(d, ActorType::Clue(macguffin), oname, oactive),
        !spec_clue_fires(
            spec_det_interact(d, ActorType::Clue(macguffin), oname, oactive),
            ActorType::Clue(macguffin),
            oname,
            oactive,
        ),
{
}

} // verus!
