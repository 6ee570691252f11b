//! The player-controlled ghost: a transparency toggle, input-driven
//! motion, and a one-shot win sub-machine. `ascend` queues the final
//! animation; after one full playthrough the hero is done, frozen on the
//! ascend clip's last pose, and `won()` reports true forever.

use vstd::prelude::*;

use crate::arith::{
    count_down, integrate, reload, spec_count_down, spec_integrate, spec_reload, MAX_DT, MAX_SPEED,
    POS_LIMIT, TIME_LIMIT,
};
use crate::assets::{spec_map_get, spec_map_has, AssetMap, Frame, ImageAsset};
use crate::detective::clip_durs_ok;
use crate::entity::{Rect, WorldPoint2, WorldVector2, RECT_LIMIT};
use crate::error::Error;
use crate::level;
use crate::sound::SoundEffects;

verus! {

/// The hero's animation states.
#[derive(Clone, Copy, Debug, PartialEq, Eq, Structural)]
pub enum HeroState {
    Idle,
    Ascend,
    Done,
}

/// The mathematical model of the hero.
#[verifier::ext_equal]
pub ghost struct HeroV {
    pub name: Seq<char>,
    pub pos_x: int,
    pub pos_y: int,
    pub vel_x: int,
    pub vel_y: int,
    pub scale: int,
    pub width: int,
    pub text: Seq<char>,
    pub visible: bool,
    pub active: bool,
    pub sprite_id: int,
    pub bb_x: int,
    pub bb_y: int,
    pub bb_w: int,
    pub bb_h: int,
    pub idle: Seq<Frame>,
    pub ascend: Seq<Frame>,
    pub frame: int,
    pub next_frame: int,
    pub transparent: bool,
    pub state: HeroState,
    pub next_state: HeroState,
}

/// The ghost the player haunts the world with.
#[derive(Debug)]
pub struct Hero {
    pub name: String,
    pub position: WorldPoint2,
    pub velocity: WorldVector2,
    pub scale: i64,
    pub width: i64,
    pub text: String,
    pub visible: bool,
    pub active: bool,
    pub sprite_id: u64,
    pub bb: Rect,
    pub idle: ImageAsset,
    pub ascend: ImageAsset,
    pub frame: usize,
    pub next_frame: i64,
    pub transparent: bool,
    pub state: HeroState,
    pub next_state: HeroState,
}

impl View for Hero {
    type V = HeroV;

    open spec fn view(&self) -> HeroV {
        HeroV {
            name: self.name@,
            pos_x: self.position.x as int,
            pos_y: self.position.y as int,
            vel_x: self.velocity.x as int,
            vel_y: self.velocity.y as int,
            scale: self.scale as int,
            width: self.width as int,
            text: self.text@,
            visible: self.visible,
            active: self.active,
            sprite_id: self.sprite_id as int,
            bb_x: self.bb.x as int,
            bb_y: self.bb.y as int,
            bb_w: self.bb.w as int,
            bb_h: self.bb.h as int,
            idle: self.idle.frames@,
            ascend: self.ascend.frames@,
            frame: self.frame as int,
            next_frame: self.next_frame as int,
            transparent: self.transparent,
            state: self.state,
            next_state: self.next_state,
        }
    }
}

/// The clip the hero plays in a given state: idle, or the ascend clip
/// both while ascending and when done.
pub open spec fn spec_hero_clip(h: HeroV, s: HeroState) -> Seq<Frame> {
    match s {
        HeroState::Idle => h.idle,
        HeroState::Ascend => h.ascend,
        HeroState::Done => h.ascend,
    }
}

/// The ranges every reachable hero state stays in; the frame index is
/// always inside the clip of the current state.
pub open spec fn hero_inv(h: HeroV) -> bool {
    &&& 1 <= h.idle.len()
    &&& 1 <= h.ascend.len()
    &&& clip_durs_ok(h.idle)
    &&& clip_durs_ok(h.ascend)
    &&& 0 <= h.frame < spec_hero_clip(h, h.state).len()
    &&& -POS_LIMIT <= h.pos_x <= POS_LIMIT
    &&& -POS_LIMIT <= h.pos_y <= POS_LIMIT
    &&& -MAX_SPEED <= h.vel_x <= MAX_SPEED
    &&& -MAX_SPEED <= h.vel_y <= MAX_SPEED
    &&& -TIME_LIMIT <= h.next_frame <= TIME_LIMIT
    &&& 0 <= h.width <= RECT_LIMIT
    &&& -RECT_LIMIT <= h.bb_x <= RECT_LIMIT
    &&& -RECT_LIMIT <= h.bb_y <= RECT_LIMIT
    &&& 0 <= h.bb_w <= RECT_LIMIT
    &&& 0 <= h.bb_h <= RECT_LIMIT
}

/// Move to `(x, y)` and keep the bounding box centered there.
pub open spec fn spec_hero_place(h: HeroV, x: int, y: int) -> HeroV {
    HeroV { pos_x: x, pos_y: y, bb_x: x - h.bb_w / 2, bb_y: y - h.bb_h / 2, ..h }
}

/// The transition table, consulted when a clip completes: idle loops,
/// one ascend playthrough leads to done, and done is terminal.
pub open spec fn spec_hero_table(s: HeroState) -> HeroState {
    match s {
        HeroState::Idle => HeroState::Idle,
        HeroState::Ascend => HeroState::Done,
        HeroState::Done => HeroState::Done,
    }
}

/// The animation-and-transition part of one tick. When done, the frame
/// is pinned to the ascend clip's last pose.
pub open spec fn spec_hero_animate(h: HeroV, dt: int) -> HeroV {
    let t = spec_count_down(h.next_frame, dt);
    if t > 0 {
        HeroV { next_frame: t, ..h }
    } else {
        let stepped = h.frame + 1;
        let wrapped = stepped >= spec_hero_clip(h, h.state).len();
        let entered = if wrapped {
            h.next_state
        } else {
            h.state
        };
        let queued = if wrapped {
            spec_hero_table(h.next_state)
        } else {
            h.next_state
        };
        let moved = if wrapped {
            0
        } else {
            stepped
        };
        let pinned = if entered == HeroState::Done {
            h.ascend.len() - 1
        } else {
            moved
        };
        HeroV {
            frame: pinned,
            state: entered,
            next_state: queued,
            next_frame: spec_reload(t, spec_hero_clip(h, entered)[pinned].frame_time as int),
            ..h
        }
    }
}

/// One whole tick: input-driven motion, then the animation countdown.
pub open spec fn spec_hero_update(h: HeroV, dt: int) -> HeroV {
    spec_hero_animate(
        spec_hero_place(
            h,
            spec_integrate(h.pos_x, h.vel_x, dt),
            spec_integrate(h.pos_y, h.vel_y, dt),
        ),
        dt,
    )
}

/// What queuing the ascension does: only an idle hero starts ascending;
/// asking again while ascending or done changes nothing.
pub open spec fn spec_ascend(h: HeroV) -> HeroV {
    HeroV {
        next_state: match h.next_state {
            HeroState::Idle => HeroState::Ascend,
            HeroState::Ascend => HeroState::Ascend,
            HeroState::Done => HeroState::Done,
        },
        ..h
    }
}

/// The hero a configuration entry and its two clips describe.
pub open spec fn spec_hero_from_cfg(
    cfg: level::Hero,
    idle: Seq<Frame>,
    ascend: Seq<Frame>,
    sprite_id: int,
) -> HeroV {
    let width = cfg.width as int * cfg.scale as int / level::SCALE_ONE as int;
    HeroV {
        name: cfg.name@,
        pos_x: cfg.position.x as int,
        pos_y: cfg.position.y as int,
        vel_x: 0,
        vel_y: 0,
        scale: cfg.scale as int,
        width: width,
        text: Seq::<char>::empty(),
        visible: true,
        active: true,
        sprite_id: sprite_id,
        bb_x: cfg.position.x as int - width / 2,
        bb_y: cfg.position.y as int - width / 2,
        bb_w: width,
        bb_h: width,
        idle: idle,
        ascend: ascend,
        frame: 0,
        next_frame: idle[0].frame_time as int,
        transparent: true,
        state: HeroState::Idle,
        next_state: HeroState::Idle,
    }
}

impl Hero {
    /// Build the hero from its configuration entry, the clip table and
    /// the renderer's sprite handle. Fails fast on a missing or empty
    /// clip.
    pub fn new(actor: &level::Hero, assets: &AssetMap, sprite_id: u64) -> (r: Result<Hero, Error>)
        requires
            level::hero_cfg_wf(*actor),
            assets.wf(),
        ensures
            r == Err::<Hero, Error>(Error::MissingAsset) <==> (!spec_map_has(
                assets.entries@,
                actor.idle@,
            ) || !spec_map_has(assets.entries@, actor.ascend@)),
            r == Err::<Hero, Error>(Error::EmptyClip) <==> (spec_map_has(
                assets.entries@,
                actor.idle@,
            ) && spec_map_has(assets.entries@, actor.ascend@) && (spec_map_get(
                assets.entries@,
                actor.idle@,
            ).frames@.len() == 0 || spec_map_get(assets.entries@, actor.ascend@).frames@.len()
                == 0)),
            r is Ok <==> spec_map_has(assets.entries@, actor.idle@) && spec_map_has(
                assets.entries@,
                actor.ascend@,
            ) && spec_map_get(assets.entries@, actor.idle@).frames@.len() > 0 && spec_map_get(
                assets.entries@,
                actor.ascend@,
            ).frames@.len() > 0,
            r matches Ok(h) ==> h@ == spec_hero_from_cfg(
                *actor,
                spec_map_get(assets.entries@, actor.idle@).frames@,
                spec_map_get(assets.entries@, actor.ascend@).frames@,
                sprite_id as int,
            ) && hero_inv(h@),
    {
        let idle = match assets.get(actor.idle.as_str()) {
            Some(a) => a,
            None => {
                return Err(Error::MissingAsset);
            },
        };
        let ascend = match assets.get(actor.ascend.as_str()) {
            Some(a) => a,
            None => {
                return Err(Error::MissingAsset);
            },
        };
        if idle.frame_count() == 0 || ascend.frame_count() == 0 {
            return Err(Error::EmptyClip);
        }
        let width = level::scaled_width(actor.width, actor.scale);
        let next_frame = idle.frames[0].frame_time;
        let bb = Rect::new(actor.position.x - width / 2, actor.position.y - width / 2, width, width);
        Ok(
            Hero {
                name: actor.name.clone(),
                position: WorldPoint2::new(actor.position.x, actor.position.y),
                velocity: WorldVector2::new(0, 0),
                scale: actor.scale,
                width,
                text: String::new(),
                visible: true,
                active: true,
                sprite_id,
                bb,
                idle: idle.duplicate(),
                ascend: ascend.duplicate(),
                frame: 0,
                next_frame,
                transparent: true,
                state: HeroState::Idle,
                next_state: HeroState::Idle,
            },
        )
    }

    /// One simulation tick of `dt` milliseconds.
    pub fn on_update(&mut self, dt: i64)
        requires
            hero_inv(old(self)@),
            0 <= dt <= MAX_DT,
        ensures
            final(self)@ == spec_hero_update(old(self)@, dt as int),
            hero_inv(final(self)@),
    {
        let px = integrate(self.position.x, self.velocity.x, dt);
        let py = integrate(self.position.y, self.velocity.y, dt);
        self.set_position(WorldPoint2::new(px, py));

        self.next_frame = count_down(self.next_frame, dt);
        if self.next_frame <= 0 {
            let len = match self.state {
                HeroState::Idle => self.idle.frames.len(),
                HeroState::Ascend => self.ascend.frames.len(),
                HeroState::Done => self.ascend.frames.len(),
            };
            self.frame = self.frame + 1;
            if self.frame >= len {
                self.frame = 0;
                self.state = self.next_state;
                self.next_state = match self.next_state {
                    HeroState::Idle => HeroState::Idle,
                    HeroState::Ascend => HeroState::Done,
                    HeroState::Done => HeroState::Done,
                };
            }
            match self.state {
                HeroState::Done => {
                    self.frame = self.ascend.frames.len() - 1;
                },
                _ => {},
            }
            let ft = match self.state {
                HeroState::Idle => self.idle.frames[self.frame].frame_time,
                HeroState::Ascend => self.ascend.frames[self.frame].frame_time,
                HeroState::Done => self.ascend.frames[self.frame].frame_time,
            };
            self.next_frame = reload(self.next_frame, ft);
        }
    }

    /// Whether the detective can see the hero and the hero can touch
    /// the world.
    pub fn is_transparent(&self) -> (r: bool)
        ensures
            r == self@.transparent,
    {
        self.transparent
    }

    /// Fade out: the detective no longer sees the hero.
    pub fn turn_transparent(&mut self)
        ensures
            final(self)@ == (HeroV { transparent: true, ..old(self)@ }),
    {
        self.transparent = true;
    }

    /// Materialize: visible to the detective, able to interact.
    pub fn turn_opaque(&mut self)
        ensures
            final(self)@ == (HeroV { transparent: false, ..old(self)@ }),
    {
        self.transparent = false;
    }

    /// Queue the win animation; only an idle hero starts it, and
    /// repeated calls change nothing.
    pub fn ascend(&mut self)
        ensures
            final(self)@ == spec_ascend(old(self)@),
    {
        self.next_state = match self.next_state {
            HeroState::Idle => HeroState::Ascend,
            HeroState::Ascend => HeroState::Ascend,
            HeroState::Done => HeroState::Done,
        };
    }

    /// Whether the ascend clip has played through: the terminal state.
    pub fn won(&self) -> (r: bool)
        ensures
            r == (self@.state == HeroState::Done),
    {
        match self.state {
            HeroState::Done => true,
            _ => false,
        }
    }

    pub fn name(&self) -> (r: String)
        ensures
            r@ == self@.name,
    {
        self.name.clone()
    }

    pub fn position(&self) -> (r: WorldPoint2)
        ensures
            r == self.position,
    {
        self.position
    }

    pub fn velocity(&self) -> (r: WorldVector2)
        ensures
            r == self.velocity,
    {
        self.velocity
    }

    pub fn scale(&self) -> (r: i64)
        ensures
            r == self.scale,
    {
        self.scale
    }

    pub fn visible(&self) -> (r: bool)
        ensures
            r == self.visible,
    {
        self.visible
    }

    pub fn active(&self) -> (r: bool)
        ensures
            r == self.active,
    {
        self.active
    }

    pub fn sprite_id(&self) -> (r: u64)
        ensures
            r == self.sprite_id,
    {
        self.sprite_id
    }

    pub fn width(&self) -> (r: i64)
        ensures
            r == self.width,
    {
        self.width
    }

    pub fn text(&self) -> (r: &String)
        ensures
            *r == self.text,
    {
        &self.text
    }

    pub fn set_text(&mut self, new_text: String)
        ensures
            final(self)@ == (HeroV { text: new_text@, ..old(self)@ }),
    {
        self.text = new_text;
    }

    /// The render-time bounding box the overlap test reads.
    pub fn bb(&self) -> (r: Rect)
        ensures
            r == self.bb,
    {
        self.bb
    }

    /// Move the hero; the bounding box follows, centered on the new
    /// position, until the renderer reports a fresher one.
    pub fn set_position(&mut self, position: WorldPoint2)
        requires
            hero_inv(old(self)@),
            -POS_LIMIT <= position.x <= POS_LIMIT,
            -POS_LIMIT <= position.y <= POS_LIMIT,
        ensures
            final(self)@ == spec_hero_place(old(self)@, position.x as int, position.y as int),
            hero_inv(final(self)@),
    {
        self.position = position;
        self.bb.x = position.x - self.bb.w / 2;
        self.bb.y = position.y - self.bb.h / 2;
    }

    /// Take the player's held direction as the hero's velocity.
    pub fn set_velocity(&mut self, velocity: WorldVector2)
        requires
            -MAX_SPEED <= velocity.x <= MAX_SPEED,
            -MAX_SPEED <= velocity.y <= MAX_SPEED,
        ensures
            final(self)@ == (HeroV {
                vel_x: velocity.x as int,
                vel_y: velocity.y as int,
                ..old(self)@
            }),
    {
        self.velocity = velocity;
    }

    /// Set only the horizontal speed, keeping the vertical one.
    pub fn set_velocity_x(&mut self, x: i64)
        requires
            -MAX_SPEED <= x <= MAX_SPEED,
            -MAX_SPEED <= old(self).velocity.y <= MAX_SPEED,
        ensures
            final(self)@ == (HeroV { vel_x: x as int, ..old(self)@ }),
    {
        let vy = self.velocity.y;
        self.set_velocity(WorldVector2::new(x, vy));
    }

    pub fn set_scale(&mut self, scale: i64)
        ensures
            final(self)@ == (HeroV { scale: scale as int, ..old(self)@ }),
    {
        self.scale = scale;
    }

    pub fn set_visible(&mut self, visible: bool)
        ensures
            final(self)@ == (HeroV { visible, ..old(self)@ }),
    {
        self.visible = visible;
    }

    pub fn set_active(&mut self, active: bool)
        ensures
            final(self)@ == (HeroV { active, ..old(self)@ }),
    {
        self.active = active;
    }

    /// Take the renderer's own bounding box for the hero's sprite.
    pub fn set_bb(&mut self, bb: Rect)
        requires
            crate::entity::rect_wf(bb),
        ensures
            final(self)@ == (HeroV {
                bb_x: bb.x as int,
                bb_y: bb.y as int,
                bb_w: bb.w as int,
                bb_h: bb.h as int,
                ..old(self)@
            }),
    {
        self.bb = bb;
    }

    /// The hero walks through other ghosts.
    pub fn interact_hero(&mut self, _sounds: &mut SoundEffects)
        ensures
            *final(self) == *old(self),
            *final(_sounds) == *old(_sounds),
    {
    }

    /// The detective walks through the hero.
    pub fn interact_detective(&mut self)
        ensures
            *final(self) == *old(self),
    {
    }

    /// The image handle the renderer should currently show.
    pub fn current_image(&self) -> (r: u64)
        requires
            hero_inv(self@),
        ensures
            r == spec_hero_clip(self@, self@.state)[self@.frame].image,
    {
        match self.state {
            HeroState::Idle => self.idle.frames[self.frame].image,
            HeroState::Ascend => self.ascend.frames[self.frame].image,
            HeroState::Done => self.ascend.frames[self.frame].image,
        }
    }
}

/// Queuing the ascension twice is the same as queuing it once, from
/// every hero state.
pub proof fn lemma_ascend_idempotent(h: HeroV)
    ensures
        spec_ascend(spec_ascend(h)) == spec_ascend(h),
{
}

/// Done is terminal: once the hero has won, every further tick keeps
/// the state, keeps `won()`, and keeps the frame pinned to the ascend
/// clip's last pose.
pub proof fn lemma_done_terminal(h: HeroV, dt: int)
    requires
        hero_inv(h),
        h.state == HeroState::Done,
        h.next_state == HeroState::Done,
    ensures
        spec_hero_update(h, dt).state == HeroState::Done,
        spec_hero_update(h, dt).next_state == HeroState::Done,
        spec_count_down(h.next_frame, dt) <= 0 ==> spec_hero_update(h, dt).frame == h.ascend.len()
            - 1,
{
}

} // verus!
