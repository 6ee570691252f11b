//! Generic scripted actors: static decorations, obstacles, one-shot or
//! reversible animated props, and clue props. They are driven purely by
//! their configuration plus the shared animation countdown: an
//! interaction starts the clip, and the clip either halts on its last
//! frame (one-shot) or plays back and forth across repeated triggers
//! (reversible), toggling `active` after each full traversal.

use vstd::prelude::*;

use crate::arith::{
    count_down, integrate, reload, spec_count_down, spec_integrate, spec_reload, MAX_DT, MAX_SPEED,
    POS_LIMIT, TIME_LIMIT,
};
use crate::assets::{spec_map_get, spec_map_has, AssetMap, Frame, ImageAsset};
use crate::entity::{Rect, WorldPoint2, WorldVector2, RECT_LIMIT};
use crate::error::Error;
use crate::level;
use crate::level::{ActorType, SCALE_ONE};
use crate::sound::SoundEffects;

verus! {

/// The mathematical model of a generic actor: every field as an
/// unbounded value.
#[verifier::ext_equal]
pub ghost struct DefaultActorV {
    pub name: Seq<char>,
    pub pos_x: int,
    pub pos_y: int,
    pub vel_x: int,
    pub vel_y: int,
    pub scale: int,
    pub width: int,
    pub text: Seq<char>,
    pub text_time: int,
    pub visible: bool,
    pub active: bool,
    pub sprite_id: int,
    pub bb_x: int,
    pub bb_y: int,
    pub bb_w: int,
    pub bb_h: int,
    pub frames: Seq<Frame>,
    pub actor_type: ActorType,
    pub sound: Seq<char>,
    pub animating: bool,
    pub frame: int,
    pub next_frame: int,
    pub reversible: bool,
    pub reversed: bool,
}

/// A generic scripted actor.
#[derive(Debug)]
pub struct DefaultActor {
    pub name: String,
    pub position: WorldPoint2,
    pub velocity: WorldVector2,
    pub scale: i64,
    pub width: i64,
    pub text: String,
    pub text_time: i64,
    pub visible: bool,
    pub active: bool,
    pub sprite_id: u64,
    pub bb: Rect,
    pub asset: ImageAsset,
    pub actor_type: ActorType,
    pub sound: String,
    pub animating: bool,
    pub frame: usize,
    pub next_frame: i64,
    pub reversible: bool,
    /// Whether the clip is at (or moving towards) its far end; the
    /// reversible props play backwards while this is set.
    pub state: bool,
}

impl View for DefaultActor {
    type V = DefaultActorV;

    open spec fn view(&self) -> DefaultActorV {
        DefaultActorV {
            name: self.name@,
            pos_x: self.position.x as int,
            pos_y: self.position.y as int,
            vel_x: self.velocity.x as int,
            vel_y: self.velocity.y as int,
            scale: self.scale as int,
            width: self.width as int,
            text: self.text@,
            text_time: self.text_time as int,
            visible: self.visible,
            active: self.active,
            sprite_id: self.sprite_id as int,
            bb_x: self.bb.x as int,
            bb_y: self.bb.y as int,
            bb_w: self.bb.w as int,
            bb_h: self.bb.h as int,
            frames: self.asset.frames@,
            actor_type: self.actor_type,
            sound: self.sound@,
            animating: self.animating,
            frame: self.frame as int,
            next_frame: self.next_frame as int,
            reversible: self.reversible,
            reversed: self.state,
        }
    }
}

/// The ranges every reachable actor state stays in; in particular the
/// frame index is always inside the clip.
pub open spec fn actor_inv(a: DefaultActorV) -> bool {
    &&& 1 <= a.frames.len()
    &&& 0 <= a.frame < a.frames.len()
    &&& forall|i: int|
        0 <= i < a.frames.len() ==> 0 <= (#[trigger] a.frames[i]).frame_time <= TIME_LIMIT
    &&& -POS_LIMIT <= a.pos_x <= POS_LIMIT
    &&& -POS_LIMIT <= a.pos_y <= POS_LIMIT
    &&& -MAX_SPEED <= a.vel_x <= MAX_SPEED
    &&& -MAX_SPEED <= a.vel_y <= MAX_SPEED
    &&& -TIME_LIMIT <= a.next_frame <= TIME_LIMIT
    &&& -TIME_LIMIT <= a.text_time <= TIME_LIMIT
    &&& 0 <= a.width <= RECT_LIMIT
    &&& -RECT_LIMIT <= a.bb_x <= RECT_LIMIT
    &&& -RECT_LIMIT <= a.bb_y <= RECT_LIMIT
    &&& 0 <= a.bb_w <= RECT_LIMIT
    &&& 0 <= a.bb_h <= RECT_LIMIT
}

/// Move to `(x, y)` and keep the bounding box centered there.
pub open spec fn spec_place(a: DefaultActorV, x: int, y: int) -> DefaultActorV {
    DefaultActorV { pos_x: x, pos_y: y, bb_x: x - a.bb_w / 2, bb_y: y - a.bb_h / 2, ..a }
}

/// One motion step: linear integration of both coordinates.
pub open spec fn spec_move(a: DefaultActorV, dt: int) -> DefaultActorV {
    spec_place(a, spec_integrate(a.pos_x, a.vel_x, dt), spec_integrate(a.pos_y, a.vel_y, dt))
}

/// One animation step: count the frame timer down, and on expiry
/// advance at most one frame (forwards, or backwards while reversed).
/// Reaching either end of the clip stops the animation, flips the
/// direction for the next run, and toggles `active`.
pub open spec fn spec_animate(a: DefaultActorV, dt: int) -> DefaultActorV {
    if !a.animating {
        a
    } else {
        let t = spec_count_down(a.next_frame, dt);
        if t > 0 {
            DefaultActorV { next_frame: t, ..a }
        } else {
            let stepped = if !a.reversed {
                a.frame + 1
            } else if a.frame > 0 {
                a.frame - 1
            } else {
                a.frame
            };
            let at_end = stepped + 1 >= a.frames.len() || stepped <= 0;
            let clamped = if stepped >= a.frames.len() {
                a.frames.len() - 1
            } else {
                stepped
            };
            DefaultActorV {
                frame: clamped,
                next_frame: spec_reload(t, a.frames[clamped].frame_time as int),
                animating: !at_end,
                reversed: if at_end {
                    !a.reversed
                } else {
                    a.reversed
                },
                active: if at_end {
                    !a.active
                } else {
                    a.active
                },
                ..a
            }
        }
    }
}

/// One speech-bubble step: count the text timer down while it is
/// positive, and clear the text once it has run out.
pub open spec fn spec_text_tick(a: DefaultActorV, dt: int) -> DefaultActorV {
    if a.text_time > 0 {
        DefaultActorV { text_time: spec_count_down(a.text_time, dt), ..a }
    } else {
        DefaultActorV { text: Seq::<char>::empty(), ..a }
    }
}

/// One whole tick: motion, then animation, then the speech bubble.
pub open spec fn spec_update(a: DefaultActorV, dt: int) -> DefaultActorV {
    spec_text_tick(spec_animate(spec_move(a, dt), dt), dt)
}

/// Whether a hero interaction starts the clip: only while the clip is
/// stopped, and only from the near end unless the prop is reversible.
pub open spec fn spec_interact_fires(a: DefaultActorV) -> bool {
    !a.animating && (!a.reversed || a.reversible)
}

/// What a hero interaction does to the actor itself.
pub open spec fn spec_interact(a: DefaultActorV) -> DefaultActorV {
    if spec_interact_fires(a) {
        DefaultActorV { animating: true, ..a }
    } else {
        a
    }
}

/// The actor a configuration entry and its clip describe, before any
/// tick has run.
pub open spec fn spec_actor_from_cfg(
    cfg: level::Actor,
    frames: Seq<Frame>,
    sprite_id: int,
) -> DefaultActorV {
    let width = cfg.width as int * cfg.scale as int / SCALE_ONE as int;
    DefaultActorV {
        name: cfg.name@,
        pos_x: cfg.position.x as int,
        pos_y: cfg.position.y as int,
        vel_x: 0,
        vel_y: 0,
        scale: cfg.scale as int,
        width: width,
        text: Seq::<char>::empty(),
        text_time: 0,
        visible: cfg.visible,
        active: cfg.active,
        sprite_id: sprite_id,
        bb_x: cfg.position.x as int - width / 2,
        bb_y: cfg.position.y as int - width / 2,
        bb_w: width,
        bb_h: width,
        frames: frames,
        actor_type: cfg.actor_type,
        sound: cfg.sound@,
        animating: false,
        frame: 0,
        next_frame: 0,
        reversible: cfg.reversible,
        reversed: false,
    }
}

impl DefaultActor {
    /// Build an actor from its configuration entry, the clip table and
    /// the renderer's sprite handle. Fails fast on a missing or empty
    /// clip: that is a corrupt content pipeline, never recovered from.
    pub fn new(actor: &level::Actor, assets: &AssetMap, sprite_id: u64) -> (r: Result<
        DefaultActor,
        Error,
    >)
        requires
            level::actor_cfg_wf(*actor),
            assets.wf(),
        ensures
            !spec_map_has(assets.entries@, actor.image@) <==> r == Err::<DefaultActor, Error>(
                Error::MissingAsset,
            ),
            spec_map_has(assets.entries@, actor.image@) && spec_map_get(
                assets.entries@,
                actor.image@,
            ).frames@.len() == 0 <==> r == Err::<DefaultActor, Error>(Error::EmptyClip),
            r is Ok <==> spec_map_has(assets.entries@, actor.image@) && spec_map_get(
                assets.entries@,
                actor.image@,
            ).frames@.len() > 0,
            r matches Ok(a) ==> a@ == spec_actor_from_cfg(
                *actor,
                spec_map_get(assets.entries@, actor.image@).frames@,
                sprite_id as int,
            ) && actor_inv(a@),
    {
        let asset = match assets.get(actor.image.as_str()) {
            Some(a) => a,
            None => {
                return Err(Error::MissingAsset);
            },
        };
        if asset.frame_count() == 0 {
            return Err(Error::EmptyClip);
        }
        let width = level::scaled_width(actor.width, actor.scale);
        let bb = Rect::new(actor.position.x - width / 2, actor.position.y - width / 2, width, width);
        Ok(
            DefaultActor {
                name: actor.name.clone(),
                position: WorldPoint2::new(actor.position.x, actor.position.y),
                velocity: WorldVector2::new(0, 0),
                scale: actor.scale,
                width,
                text: String::new(),
                text_time: 0,
                visible: actor.visible,
                active: actor.active,
                sprite_id,
                bb,
                asset: asset.duplicate(),
                actor_type: actor.actor_type,
                sound: actor.sound.clone(),
                animating: false,
                frame: 0,
                next_frame: 0,
                reversible: actor.reversible,
                state: false,
            },
        )
    }

    /// One simulation tick of `dt` milliseconds.
    pub fn on_update(&mut self, dt: i64)
        requires
            actor_inv(old(self)@),
            0 <= dt <= MAX_DT,
        ensures
            final(self)@ == spec_update(old(self)@, dt as int),
            actor_inv(final(self)@),
    {
        let px = integrate(self.position.x, self.velocity.x, dt);
        let py = integrate(self.position.y, self.velocity.y, dt);
        self.set_position(WorldPoint2::new(px, py));

        if self.animating {
            self.next_frame = count_down(self.next_frame, dt);
            if self.next_frame <= 0 {
                let len = self.asset.frames.len();
                if !self.state {
                    self.frame = self.frame + 1;
                } else {
                    if self.frame > 0 {
                        self.frame = self.frame - 1;
                    }
                }
                if self.frame >= len - 1 || self.frame == 0 {
                    self.animating = false;
                    self.state = !self.state;
                    self.active = !self.active;
                }
                if self.frame >= len {
                    self.frame = len - 1;
                }
                let ft = self.asset.frames[self.frame].frame_time;
                self.next_frame = reload(self.next_frame, ft);
            }
        }

        if self.text_time > 0 {
            self.text_time = count_down(self.text_time, dt);
        } else {
            self.text = String::new();
        }
    }

    /// The hero pokes this actor: start the clip if it is at rest and
    /// may run from here, and queue the actor's sound effect.
    pub fn interact_hero(&mut self, sounds: &mut SoundEffects)
        ensures
            final(self)@ == spec_interact(old(self)@),
            spec_interact_fires(old(self)@) ==> final(sounds).pending@.len() == old(
                sounds,
            ).pending@.len() + 1 && final(sounds).pending@[old(sounds).pending@.len() as int]@
                == old(self)@.sound && (forall|i: int|
                0 <= i < old(sounds).pending@.len() ==> final(sounds).pending@[i] == old(
                    sounds,
                ).pending@[i]),
            !spec_interact_fires(old(self)@) ==> final(sounds).pending@ == old(sounds).pending@,
            final(sounds).music_started == old(sounds).music_started,
    {
        if !self.animating {
            if !self.state || self.reversible {
                self.animating = true;
                sounds.play(self.sound.as_str());
            }
        }
    }

    /// The detective ignores generic scenery.
    pub fn interact_detective(&mut self)
        ensures
            *final(self) == *old(self),
    {
    }

    pub fn name(&self) -> (r: String)
        ensures
            r@ == self@.name,
    {
        self.name.clone()
    }

    pub fn position(&self) -> (r: WorldPoint2)
        ensures
            r == self.position,
    {
        self.position
    }

    pub fn velocity(&self) -> (r: WorldVector2)
        ensures
            r == self.velocity,
    {
        self.velocity
    }

    pub fn scale(&self) -> (r: i64)
        ensures
            r == self.scale,
    {
        self.scale
    }

    pub fn visible(&self) -> (r: bool)
        ensures
            r == self.visible,
    {
        self.visible
    }

    pub fn active(&self) -> (r: bool)
        ensures
            r == self.active,
    {
        self.active
    }

    pub fn sprite_id(&self) -> (r: u64)
        ensures
            r == self.sprite_id,
    {
        self.sprite_id
    }

    pub fn width(&self) -> (r: i64)
        ensures
            r == self.width,
    {
        self.width
    }

    pub fn actor_type(&self) -> (r: ActorType)
        ensures
            r == self.actor_type,
    {
        self.actor_type
    }

    pub fn text(&self) -> (r: &String)
        ensures
            *r == self.text,
    {
        &self.text
    }

    /// The render-time bounding box the overlap test reads.
    pub fn bb(&self) -> (r: Rect)
        ensures
            r == self.bb,
    {
        self.bb
    }

    /// Move the actor; the bounding box follows, centered on the new
    /// position, until the renderer reports a fresher one.
    pub fn set_position(&mut self, position: WorldPoint2)
        requires
            actor_inv(old(self)@),
            -POS_LIMIT <= position.x <= POS_LIMIT,
            -POS_LIMIT <= position.y <= POS_LIMIT,
        ensures
            final(self)@ == spec_place(old(self)@, position.x as int, position.y as int),
            actor_inv(final(self)@),
    {
        self.position = position;
        self.bb.x = position.x - self.bb.w / 2;
        self.bb.y = position.y - self.bb.h / 2;
    }

    pub fn set_velocity(&mut self, velocity: WorldVector2)
        requires
            -MAX_SPEED <= velocity.x <= MAX_SPEED,
            -MAX_SPEED <= velocity.y <= MAX_SPEED,
        ensures
            final(self)@ == (DefaultActorV {
                vel_x: velocity.x as int,
                vel_y: velocity.y as int,
                ..old(self)@
            }),
    {
        self.velocity = velocity;
    }

    pub fn set_scale(&mut self, scale: i64)
        ensures
            final(self)@ == (DefaultActorV { scale: scale as int, ..old(self)@ }),
    {
        self.scale = scale;
    }

    pub fn set_visible(&mut self, visible: bool)
        ensures
            final(self)@ == (DefaultActorV { visible, ..old(self)@ }),
    {
        self.visible = visible;
    }

    pub fn set_active(&mut self, active: bool)
        ensures
            final(self)@ == (DefaultActorV { active, ..old(self)@ }),
    {
        self.active = active;
    }

    /// Show `new_text` over the actor for `time` milliseconds.
    pub fn set_text(&mut self, new_text: String, time: i64)
        requires
            0 <= time <= TIME_LIMIT,
        ensures
            final(self)@ == (DefaultActorV {
                text: new_text@,
                text_time: time as int,
                ..old(self)@
            }),
    {
        self.text = new_text;
        self.text_time = time;
    }

    /// Take the renderer's own bounding box for this actor's sprite.
    pub fn set_bb(&mut self, bb: Rect)
        requires
            crate::entity::rect_wf(bb),
        ensures
            final(self)@ == (DefaultActorV {
                bb_x: bb.x as int,
                bb_y: bb.y as int,
                bb_w: bb.w as int,
                bb_h: bb.h as int,
                ..old(self)@
            }),
    {
        self.bb = bb;
    }

    /// The image handle the renderer should currently show.
    pub fn current_image(&self) -> (r: u64)
        requires
            actor_inv(self@),
        ensures
            r == self@.frames[self@.frame].image,
    {
        self.asset.frames[self.frame].image
    }
}

/// The actor after `n` ticks of `dt` milliseconds each.
pub open spec fn spec_update_n(a: DefaultActorV, dt: int, n: nat) -> DefaultActorV
    decreases n,
{
    if n == 0 {
        a
    } else {
        spec_update_n(spec_update(a, dt), dt, (n - 1) as nat)
    }
}

/// Ticks compose: running `n + 1` ticks is running `n` and then one more.
pub proof fn lemma_update_n_unfold_back(a: DefaultActorV, dt: int, n: nat)
    ensures
        spec_update_n(a, dt, (n + 1) as nat) == spec_update(spec_update_n(a, dt, n), dt),
    decreases n,
{
    if n == 0 {
        assert(spec_update_n(a, dt, 1) == spec_update_n(spec_update(a, dt), dt, 0));
    } else {
        lemma_update_n_unfold_back(spec_update(a, dt), dt, (n - 1) as nat);
        assert(spec_update_n(a, dt, (n + 1) as nat) == spec_update_n(
            spec_update(a, dt),
            dt,
            n,
        ));
        assert(spec_update_n(a, dt, n) == spec_update_n(
            spec_update(a, dt),
            dt,
            (n - 1) as nat,
        ));
    }
}

/// Every clip frame lasts exactly `d` milliseconds.
pub open spec fn uniform_duration(frames: Seq<Frame>, d: int) -> bool {
    forall|i: int| 0 <= i < frames.len() ==> (#[trigger] frames[i]).frame_time == d
}

/// Poking an actor mid-animation changes nothing at all: the clip is
/// never restarted while it runs.
pub proof fn lemma_interact_mid_animation(a: DefaultActorV)
    requires
        a.animating,
    ensures
        spec_interact(a) == a,
{
}

/// While the end of a one-shot run is still more than `k` frames away,
/// `k` ticks of the frame duration advance exactly `k` frames and keep
/// the clip playing, with the frame timer back where it started.
pub proof fn lemma_one_shot_run(a: DefaultActorV, d: int, k: nat)
    requires
        actor_inv(a),
        a.animating,
        !a.reversed,
        uniform_duration(a.frames, d),
        0 < d <= MAX_DT,
        0 <= a.next_frame <= d,
        a.frame + k + 1 < a.frames.len(),
    ensures
        actor_inv(spec_update_n(a, d, k)),
        spec_update_n(a, d, k).frame == a.frame + k,
        spec_update_n(a, d, k).animating,
        !spec_update_n(a, d, k).reversed,
        0 <= spec_update_n(a, d, k).next_frame <= d,
        spec_update_n(a, d, k).frames == a.frames,
        spec_update_n(a, d, k).active == a.active,
    decreases k,
{
    if k > 0 {
        let a1 = spec_update(a, d);
        assert(a1.frame == a.frame + 1);
        assert(a1.next_frame == a.next_frame);
        lemma_one_shot_run(a1, d, (k - 1) as nat);
    }
}

/// A stopped clip stays stopped: ticks no longer touch the animation
/// state in any way.
pub proof fn lemma_stopped_stable(a: DefaultActorV, dt: int, n: nat)
    requires
        !a.animating,
    ensures
        spec_update_n(a, dt, n).frame == a.frame,
        !spec_update_n(a, dt, n).animating,
        spec_update_n(a, dt, n).reversed == a.reversed,
        spec_update_n(a, dt, n).active == a.active,
        spec_update_n(a, dt, n).frames == a.frames,
    decreases n,
{
    if n > 0 {
        lemma_stopped_stable(spec_update(a, dt), dt, (n - 1) as nat);
    }
}

/// One-shot termination: a forward run through a clip of `N` frames,
/// each lasting `d > 0` milliseconds, stops after at most `N` ticks of
/// `d` — that is, once `N * d` time has elapsed — resting on the last
/// frame with the animation reported stopped and `active` toggled once.
pub proof fn lemma_one_shot_terminates(a: DefaultActorV, d: int, n: nat)
    requires
        actor_inv(a),
        a.animating,
        !a.reversed,
        a.frame == 0,
        uniform_duration(a.frames, d),
        0 < d <= MAX_DT,
        0 <= a.next_frame <= d,
        n >= a.frames.len() - 1,
        n >= 1,
    ensures
        !spec_update_n(a, d, n).animating,
        spec_update_n(a, d, n).frame == a.frames.len() - 1,
        spec_update_n(a, d, n).reversed,
        spec_update_n(a, d, n).active == !a.active,
    decreases n,
{
    let len = a.frames.len() as int;
    if len == 1 {
        let a1 = spec_update(a, d);
        assert(!a1.animating && a1.frame == 0 && a1.reversed && a1.active == !a.active);
        lemma_stopped_stable(a1, d, (n - 1) as nat);
        lemma_update_n_unfold_front(a, d, n);
    } else {
        let k = (len - 2) as nat;
        lemma_one_shot_run(a, d, k);
        let b = spec_update_n(a, d, k);
        let b1 = spec_update(b, d);
        assert(!b1.animating && b1.frame == len - 1 && b1.reversed && b1.active == !a.active);
        lemma_update_n_unfold_back(a, d, k);
        assert(b1 == spec_update_n(a, d, (k + 1) as nat));
        lemma_stopped_stable(b1, d, (n - k - 1) as nat);
        lemma_update_n_split(a, d, (k + 1) as nat, (n - k - 1) as nat);
    }
}

/// Ticks compose the other way round: one tick first, then `n` more.
pub proof fn lemma_update_n_unfold_front(a: DefaultActorV, dt: int, n: nat)
    requires
        n >= 1,
    ensures
        spec_update_n(a, dt, n) == spec_update_n(spec_update(a, dt), dt, (n - 1) as nat),
{
}

/// Ticks split: `m + k` ticks are `m` ticks and then `k` ticks.
pub proof fn lemma_update_n_split(a: DefaultActorV, dt: int, m: nat, k: nat)
    ensures
        spec_update_n(a, dt, m + k) == spec_update_n(spec_update_n(a, dt, m), dt, k),
    decreases m,
{
    if m > 0 {
        lemma_update_n_split(spec_update(a, dt), dt, (m - 1) as nat, k);
    }
}

} // verus!
