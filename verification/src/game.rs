//! The running game: the world state and the per-tick dispatch that
//! ties the actors together — motion and animation for everyone, the
//! detective's interaction pass, the win latch, the flee rule, and the
//! hero/camera clamps to the world bounds.

use vstd::prelude::*;

use crate::arith::{clamp, spec_clamp, MAX_DT, POS_LIMIT};
use crate::camera::Camera2;
use crate::default_actor::{
    actor_inv, spec_interact, spec_interact_fires, spec_update, DefaultActor, DefaultActorV,
};
use crate::detective::{
    detective_inv, spec_clue_fires, spec_det_interact, spec_det_update, spec_run_away, Detective,
    DetectiveState, DetectiveV,
};
use crate::entity::{overlap, spec_overlap_ints, WorldPoint2};
use crate::font::{ft_inv, FontTransition};
use crate::hero::{hero_inv, spec_ascend, spec_hero_place, spec_hero_update, Hero, HeroState, HeroV};
use crate::level::Level;
use crate::sound::SoundEffects;

verus! {

/// How close, in thousandths of a world unit, the opaque hero must be
/// for the detective to spot him and flee.
pub const FLEE_DISTANCE: i64 = 800000;

/// How far, in thousandths of a world unit, the hero is kept inside
/// the world bounds.
pub const HERO_MARGIN: i64 = 75000;

/// The save-worthy state of one session: the level it was built from,
/// the camera, the generic actors, the hero and the detective, the win
/// latch, and the on-screen texts.
#[derive(Debug)]
pub struct State {
    pub level: Level,
    pub camera: Camera2,
    pub entities: Vec<DefaultActor>,
    pub hero: Option<Hero>,
    pub detective: Option<Detective>,
    /// Latched once the detective first reports done.
    pub found: bool,
    /// Latched once the hero's ascension completes.
    pub win: bool,
    pub title_text: FontTransition,
    pub hint_text: FontTransition,
}

/// The views of a sequence of actors.
pub open spec fn views_of(s: Seq<DefaultActor>) -> Seq<DefaultActorV> {
    s.map_values(|e: DefaultActor| e@)
}

/// Every actor after one tick of `dt`.
pub open spec fn spec_tick_entities(ents: Seq<DefaultActorV>, dt: int) -> Seq<DefaultActorV> {
    ents.map_values(|e: DefaultActorV| spec_update(e, dt))
}

/// Whether actor `e` and the detective `d` overlap, on their render
/// boxes and interaction widths.
pub open spec fn spec_ent_det_overlap(e: DefaultActorV, d: DetectiveV) -> bool {
    spec_overlap_ints(e.bb_x, e.bb_w, e.width, d.bb_x, d.bb_w, d.width)
}

/// The detective after reacting to the first `n` actors that overlap
/// him, in order.
pub open spec fn spec_det_pass(d: DetectiveV, ents: Seq<DefaultActorV>, n: int) -> DetectiveV
    decreases n,
{
    if n <= 0 {
        d
    } else {
        let prev = spec_det_pass(d, ents, n - 1);
        let e = ents[n - 1];
        if spec_ent_det_overlap(e, prev) {
            spec_det_interact(prev, e.actor_type, e.name, e.active)
        } else {
            prev
        }
    }
}

/// The clue sounds the detective's pass over the first `n` actors
/// queues, in order.
pub open spec fn spec_det_pass_sounds(d: DetectiveV, ents: Seq<DefaultActorV>, n: int) -> Seq<
    Seq<char>,
>
    decreases n,
{
    if n <= 0 {
        Seq::empty()
    } else {
        let prev = spec_det_pass(d, ents, n - 1);
        let sounds = spec_det_pass_sounds(d, ents, n - 1);
        let e = ents[n - 1];
        if spec_ent_det_overlap(e, prev) && spec_clue_fires(prev, e.actor_type, e.name, e.active) {
            sounds.push(prev.clue_sound)
        } else {
            sounds
        }
    }
}

/// Whether the win event fires this tick: the detective reports done
/// and the latch is still clear.
pub open spec fn spec_found_fires(det_done: bool, found: bool) -> bool {
    det_done && !found
}

/// Whether the detective spots the hero this tick: closer than the
/// flee distance, not transparent, and being faced.
pub open spec fn spec_sees_hero(h: HeroV, d: DetectiveV) -> bool {
    let dx = if h.pos_x >= d.pos_x {
        h.pos_x - d.pos_x
    } else {
        d.pos_x - h.pos_x
    };
    dx < FLEE_DISTANCE as int && !h.transparent && ((h.pos_x > d.pos_x) == d.direction)
}

/// The ranges and shapes every reachable game state keeps.
impl State {
    pub open spec fn wf(&self) -> bool {
        &&& self.level.wf()
        &&& forall|i: int|
            0 <= i < self.entities@.len() ==> actor_inv((#[trigger] self.entities@[i])@)
        &&& self.hero matches Some(h) ==> hero_inv(h@)
        &&& self.detective matches Some(d) ==> detective_inv(d@)
        &&& ft_inv(self.title_text)
        &&& ft_inv(self.hint_text)
    }

    /// A fresh session over `level`, before any actor has been added:
    /// latches clear, story and hint texts at their openings.
    pub fn new(level: Level, camera: Camera2) -> (r: State)
        requires
            level.wf(),
        ensures
            r.level == level,
            r.camera == camera,
            r.entities@.len() == 0,
            r.hero is None,
            r.detective is None,
            !r.found,
            !r.win,
            r.title_text.strings@.len() == 3,
            r.title_text.strings@[0]@ == "It was a dark and stormy night..."@,
            r.title_text.strings@[1]@ == "And you've just been murdered in cold blood."@,
            r.title_text.strings@[2]@ == "Go find help."@,
            r.title_text.duration == 10,
            r.hint_text.strings@.len() == 2,
            r.hint_text.strings@[0]@ == "Use the arrow keys to haunt around"@,
            r.hint_text.strings@[1]@ == "LShift to materialize, Space to interact"@,
            r.hint_text.duration == 15,
            r.wf(),
    {
        let title = FontTransition::new(
            vec![
                String::from_str("It was a dark and stormy night..."),
                String::from_str("And you've just been murdered in cold blood."),
                String::from_str("Go find help."),
            ],
            10,
        );
        let hint = FontTransition::new(
            vec![
                String::from_str("Use the arrow keys to haunt around"),
                String::from_str("LShift to materialize, Space to interact"),
            ],
            15,
        );
        State {
            level,
            camera,
            entities: Vec::new(),
            hero: None,
            detective: None,
            found: false,
            win: false,
            title_text: title,
            hint_text: hint,
        }
    }

    /// The hero; the session must have one by the time play starts.
    pub fn get_hero(&self) -> (r: &Hero)
        requires
            self.hero is Some,
        ensures
            *r == self.hero.unwrap(),
    {
        self.hero.as_ref().unwrap()
    }

    /// The detective; the session must have one by the time play starts.
    pub fn get_detective(&self) -> (r: &Detective)
        requires
            self.detective is Some,
        ensures
            *r == self.detective.unwrap(),
    {
        self.detective.as_ref().unwrap()
    }

    /// Add one generic actor to the world.
    pub fn add_entity(&mut self, actor: DefaultActor)
        requires
            actor_inv(actor@),
        ensures
            *final(self) == (State { entities: final(self).entities, ..*old(self) }),
            final(self).entities@ == old(self).entities@.push(actor),
    {
        self.entities.push(actor);
    }

    /// Put the hero into the world.
    pub fn set_hero(&mut self, hero: Hero)
        requires
            hero_inv(hero@),
        ensures
            *final(self) == (State { hero: Some(hero), ..*old(self) }),
    {
        self.hero = Some(hero);
    }

    /// Put the detective into the world.
    pub fn set_detective(&mut self, detective: Detective)
        requires
            detective_inv(detective@),
        ensures
            *final(self) == (State { detective: Some(detective), ..*old(self) }),
    {
        self.detective = Some(detective);
    }
}

/// The detective after his whole tick: motion and animation, the
/// interaction pass over every overlapping actor, then the flee
/// reaction if he spots the hero.
pub open spec fn spec_tick_det_mid(d: DetectiveV, ents_after: Seq<DefaultActorV>, dt: int) -> DetectiveV {
    spec_det_pass(spec_det_update(d, dt), ents_after, ents_after.len() as int)
}

pub open spec fn spec_tick_det_final(
    d: DetectiveV,
    ents_after: Seq<DefaultActorV>,
    h_after: HeroV,
    dt: int,
) -> DetectiveV {
    let d2 = spec_tick_det_mid(d, ents_after, dt);
    if spec_sees_hero(h_after, d2) {
        spec_run_away(d2)
    } else {
        d2
    }
}

/// The hero before the world-bounds clamp: his own tick, then the
/// ascension if the win event fires.
pub open spec fn spec_tick_hero_mid(h: HeroV, det_done: bool, found: bool, dt: int) -> HeroV {
    let h1 = spec_hero_update(h, dt);
    if spec_found_fires(det_done, found) {
        spec_ascend(h1)
    } else {
        h1
    }
}

/// The hero after his whole tick, clamped into the world bounds.
pub open spec fn spec_tick_hero(
    h: HeroV,
    det_done: bool,
    found: bool,
    b0: int,
    b1: int,
    dt: int,
) -> HeroV {
    let h2 = spec_tick_hero_mid(h, det_done, found, dt);
    spec_hero_place(
        h2,
        spec_clamp(h2.pos_x, b0 + HERO_MARGIN as int, b1 - HERO_MARGIN as int),
        h2.pos_y,
    )
}

/// Advance every generic actor's motion and animation by one tick.
fn update_entities(entities: &mut Vec<DefaultActor>, dt: i64)
    requires
        forall|j: int|
            0 <= j < old(entities)@.len() ==> actor_inv((#[trigger] old(entities)@[j])@),
        0 <= dt <= MAX_DT,
    ensures
        final(entities)@.len() == old(entities)@.len(),
        forall|j: int|
            0 <= j < old(entities)@.len() ==> (#[trigger] final(entities)@[j])@ == spec_update(
                old(entities)@[j]@,
                dt as int,
            ) && actor_inv(final(entities)@[j]@),
        views_of(final(entities)@) == spec_tick_entities(views_of(old(entities)@), dt as int),
{
    let n = entities.len();
    let mut i: usize = 0;
    while i < n
        invariant
            n == entities@.len(),
            n == old(entities)@.len(),
            0 <= i <= n,
            0 <= dt <= MAX_DT,
            forall|j: int|
                0 <= j < old(entities)@.len() ==> actor_inv((#[trigger] old(entities)@[j])@),
            forall|j: int|
                0 <= j < i ==> (#[trigger] entities@[j])@ == spec_update(
                    old(entities)@[j]@,
                    dt as int,
                ) && actor_inv(entities@[j]@),
            forall|j: int| i <= j < n ==> entities@[j] == old(entities)@[j],
        decreases n - i,
    {
        entities[i].on_update(dt);
        i = i + 1;
    }
    proof {
        assert(views_of(entities@) =~= spec_tick_entities(views_of(old(entities)@), dt as int));
    }
}

/// Let the detective react, in order, to every actor overlapping him.
fn detective_pass(det: &mut Detective, entities: &Vec<DefaultActor>, sounds: &mut SoundEffects)
    requires
        detective_inv(old(det)@),
        forall|j: int| 0 <= j < entities@.len() ==> actor_inv((#[trigger] entities@[j])@),
    ensures
        detective_inv(final(det)@),
        final(det)@ == spec_det_pass(old(det)@, views_of(entities@), entities@.len() as int),
        final(sounds).music_started == old(sounds).music_started,
        final(sounds).pending@.len() == old(sounds).pending@.len() + spec_det_pass_sounds(
            old(det)@,
            views_of(entities@),
            entities@.len() as int,
        ).len(),
        forall|k: int|
            0 <= k < old(sounds).pending@.len() ==> final(sounds).pending@[k] == old(
                sounds,
            ).pending@[k],
        forall|k: int|
            0 <= k < spec_det_pass_sounds(
                old(det)@,
                views_of(entities@),
                entities@.len() as int,
            ).len() ==> final(sounds).pending@[old(sounds).pending@.len() + k]@
                == spec_det_pass_sounds(
                old(det)@,
                views_of(entities@),
                entities@.len() as int,
            )[k],
{
    let ghost d1 = det@;
    let ghost ents1v = views_of(entities@);
    let ghost pre_pending = sounds.pending@;
    let n = entities.len();
    let mut i: usize = 0;
    while i < n
        invariant
            0 <= i <= n,
            n == entities@.len(),
            ents1v == views_of(entities@),
            forall|j: int| 0 <= j < n ==> actor_inv((#[trigger] entities@[j])@),
            detective_inv(d1),
            detective_inv(det@),
            det@ == spec_det_pass(d1, ents1v, i as int),
            sounds.music_started == old(sounds).music_started,
            pre_pending == old(sounds).pending@,
            sounds.pending@.len() == pre_pending.len() + spec_det_pass_sounds(
                d1,
                ents1v,
                i as int,
            ).len(),
            forall|k: int| 0 <= k < pre_pending.len() ==> sounds.pending@[k] == pre_pending[k],
            forall|k: int|
                0 <= k < spec_det_pass_sounds(d1, ents1v, i as int).len()
                    ==> sounds.pending@[pre_pending.len() + k]@ == spec_det_pass_sounds(
                    d1,
                    ents1v,
                    i as int,
                )[k],
        decreases n - i,
    {
        let e = &entities[i];
        if overlap(&e.bb, e.width, &det.bb, det.width) {
            det.interact_entity(e, sounds);
        }
        i = i + 1;
    }
}

impl State {
    /// One whole simulation tick of `dt` milliseconds: every actor's
    /// motion and animation advance; the detective reacts to each actor
    /// overlapping him; the win event fires at most once, queuing the
    /// hero's ascension and rewriting the story text; the win latch
    /// follows the hero's terminal state; the detective flees an
    /// opaque, nearby, faced hero; and the hero and camera are clamped
    /// into the world bounds, the camera over a window `window_width`
    /// wide.
    #[verifier::rlimit(100)]
    #[verifier::spinoff_prover]
    pub fn on_update(&mut self, dt: i64, window_width: i64, sounds: &mut SoundEffects)
        requires
            old(self).wf(),
            old(self).hero is Some,
            old(self).detective is Some,
            0 <= dt <= MAX_DT,
            0 <= window_width <= POS_LIMIT,
        ensures
            final(self).wf(),
            final(self).hero is Some,
            final(self).detective is Some,
            views_of(final(self).entities@) == spec_tick_entities(
                views_of(old(self).entities@),
                dt as int,
            ),
            final(self).detective.unwrap()@ == spec_tick_det_final(
                old(self).detective.unwrap()@,
                spec_tick_entities(views_of(old(self).entities@), dt as int),
                spec_tick_hero_mid(
                    old(self).hero.unwrap()@,
                    spec_tick_det_mid(
                        old(self).detective.unwrap()@,
                        spec_tick_entities(views_of(old(self).entities@), dt as int),
                        dt as int,
                    ).done,
                    old(self).found,
                    dt as int,
                ),
                dt as int,
            ),
            final(self).hero.unwrap()@ == spec_tick_hero(
                old(self).hero.unwrap()@,
                spec_tick_det_mid(
                    old(self).detective.unwrap()@,
                    spec_tick_entities(views_of(old(self).entities@), dt as int),
                    dt as int,
                ).done,
                old(self).found,
                old(self).level.world_bounds.0.x as int,
                old(self).level.world_bounds.1.x as int,
                dt as int,
            ),
            final(self).found == (old(self).found || spec_tick_det_mid(
                old(self).detective.unwrap()@,
                spec_tick_entities(views_of(old(self).entities@), dt as int),
                dt as int,
            ).done),
            final(self).win == (old(self).win || spec_hero_update(
                old(self).hero.unwrap()@,
                dt as int,
            ).state == HeroState::Done),
            spec_found_fires(
                spec_tick_det_mid(
                    old(self).detective.unwrap()@,
                    spec_tick_entities(views_of(old(self).entities@), dt as int),
                    dt as int,
                ).done,
                old(self).found,
            ) ==> final(self).title_text.strings@.len() == 3
                && final(self).title_text.strings@[0]@ == "The detective found your body!"@
                && final(self).title_text.strings@[1]@
                == "You may finally move on to the afterlife"@
                && final(self).title_text.strings@[2]@ == "You win! ... ?"@
                && final(self).title_text.duration == 4,
            !spec_found_fires(
                spec_tick_det_mid(
                    old(self).detective.unwrap()@,
                    spec_tick_entities(views_of(old(self).entities@), dt as int),
                    dt as int,
                ).done,
                old(self).found,
            ) ==> final(self).title_text == old(self).title_text,
            final(self).camera.position.x == spec_clamp(
                final(self).hero.unwrap()@.pos_x,
                old(self).level.world_bounds.0.x as int + window_width as int / 2,
                old(self).level.world_bounds.1.x as int - window_width as int / 2,
            ),
            final(self).camera.position.y == old(self).camera.position.y,
            final(self).camera.zoom == old(self).camera.zoom,
            final(self).camera.velocity == old(self).camera.velocity,
            final(self).level == old(self).level,
            final(self).hint_text == old(self).hint_text,
            final(sounds).music_started == old(sounds).music_started,
            final(sounds).pending@.len() == old(sounds).pending@.len() + spec_det_pass_sounds(
                spec_det_update(old(self).detective.unwrap()@, dt as int),
                spec_tick_entities(views_of(old(self).entities@), dt as int),
                old(self).entities@.len() as int,
            ).len(),
            forall|k: int|
                0 <= k < old(sounds).pending@.len() ==> final(sounds).pending@[k] == old(
                    sounds,
                ).pending@[k],
            forall|k: int|
                0 <= k < spec_det_pass_sounds(
                    spec_det_update(old(self).detective.unwrap()@, dt as int),
                    spec_tick_entities(views_of(old(self).entities@), dt as int),
                    old(self).entities@.len() as int,
                ).len() ==> final(sounds).pending@[old(sounds).pending@.len() + k]@
                    == spec_det_pass_sounds(
                    spec_det_update(old(self).detective.unwrap()@, dt as int),
                    spec_tick_entities(views_of(old(self).entities@), dt as int),
                    old(self).entities@.len() as int,
                )[k],
    {
        // Advance every generic actor's motion and animation.
        update_entities(&mut self.entities, dt);

        // Advance the hero and the detective themselves.
        let mut hero = self.hero.take().unwrap();
        let mut det = self.detective.take().unwrap();
        hero.on_update(dt);
        det.on_update(dt);

        // The detective reacts to every actor overlapping him.
        detective_pass(&mut det, &self.entities, sounds);

        // The win event: fire the ascension and rewrite the story text
        // exactly once, when the detective first reports done.
        if det.done() && !self.found {
            hero.ascend();
            self.found = true;
            self.title_text = FontTransition::new(
                vec![
                    String::from_str("The detective found your body!"),
                    String::from_str("You may finally move on to the afterlife"),
                    String::from_str("You win! ... ?"),
                ],
                4,
            );
        }

        if hero.won() && !self.win {
            self.win = true;
        }

        // The flee rule: an opaque hero close by and faced sends the
        // detective the other way.
        let dxa = hero.position.x - det.position.x;
        let dx = if dxa < 0 {
            -dxa
        } else {
            dxa
        };
        if dx < FLEE_DISTANCE && !hero.is_transparent() {
            if (hero.position.x > det.position.x) == det.direction() {
                det.run_away();
            }
        }

        // Keep the hero inside the world bounds, with a margin.
        let hx = clamp(
            hero.position.x,
            self.level.world_bounds.0.x + HERO_MARGIN,
            self.level.world_bounds.1.x - HERO_MARGIN,
        );
        let hy = hero.position.y;
        hero.set_position(WorldPoint2::new(hx, hy));

        // Follow the hero with the camera, clamped so the window never
        // shows past the world bounds.
        let cx = clamp(
            hx,
            self.level.world_bounds.0.x + window_width / 2,
            self.level.world_bounds.1.x - window_width / 2,
        );
        self.camera.position.x = cx;

        self.hero = Some(hero);
        self.detective = Some(det);
    }
}

/// Whether actor `e` and the hero `h` overlap, on their render boxes
/// and interaction widths.
pub open spec fn spec_ent_hero_overlap(e: DefaultActorV, h: HeroV) -> bool {
    spec_overlap_ints(e.bb_x, e.bb_w, e.width, h.bb_x, h.bb_w, h.width)
}

/// Whether the detective and the hero overlap.
pub open spec fn spec_det_hero_overlap(d: DetectiveV, h: HeroV) -> bool {
    spec_overlap_ints(d.bb_x, d.bb_w, d.width, h.bb_x, h.bb_w, h.width)
}

/// What one actor becomes when the opaque hero interacts with the
/// world: poked if it overlaps him, untouched otherwise.
pub open spec fn spec_hero_poke(e: DefaultActorV, h: HeroV) -> DefaultActorV {
    if !h.transparent && spec_ent_hero_overlap(e, h) {
        spec_interact(e)
    } else {
        e
    }
}

/// The sounds the hero's interaction pass over the first `n` actors
/// queues, in order.
pub open spec fn spec_hero_pass_sounds(ents: Seq<DefaultActorV>, h: HeroV, n: int) -> Seq<
    Seq<char>,
>
    decreases n,
{
    if n <= 0 {
        Seq::empty()
    } else {
        let sounds = spec_hero_pass_sounds(ents, h, n - 1);
        let e = ents[n - 1];
        if !h.transparent && spec_ent_hero_overlap(e, h) && spec_interact_fires(e) {
            sounds.push(e.sound)
        } else {
            sounds
        }
    }
}

impl State {
    /// The player's explicit "interact": every actor overlapping the
    /// opaque hero is poked — props start their clips and queue their
    /// sounds, the detective resumes walking. A transparent hero
    /// touches nothing.
    #[verifier::rlimit(100)]
    pub fn hero_interact(&mut self, sounds: &mut SoundEffects)
        requires
            old(self).wf(),
            old(self).hero is Some,
            old(self).detective is Some,
        ensures
            final(self).wf(),
            final(self).hero is Some,
            final(self).detective is Some,
            final(self).hero == old(self).hero,
            final(self).entities@.len() == old(self).entities@.len(),
            forall|j: int|
                0 <= j < old(self).entities@.len() ==> (#[trigger] final(self).entities@[j])@
                    == spec_hero_poke(old(self).entities@[j]@, old(self).hero.unwrap()@),
            final(self).detective.unwrap()@ == (if !old(self).hero.unwrap()@.transparent
                && spec_det_hero_overlap(
                old(self).detective.unwrap()@,
                old(self).hero.unwrap()@,
            ) {
                DetectiveV {
                    next_state: DetectiveState::Walk,
                    ..old(self).detective.unwrap()@
                }
            } else {
                old(self).detective.unwrap()@
            }),
            final(self).found == old(self).found,
            final(self).win == old(self).win,
            final(self).camera == old(self).camera,
            final(self).level == old(self).level,
            final(self).title_text == old(self).title_text,
            final(self).hint_text == old(self).hint_text,
            final(sounds).music_started == old(sounds).music_started,
            final(sounds).pending@.len() == old(sounds).pending@.len() + spec_hero_pass_sounds(
                views_of(old(self).entities@),
                old(self).hero.unwrap()@,
                old(self).entities@.len() as int,
            ).len(),
            forall|k: int|
                0 <= k < old(sounds).pending@.len() ==> final(sounds).pending@[k] == old(
                    sounds,
                ).pending@[k],
            forall|k: int|
                0 <= k < spec_hero_pass_sounds(
                    views_of(old(self).entities@),
                    old(self).hero.unwrap()@,
                    old(self).entities@.len() as int,
                ).len() ==> final(sounds).pending@[old(sounds).pending@.len() + k]@
                    == spec_hero_pass_sounds(
                    views_of(old(self).entities@),
                    old(self).hero.unwrap()@,
                    old(self).entities@.len() as int,
                )[k],
    {
        let n = self.entities.len();
        let hero = self.hero.take().unwrap();
        let ghost hv = hero@;
        let ghost ents0 = self.entities@;
        let ghost ents0v = views_of(self.entities@);
        let ghost pre_pending = sounds.pending@;

        let mut i: usize = 0;
        while i < n
            invariant
                old(self).wf(),
                0 <= i <= n,
                n == self.entities@.len(),
                n == ents0.len(),
                hero_inv(hv),
                hero@ == hv,
                ents0v == views_of(ents0),
                self.hero is None,
                self.detective == old(self).detective,
                self.found == old(self).found,
                self.win == old(self).win,
                self.camera == old(self).camera,
                self.level == old(self).level,
                self.title_text == old(self).title_text,
                self.hint_text == old(self).hint_text,
                forall|j: int| 0 <= j < n ==> actor_inv((#[trigger] ents0[j])@),
                forall|j: int|
                    0 <= j < i ==> (#[trigger] self.entities@[j])@ == spec_hero_poke(
                        ents0[j]@,
                        hv,
                    ) && actor_inv(self.entities@[j]@),
                forall|j: int| i <= j < n ==> self.entities@[j] == ents0[j],
                sounds.music_started == old(sounds).music_started,
                pre_pending == old(sounds).pending@,
                sounds.pending@.len() == pre_pending.len() + spec_hero_pass_sounds(
                    ents0v,
                    hv,
                    i as int,
                ).len(),
                forall|k: int|
                    0 <= k < pre_pending.len() ==> sounds.pending@[k] == pre_pending[k],
                forall|k: int|
                    0 <= k < spec_hero_pass_sounds(ents0v, hv, i as int).len()
                        ==> sounds.pending@[pre_pending.len() + k]@ == spec_hero_pass_sounds(
                        ents0v,
                        hv,
                        i as int,
                    )[k],
            decreases n - i,
        {
            let touch = !hero.is_transparent() && overlap(
                &self.entities[i].bb,
                self.entities[i].width,
                &hero.bb,
                hero.width,
            );
            if touch {
                self.entities[i].interact_hero(sounds);
            }
            i = i + 1;
        }

        let mut det = self.detective.take().unwrap();
        let det_touch = !hero.is_transparent() && overlap(
            &det.bb,
            det.width,
            &hero.bb,
            hero.width,
        );
        if det_touch {
            det.interact_hero(sounds);
        }
        self.detective = Some(det);
        self.hero = Some(hero);
    }
}

/// What building one generic actor from `cfg` reports: the missing
/// clip, the empty clip, or nothing.
pub open spec fn spec_actor_build_err(
    cfg: crate::level::Actor,
    entries: Seq<(String, crate::assets::ImageAsset)>,
) -> Option<crate::error::Error> {
    if !crate::assets::spec_map_has(entries, cfg.image@) {
        Some(crate::error::Error::MissingAsset)
    } else if crate::assets::spec_map_get(entries, cfg.image@).frames@.len() == 0 {
        Some(crate::error::Error::EmptyClip)
    } else {
        None
    }
}

/// The first error among the first `n` configured actors, in order.
pub open spec fn spec_actors_first_err(
    actors: Seq<crate::level::Actor>,
    entries: Seq<(String, crate::assets::ImageAsset)>,
    n: int,
) -> Option<crate::error::Error>
    decreases n,
{
    if n <= 0 {
        None
    } else if spec_actors_first_err(actors, entries, n - 1) is Some {
        spec_actors_first_err(actors, entries, n - 1)
    } else {
        spec_actor_build_err(actors[n - 1], entries)
    }
}

/// An error at position `i`, with none before it, is the whole list's
/// first error.
proof fn lemma_first_err_found(
    actors: Seq<crate::level::Actor>,
    entries: Seq<(String, crate::assets::ImageAsset)>,
    i: int,
    m: int,
)
    requires
        0 <= i < m,
        spec_actors_first_err(actors, entries, i) is None,
        spec_actor_build_err(actors[i], entries) is Some,
    ensures
        spec_actors_first_err(actors, entries, m) == spec_actor_build_err(actors[i], entries),
    decreases m,
{
    if m > i + 1 {
        lemma_first_err_found(actors, entries, i, m - 1);
    }
}

/// What building the detective reports: a missing clip before an empty
/// one, as the lookups run first.
pub open spec fn spec_det_build_err(
    cfg: crate::level::Detective,
    entries: Seq<(String, crate::assets::ImageAsset)>,
) -> Option<crate::error::Error> {
    if !crate::assets::spec_map_has(entries, cfg.idle@) || !crate::assets::spec_map_has(
        entries,
        cfg.walk@,
    ) || !crate::assets::spec_map_has(entries, cfg.clue@) {
        Some(crate::error::Error::MissingAsset)
    } else if crate::assets::spec_map_get(entries, cfg.idle@).frames@.len() == 0
        || crate::assets::spec_map_get(entries, cfg.walk@).frames@.len() == 0
        || crate::assets::spec_map_get(entries, cfg.clue@).frames@.len() == 0 {
        Some(crate::error::Error::EmptyClip)
    } else {
        None
    }
}

/// What building the hero reports.
pub open spec fn spec_hero_build_err(
    cfg: crate::level::Hero,
    entries: Seq<(String, crate::assets::ImageAsset)>,
) -> Option<crate::error::Error> {
    if !crate::assets::spec_map_has(entries, cfg.idle@) || !crate::assets::spec_map_has(
        entries,
        cfg.ascend@,
    ) {
        Some(crate::error::Error::MissingAsset)
    } else if crate::assets::spec_map_get(entries, cfg.idle@).frames@.len() == 0
        || crate::assets::spec_map_get(entries, cfg.ascend@).frames@.len() == 0 {
        Some(crate::error::Error::EmptyClip)
    } else {
        None
    }
}

/// Build a whole session from a level and its clip table: every
/// generic actor in order with sprite handles 1 up to the actor count,
/// then the detective and the hero on the two handles after them. The
/// first missing or empty clip aborts the build with its error:
/// configuration errors are fatal at load time, never patched over.
pub fn build_state(level: Level, camera: Camera2, assets: &crate::assets::AssetMap) -> (r: Result<
    State,
    crate::error::Error,
>)
    requires
        level.wf(),
        assets.wf(),
        level.actors@.len() <= 0x1000_0000,
    ensures
        ({
            let first = if spec_actors_first_err(
                level.actors@,
                assets.entries@,
                level.actors@.len() as int,
            ) is Some {
                spec_actors_first_err(level.actors@, assets.entries@, level.actors@.len() as int)
            } else if spec_det_build_err(level.detective, assets.entries@) is Some {
                spec_det_build_err(level.detective, assets.entries@)
            } else {
                spec_hero_build_err(level.hero, assets.entries@)
            };
            match r {
                Ok(s) => first is None && s.wf() && s.level == level && s.camera == camera
                    && !s.found && !s.win && s.hero is Some && s.detective is Some
                    && s.entities@.len() == level.actors@.len() && (forall|j: int|
                    0 <= j < level.actors@.len() ==> (#[trigger] s.entities@[j])@
                        == crate::default_actor::spec_actor_from_cfg(
                        level.actors@[j],
                        crate::assets::spec_map_get(
                            assets.entries@,
                            level.actors@[j].image@,
                        ).frames@,
                        j + 1,
                    )) && s.detective.unwrap()@ == crate::detective::spec_detective_from_cfg(
                    level.detective,
                    crate::assets::spec_map_get(assets.entries@, level.detective.idle@).frames@,
                    crate::assets::spec_map_get(assets.entries@, level.detective.walk@).frames@,
                    crate::assets::spec_map_get(assets.entries@, level.detective.clue@).frames@,
                    level.actors@.len() as int + 1,
                ) && s.hero.unwrap()@ == crate::hero::spec_hero_from_cfg(
                    level.hero,
                    crate::assets::spec_map_get(assets.entries@, level.hero.idle@).frames@,
                    crate::assets::spec_map_get(assets.entries@, level.hero.ascend@).frames@,
                    level.actors@.len() as int + 2,
                ),
                Err(e) => first == Some(e),
            }
        }),
{
    let n = level.actors.len();
    let mut entities: Vec<DefaultActor> = Vec::new();
    let mut i: usize = 0;
    while i < n
        invariant
            level.wf(),
            assets.wf(),
            n == level.actors@.len(),
            n <= 0x1000_0000,
            0 <= i <= n,
            entities@.len() == i,
            spec_actors_first_err(level.actors@, assets.entries@, i as int) is None,
            forall|j: int|
                0 <= j < i ==> (#[trigger] entities@[j])@
                    == crate::default_actor::spec_actor_from_cfg(
                    level.actors@[j],
                    crate::assets::spec_map_get(assets.entries@, level.actors@[j].image@).frames@,
                    j + 1,
                ) && actor_inv(entities@[j]@),
        decreases n - i,
    {
        let sprite_id = (i as u64) + 1;
        match DefaultActor::new(&level.actors[i], assets, sprite_id) {
            Ok(a) => {
                entities.push(a);
            },
            Err(e) => {
                proof {
                    lemma_first_err_found(level.actors@, assets.entries@, i as int, n as int);
                }
                return Err(e);
            },
        }
        i = i + 1;
    }
    let det = match Detective::new(&level.detective, assets, (n as u64) + 1) {
        Ok(d) => d,
        Err(e) => {
            return Err(e);
        },
    };
    let hero = match Hero::new(&level.hero, assets, (n as u64) + 2) {
        Ok(h) => h,
        Err(e) => {
            return Err(e);
        },
    };
    let mut state = State::new(level, camera);
    state.entities = entities;
    state.detective = Some(det);
    state.hero = Some(hero);
    Ok(state)
}

/// The win latch never fires twice: once `found` is set, the firing
/// condition is false whatever the detective reports, and queuing the
/// hero's ascension again would change nothing anyway.
pub proof fn lemma_win_latch(det_done: bool, h: HeroV)
    ensures
        !spec_found_fires(det_done, true),
        spec_ascend(spec_ascend(h)) == spec_ascend(h),
{
    crate::hero::lemma_ascend_idempotent(h);
}

} // verus!
