//! Level configuration: the one-time description a level is built from.
//!
//! A level names the world bounds, the hero, the detective and the
//! generic actors. It is consumed once at startup and never re-read;
//! the well-formedness predicate bounds every numeric field so that the
//! actors built from it stay within the fixed-point ranges.

use vstd::prelude::*;

use crate::arith::MAX_SPEED;

verus! {

/// Largest magnitude a configured coordinate may take.
pub const CFG_COORD_LIMIT: i64 = 0x100_0000_0000;

/// Largest configured sprite width, in thousandths of a world unit.
pub const CFG_WIDTH_LIMIT: i64 = 0x4000_0000;

/// Largest configured scale, in thousandths.
pub const SCALE_LIMIT: i64 = 0x10_0000;

/// The scale denominator: a scale of 1000 draws at natural size.
pub const SCALE_ONE: i64 = 1000;

/// A configured point, in thousandths of a world unit.
#[derive(Clone, Copy, Debug, PartialEq, Eq, Structural)]
pub struct Point {
    pub x: i64,
    pub y: i64,
}

pub open spec fn point_wf(p: Point) -> bool {
    &&& -CFG_COORD_LIMIT <= p.x <= CFG_COORD_LIMIT
    &&& -CFG_COORD_LIMIT <= p.y <= CFG_COORD_LIMIT
}

/// What kind of generic actor a configuration entry describes.
#[derive(Clone, Copy, Debug, PartialEq, Eq, Structural)]
pub enum ActorType {
    /// Scenery: never reacts to anything.
    Static,
    /// Turns the detective around on first contact while active.
    Obstacle,
    /// Stops the detective to inspect; the payload says whether this
    /// clue is the macguffin that ends the investigation.
    Clue(bool),
}

/// A generic actor's configuration entry.
#[derive(Debug)]
pub struct Actor {
    pub name: String,
    pub image: String,
    pub sound: String,
    pub position: Point,
    pub scale: i64,
    pub width: i64,
    pub visible: bool,
    pub active: bool,
    pub reversible: bool,
    pub actor_type: ActorType,
}

pub open spec fn actor_cfg_wf(a: Actor) -> bool {
    &&& point_wf(a.position)
    &&& 0 <= a.scale <= SCALE_LIMIT
    &&& 0 <= a.width <= CFG_WIDTH_LIMIT
}

/// The detective's configuration entry.
#[derive(Debug)]
pub struct Detective {
    pub name: String,
    pub idle: String,
    pub walk: String,
    pub clue: String,
    pub clue_sound: String,
    pub position: Point,
    pub scale: i64,
    pub speed: i64,
    pub width: i64,
}

pub open spec fn detective_cfg_wf(d: Detective) -> bool {
    &&& point_wf(d.position)
    &&& 0 <= d.scale <= SCALE_LIMIT
    &&& 0 <= d.width <= CFG_WIDTH_LIMIT
    &&& 0 <= d.speed <= MAX_SPEED
}

/// The hero's configuration entry.
#[derive(Debug)]
pub struct Hero {
    pub name: String,
    pub idle: String,
    pub ascend: String,
    pub position: Point,
    pub scale: i64,
    pub speed: i64,
    pub width: i64,
}

pub open spec fn hero_cfg_wf(h: Hero) -> bool {
    &&& point_wf(h.position)
    &&& 0 <= h.scale <= SCALE_LIMIT
    &&& 0 <= h.width <= CFG_WIDTH_LIMIT
    &&& 0 <= h.speed <= MAX_SPEED
}

/// A scripted trigger: what to run when an actor is touched.
#[derive(Debug)]
pub struct Trigger {
    pub name: String,
    pub on_hero_interact: String,
    pub on_detective_interact: String,
}

/// A whole level: world bounds as two corner points, the hero, the
/// detective and the generic actors.
#[derive(Debug)]
pub struct Level {
    pub world_bounds: (Point, Point),
    pub hero: Hero,
    pub detective: Detective,
    pub actors: Vec<Actor>,
}

impl Level {
    pub open spec fn wf(&self) -> bool {
        &&& point_wf(self.world_bounds.0)
        &&& point_wf(self.world_bounds.1)
        &&& hero_cfg_wf(self.hero)
        &&& detective_cfg_wf(self.detective)
        &&& forall|i: int|
            0 <= i < self.actors@.len() ==> actor_cfg_wf(#[trigger] self.actors@[i])
    }

    /// Decide well-formedness at load time, before any actor is built.
    pub fn check(&self) -> (r: bool)
        ensures
            r == self.wf(),
    {
        if !point_check(&self.world_bounds.0) || !point_check(&self.world_bounds.1) {
            return false;
        }
        if !(0 <= self.hero.scale && self.hero.scale <= SCALE_LIMIT && 0 <= self.hero.width
            && self.hero.width <= CFG_WIDTH_LIMIT && 0 <= self.hero.speed && self.hero.speed
            <= MAX_SPEED && point_check(&self.hero.position)) {
            return false;
        }
        if !(0 <= self.detective.scale && self.detective.scale <= SCALE_LIMIT && 0
            <= self.detective.width && self.detective.width <= CFG_WIDTH_LIMIT && 0
            <= self.detective.speed && self.detective.speed <= MAX_SPEED && point_check(
            &self.detective.position,
        )) {
            return false;
        }
        let n = self.actors.len();
        let mut i: usize = 0;
        while i < n
            invariant
                n == self.actors@.len(),
                0 <= i <= n,
                forall|j: int| 0 <= j < i ==> actor_cfg_wf(#[trigger] self.actors@[j]),
            decreases n - i,
        {
            let a = &self.actors[i];
            if !(0 <= a.scale && a.scale <= SCALE_LIMIT && 0 <= a.width && a.width
                <= CFG_WIDTH_LIMIT && point_check(&a.position)) {
                return false;
            }
            i = i + 1;
        }
        true
    }
}

/// Decide `point_wf` for one configured point.
pub fn point_check(p: &Point) -> (r: bool)
    ensures
        r == point_wf(*p),
{
    -CFG_COORD_LIMIT <= p.x && p.x <= CFG_COORD_LIMIT && -CFG_COORD_LIMIT <= p.y && p.y
        <= CFG_COORD_LIMIT
}

/// The interaction width an actor is given: its configured width drawn
/// at its configured scale.
pub fn scaled_width(width: i64, scale: i64) -> (r: i64)
    requires
        0 <= width <= CFG_WIDTH_LIMIT,
        0 <= scale <= SCALE_LIMIT,
    ensures
        r == width as int * scale as int / SCALE_ONE as int,
        0 <= r <= crate::entity::RECT_LIMIT,
{
    proof {
        assert(0 <= (width as int) * (scale as int) <= 0x4_0000_0000_0000) by (nonlinear_arith)
            requires
                0 <= width <= 0x4000_0000,
                0 <= scale <= 0x10_0000,
        ;
        assert((width as int) * (scale as int) / 1000 <= 0x4_0000_0000_0000) by (nonlinear_arith)
            requires
                0 <= (width as int) * (scale as int) <= 0x4_0000_0000_0000,
        ;
    }
    width * scale / SCALE_ONE
}

} // verus!
