//! Animation clips: ordered sequences of (image, duration) frames, and
//! the by-name table the actors are configured from.
//!
//! Images are opaque handles into the renderer's texture store; the
//! library never reads pixels. Clips are append-only while a level loads
//! and immutable afterwards.

use vstd::prelude::*;

use crate::arith::TIME_LIMIT;
use crate::error::Error;

verus! {

/// One animation frame: an image handle and how long it stays shown,
/// in milliseconds. A duration of zero marks a static frame.
#[derive(Clone, Copy, Debug, PartialEq, Eq, Structural)]
pub struct Frame {
    pub image: u64,
    pub frame_time: i64,
}

/// An ordered, append-only animation clip.
#[derive(Debug)]
pub struct ImageAsset {
    pub frames: Vec<Frame>,
}

impl ImageAsset {
    /// Every stored duration is admissible for the countdown arithmetic.
    pub open spec fn wf(&self) -> bool {
        forall|i: int|
            0 <= i < self.frames@.len() ==> 0 <= #[trigger] self.frames@[i].frame_time
                <= TIME_LIMIT
    }

    /// A new clip with no frames yet.
    pub fn new() -> (r: ImageAsset)
        ensures
            r.frames@ == Seq::<Frame>::empty(),
            r.wf(),
    {
        ImageAsset { frames: Vec::new() }
    }

    /// Append one frame to the clip.
    pub fn add_frame(&mut self, image: u64, frame_time: i64)
        requires
            old(self).wf(),
            0 <= frame_time <= TIME_LIMIT,
        ensures
            final(self).frames@ == old(self).frames@.push(Frame { image, frame_time }),
            final(self).wf(),
    {
        self.frames.push(Frame { image, frame_time });
    }

    /// How many frames the clip holds.
    pub fn frame_count(&self) -> (n: usize)
        ensures
            n == self.frames@.len(),
    {
        self.frames.len()
    }

    /// The `i`th frame, or `OutOfRange` past the end of the clip.
    pub fn frame(&self, i: usize) -> (r: Result<Frame, Error>)
        ensures
            i < self.frames@.len() ==> r == Ok::<Frame, Error>(self.frames@[i as int]),
            i >= self.frames@.len() ==> r == Err::<Frame, Error>(Error::OutOfRange),
    {
        if i < self.frames.len() {
            Ok(self.frames[i])
        } else {
            Err(Error::OutOfRange)
        }
    }

    /// An independent copy of the clip, frame for frame.
    pub fn duplicate(&self) -> (r: ImageAsset)
        ensures
            r.frames@ == self.frames@,
    {
        let mut frames: Vec<Frame> = Vec::new();
        let mut i: usize = 0;
        while i < self.frames.len()
            invariant
                0 <= i <= self.frames@.len(),
                frames@.len() == i,
                forall|j: int| 0 <= j < i ==> frames@[j] == self.frames@[j],
            decreases self.frames@.len() - i,
        {
            frames.push(self.frames[i]);
            i = i + 1;
        }
        proof {
            assert(frames@ =~= self.frames@);
        }
        ImageAsset { frames }
    }
}

/// Whether a name/clip table associates `name` with a clip.
pub open spec fn spec_map_has(entries: Seq<(String, ImageAsset)>, name: Seq<char>) -> bool {
    exists|i: int| 0 <= i < entries.len() && #[trigger] entries[i].0@ == name
}

/// The clip a name/clip table associates with `name`; meaningful only
/// when the names are unique and `name` is present.
pub open spec fn spec_map_get(entries: Seq<(String, ImageAsset)>, name: Seq<char>) -> ImageAsset {
    entries[choose|i: int| 0 <= i < entries.len() && #[trigger] entries[i].0@ == name].1
}

/// The by-name table of every clip a level's assets provide. Names are
/// unique, so lookup is a function of the table's contents.
pub struct AssetMap {
    pub entries: Vec<(String, ImageAsset)>,
}

impl AssetMap {
    pub open spec fn wf(&self) -> bool {
        &&& forall|i: int| 0 <= i < self.entries@.len() ==> (#[trigger] self.entries@[i].1).wf()
        &&& forall|i: int, j: int|
            0 <= i < j < self.entries@.len() ==> (#[trigger] self.entries@[i].0@) != (
            #[trigger] self.entries@[j].0@)
    }

    /// An empty table.
    pub fn new() -> (r: AssetMap)
        ensures
            r.entries@ == Seq::<(String, ImageAsset)>::empty(),
            r.wf(),
    {
        AssetMap { entries: Vec::new() }
    }

    /// Add a clip under a name the table does not hold yet.
    pub fn insert(&mut self, name: String, asset: ImageAsset)
        requires
            old(self).wf(),
            asset.wf(),
            !spec_map_has(old(self).entries@, name@),
        ensures
            final(self).entries@ == old(self).entries@.push((name, asset)),
            final(self).wf(),
    {
        self.entries.push((name, asset));
    }

    /// Whether the table holds a clip under `name`.
    pub fn contains(&self, name: &str) -> (r: bool)
        requires
            self.wf(),
        ensures
            r == spec_map_has(self.entries@, name@),
    {
        self.get(name).is_some()
    }

    /// Find the clip stored under `name`, if any.
    pub fn get(&self, name: &str) -> (r: Option<&ImageAsset>)
        requires
            self.wf(),
        ensures
            match r {
                Some(a) => spec_map_has(self.entries@, name@) && *a == spec_map_get(
                    self.entries@,
                    name@,
                ),
                None => !spec_map_has(self.entries@, name@),
            },
    {
        let n = self.entries.len();
        let mut i: usize = 0;
        while i < n
            invariant
                self.wf(),
                n == self.entries@.len(),
                0 <= i <= n,
                forall|j: int| 0 <= j < i ==> #[trigger] self.entries@[j].0@ != name@,
            decreases n - i,
        {
            if str_eq(self.entries[i].0.as_str(), name) {
                proof {
                    assert(spec_map_has(self.entries@, name@));
                    let j = choose|j: int|
                        0 <= j < self.entries@.len() && #[trigger] self.entries@[j].0@ == name@;
                    if j < i {
                        assert(self.entries@[j].0@ != self.entries@[i as int].0@);
                    }
                    if i < j {
                        assert(self.entries@[i as int].0@ != self.entries@[j].0@);
                    }
                    assert(j == i);
                }
                return Some(&self.entries[i].1);
            }
            i = i + 1;
        }
        None
    }
}

/// Whether two string slices hold the same characters.
pub fn str_eq(a: &str, b: &str) -> (r: bool)
    ensures
        r == (a@ == b@),
{
    let sa: String = a.to_owned();
    let sb: String = b.to_owned();
    sa == sb
}

} // verus!
