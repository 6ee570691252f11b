//! The one-way audio boundary: the simulation queues effect names, and
//! the audio layer drains the queue and plays them in order, never
//! reporting back. The effect table maps a queued name to the file the
//! audio layer should load, at what volume, and for how long at most.

use vstd::prelude::*;

use crate::assets::str_eq;

verus! {

/// The fire-and-forget audio command queue.
#[derive(Debug)]
pub struct SoundEffects {
    /// Effect names queued since the queue was last drained, oldest first.
    pub pending: Vec<String>,
    /// Whether background music has been requested.
    pub music_started: bool,
}

impl SoundEffects {
    /// An empty queue with no music running.
    pub fn new() -> (r: SoundEffects)
        ensures
            r.pending@ == Seq::<String>::empty(),
            !r.music_started,
    {
        SoundEffects { pending: Vec::new(), music_started: false }
    }

    /// Request the looping background music; asking again changes nothing.
    pub fn start_music(&mut self)
        ensures
            final(self).music_started,
            final(self).pending@ == old(self).pending@,
    {
        self.music_started = true;
    }

    /// Queue effect `file` for playback after everything queued before it.
    pub fn play(&mut self, file: &str)
        ensures
            final(self).pending@.len() == old(self).pending@.len() + 1,
            final(self).pending@[old(self).pending@.len() as int]@ == file@,
            forall|i: int|
                0 <= i < old(self).pending@.len() ==> final(self).pending@[i] == old(
                    self,
                ).pending@[i],
            final(self).music_started == old(self).music_started,
    {
        self.pending.push(file.to_owned());
    }

    /// How many effects are waiting.
    pub fn pending_count(&self) -> (n: usize)
        ensures
            n == self.pending@.len(),
    {
        self.pending.len()
    }

    /// Read one queued effect name.
    pub fn pending_at(&self, i: usize) -> (r: &String)
        requires
            i < self.pending@.len(),
        ensures
            *r == self.pending@[i as int],
    {
        &self.pending[i]
    }

    /// Forget every queued effect, oldest to newest alike.
    pub fn clear_pending(&mut self)
        ensures
            final(self).pending@ == Seq::<String>::empty(),
            final(self).music_started == old(self).music_started,
    {
        self.pending.clear();
    }
}

/// How the audio layer should play one named effect.
#[derive(Debug)]
pub struct EffectParams {
    /// The file to load, relative to the effect directory.
    pub filename: String,
    /// Playback volume in hundredths: 100 is full volume.
    pub volume: u64,
    /// Longest playback in milliseconds; 0 means play to the end.
    pub max_length: u64,
}

/// The playback parameters of the named effect, or `None` for a name
/// the effect table does not know.
pub fn effect_params(file: &str) -> (r: Option<EffectParams>)
    ensures
        file@ == "cans"@ ==> r.is_some() && r.unwrap().filename@ == "cans.wav"@ && r.unwrap().volume
            == 100 && r.unwrap().max_length == 1500,
        file@ == "car_horn"@ ==> r.is_some() && r.unwrap().filename@ == "car_horn.wav"@
            && r.unwrap().volume == 10 && r.unwrap().max_length == 0,
        file@ == "crow_squawk"@ ==> r.is_some() && r.unwrap().filename@ == "crow_squawk.wav"@
            && r.unwrap().volume == 100 && r.unwrap().max_length == 0,
        file@ == "crunchy_leaf"@ ==> r.is_some() && r.unwrap().filename@ == "crunchy_leaf.wav"@
            && r.unwrap().volume == 100 && r.unwrap().max_length == 0,
        file@ == "foliage_rustle"@ ==> r.is_some() && r.unwrap().filename@ == "foliage_rustle.wav"@
            && r.unwrap().volume == 100 && r.unwrap().max_length == 2000,
        file@ == "rocks"@ ==> r.is_some() && r.unwrap().filename@ == "rocks.wav"@
            && r.unwrap().volume == 100 && r.unwrap().max_length == 0,
        file@ == "spooked_birds"@ ==> r.is_some() && r.unwrap().filename@ == "spooked_birds.wav"@
            && r.unwrap().volume == 100 && r.unwrap().max_length == 0,
        file@ == "twig_snap"@ ==> r.is_some() && r.unwrap().filename@ == "twig_snap.wav"@
            && r.unwrap().volume == 100 && r.unwrap().max_length == 0,
        file@ != "cans"@ && file@ != "car_horn"@ && file@ != "crow_squawk"@ && file@
            != "crunchy_leaf"@ && file@ != "foliage_rustle"@ && file@ != "rocks"@ && file@
            != "spooked_birds"@ && file@ != "twig_snap"@ ==> r.is_none(),
{
    proof {
        reveal_strlit("cans");
        reveal_strlit("car_horn");
        reveal_strlit("crow_squawk");
        reveal_strlit("crunchy_leaf");
        reveal_strlit("foliage_rustle");
        reveal_strlit("rocks");
        reveal_strlit("spooked_birds");
        reveal_strlit("twig_snap");
        // The eight names have pairwise different lengths, so no two
        // branches can be taken for the same input.
        assert("cans"@.len() == 4);
        assert("car_horn"@.len() == 8);
        assert("crow_squawk"@.len() == 11);
        assert("crunchy_leaf"@.len() == 12);
        assert("foliage_rustle"@.len() == 14);
        assert("rocks"@.len() == 5);
        assert("spooked_birds"@.len() == 13);
        assert("twig_snap"@.len() == 9);
    }
    if str_eq(file, "cans") {
        Some(
            EffectParams { filename: String::from_str("cans.wav"), volume: 100, max_length: 1500 },
        )
    } else if str_eq(file, "car_horn") {
        Some(
            EffectParams {
                filename: String::from_str("car_horn.wav"),
                volume: 10,
                max_length: 0,
            },
        )
    } else if str_eq(file, "crow_squawk") {
        Some(
            EffectParams {
                filename: String::from_str("crow_squawk.wav"),
                volume: 100,
                max_length: 0,
            },
        )
    } else if str_eq(file, "crunchy_leaf") {
        Some(
            EffectParams {
                filename: String::from_str("crunchy_leaf.wav"),
                volume: 100,
                max_length: 0,
            },
        )
    } else if str_eq(file, "foliage_rustle") {
        Some(
            EffectParams {
                filename: String::from_str("foliage_rustle.wav"),
                volume: 100,
                max_length: 2000,
            },
        )
    } else if str_eq(file, "rocks") {
        Some(
            EffectParams { filename: String::from_str("rocks.wav"), volume: 100, max_length: 0 },
        )
    } else if str_eq(file, "spooked_birds") {
        Some(
            EffectParams {
                filename: String::from_str("spooked_birds.wav"),
                volume: 100,
                max_length: 0,
            },
        )
    } else if str_eq(file, "twig_snap") {
        Some(
            EffectParams {
                filename: String::from_str("twig_snap.wav"),
                volume: 100,
                max_length: 0,
            },
        )
    } else {
        None
    }
}

} // verus!
