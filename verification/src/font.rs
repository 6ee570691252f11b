//! Timed text transitions: a sequence of lines shown one after another,
//! each for a fixed number of seconds, resting on the last line.
//!
//! Which line is current is a pure function of the clock reading; the
//! clock itself is the only outside dependency.

use vstd::prelude::*;

verus! {

/// A timed sequence of text lines.
#[derive(Debug)]
pub struct FontTransition {
    /// The lines, in display order; never empty.
    pub strings: Vec<String>,
    /// When the transition (re)started, in milliseconds since the epoch.
    pub start_time: u64,
    /// How long each line is shown, in whole seconds; never zero.
    pub duration: u64,
}

/// The shape every transition keeps: at least one line, and a positive
/// per-line duration.
pub open spec fn ft_inv(f: FontTransition) -> bool {
    &&& f.strings@.len() >= 1
    &&& f.duration >= 1
}

/// Which line is current at clock reading `now`: the elapsed whole
/// seconds divided by the per-line duration, resting on the last line;
/// the first line whenever the clock reads at or before the start.
pub open spec fn spec_text_index(len: int, start: int, duration: int, now: int) -> int {
    if start < now {
        let elapsed_s = (now - start) / 1000;
        let idx = elapsed_s / duration;
        if idx > len - 1 {
            len - 1
        } else {
            idx
        }
    } else {
        0
    }
}

/// Relies on std::time::SystemTime::now and duration_since: the
/// milliseconds since the Unix epoch, or 0 should the clock read
/// before it. Nothing is promised of the value.
#[verifier::external_body]
fn now_millis() -> u64 {
    match std::time::SystemTime::now().duration_since(std::time::UNIX_EPOCH) {
        Ok(d) => d.as_millis() as u64,
        Err(_) => 0,
    }
}

impl FontTransition {
    /// Start showing `strings`, `duration` seconds per line, from now.
    pub fn new(strings: Vec<String>, duration: u64) -> (r: FontTransition)
        requires
            strings@.len() >= 1,
            duration >= 1,
        ensures
            r.strings@ == strings@,
            r.duration == duration,
            ft_inv(r),
    {
        let now = now_millis();
        FontTransition { strings, start_time: now, duration }
    }

    /// Append one more line and restart the clock on it.
    pub fn next(&mut self, next_text: String, duration: u64)
        requires
            ft_inv(*old(self)),
            duration >= 1,
        ensures
            final(self).strings@ == old(self).strings@.push(next_text),
            final(self).duration == duration,
            ft_inv(*final(self)),
    {
        let now = now_millis();
        self.strings.push(next_text);
        self.start_time = now;
        self.duration = duration;
    }

    /// The line current at clock reading `now_ms`.
    pub fn text_at(&self, now_ms: u64) -> (r: String)
        requires
            ft_inv(*self),
        ensures
            r == self.strings@[spec_text_index(
                self.strings@.len() as int,
                self.start_time as int,
                self.duration as int,
                now_ms as int,
            )],
    {
        if self.start_time < now_ms {
            let elapsed_s = (now_ms - self.start_time) / 1000;
            let idx = elapsed_s / self.duration;
            let last = (self.strings.len() - 1) as u64;
            let idx = if idx > last {
                last
            } else {
                idx
            };
            self.strings[idx as usize].clone()
        } else {
            self.strings[0].clone()
        }
    }

    /// The line current right now. Which one that is depends on the
    /// clock; it is always one of the stored lines.
    pub fn current_text(&self) -> (r: String)
        requires
            ft_inv(*self),
        ensures
            exists|i: int| 0 <= i < self.strings@.len() && r == self.strings@[i],
    {
        let now = now_millis();
        let r = self.text_at(now);
        proof {
            let i = spec_text_index(
                self.strings@.len() as int,
                self.start_time as int,
                self.duration as int,
                now as int,
            );
            assert(0 <= i < self.strings@.len());
        }
        r
    }
}

} // verus!
