//! Timed transitions of a value, eased in and out along a sine curve.

use vstd::prelude::*;

verus! {

/// `x` lies between `a` and `b`, whichever of the two is larger.
pub open spec fn between(a: u16, x: u16, b: u16) -> bool {
    (a <= x && x <= b) || (b <= x && x <= a)
}

/// A transition from a start value to an end value over a duration in milliseconds,
/// anchored at the clock reading of its creation.
///
/// It remembers the latest sample it gave out. Later samples never fall back behind
/// it: time does not run backwards for an animation, and its value only moves
/// towards the end value.
#[derive(Debug)]
pub struct Animation {
    start_time: u64,
    duration: u64,
    start_value: u16,
    end_value: u16,
    current_time: u64,
    current_value: u16,
}

/// Calls `tween::Tweener::new` with the `SineInOut` tween and then `move_to` on it:
/// the eased value at `elapsed` of `duration`. The crate computes it in single
/// precision with the platform's cosine, so nothing is promised of the result.
#[verifier::external_body]
fn sine_in_out(start: u16, end: u16, duration: u64, elapsed: u64) -> (value: i32)
    requires
        0 < elapsed < duration,
{
    tween::Tweener::new(i32::from(start), i32::from(end), duration, tween::SineInOut).move_to(elapsed)
}

/// The value nearest to `raw` that lies between `a` and `b`.
fn clamp_between(raw: i32, a: u16, b: u16) -> (v: u16)
    ensures
        between(a, v, b),
        (a <= raw <= b || b <= raw <= a) ==> v == raw,
{
    let lo: u16 = if a <= b { a } else { b };
    let hi: u16 = if a <= b { b } else { a };
    if raw < lo as i32 {
        lo
    } else if raw > hi as i32 {
        hi
    } else {
        raw as u16
    }
}

impl Animation {
    #[verifier::type_invariant]
    pub closed spec fn wf(self) -> bool {
        &&& between(self.start_value, self.current_value, self.end_value)
        &&& self.current_time == 0 && self.duration > 0 ==> self.current_value == self.start_value
        &&& self.current_time >= self.duration ==> self.current_value == self.end_value
    }

    /// The clock reading at which the animation was created.
    pub closed spec fn start_time(self) -> u64 {
        self.start_time
    }

    /// The length of the transition in milliseconds.
    pub closed spec fn duration(self) -> u64 {
        self.duration
    }

    pub closed spec fn start_value(self) -> u16 {
        self.start_value
    }

    pub closed spec fn end_value(self) -> u16 {
        self.end_value
    }

    /// Milliseconds into the transition at the latest sample.
    pub closed spec fn current_time(self) -> u64 {
        self.current_time
    }

    /// The value of the latest sample.
    pub closed spec fn current_value(self) -> u16 {
        self.current_value
    }

    /// Finished means that the duration has elapsed at the latest sample.
    pub open spec fn finished(self) -> bool {
        self.current_time() >= self.duration()
    }

    /// The animation as it is when created at `now`: nothing has elapsed, and the
    /// value is the start value (the end value, if there is no duration at all).
    pub closed spec fn started(duration: u64, start_value: u16, end_value: u16, now: u64) -> Animation {
        Animation {
            start_time: now,
            duration,
            start_value,
            end_value,
            current_time: 0,
            current_value: if duration == 0 { end_value } else { start_value },
        }
    }

    /// Milliseconds into the transition when the clock reads `now`: never less than
    /// at the latest sample, and zero while the clock is behind the start.
    pub open spec fn elapsed_at(self, now: u64) -> u64 {
        let e = if now >= self.start_time() { (now - self.start_time()) as u64 } else { 0 };
        if e >= self.current_time() { e } else { self.current_time() }
    }

    /// What one sample at `now` does to an animation, whatever the easing curve gives.
    pub open spec fn sample_step(pre: Animation, now: u64, post: Animation) -> bool {
        &&& post.start_time() == pre.start_time()
        &&& post.duration() == pre.duration()
        &&& post.start_value() == pre.start_value()
        &&& post.end_value() == pre.end_value()
        &&& post.current_time() == pre.elapsed_at(now)
        &&& between(pre.current_value(), post.current_value(), pre.end_value())
        &&& post.finished() ==> post.current_value() == pre.end_value()
        &&& post.current_time() == pre.current_time() ==> post.current_value() == pre.current_value()
    }

    /// Linear progress at the latest sample, as a fraction of 65535.
    pub open spec fn progress(self) -> int {
        if self.current_time() >= self.duration() {
            65535
        } else {
            self.current_time() * 65535 / (self.duration() as int)
        }
    }

    /// What `started` holds.
    pub proof fn lemma_started(duration: u64, start_value: u16, end_value: u16, now: u64)
        ensures
            ({
                let a = Animation::started(duration, start_value, end_value, now);
                &&& a.wf()
                &&& a.start_time() == now
                &&& a.duration() == duration
                &&& a.start_value() == start_value
                &&& a.end_value() == end_value
                &&& a.current_time() == 0
                &&& a.current_value() == if duration == 0 { end_value } else { start_value }
            }),
    {
    }

    /// Creates an animation anchored at `now`.
    pub fn new(duration: u64, start_value: u16, end_value: u16, now: u64) -> (a: Animation)
        ensures
            a == Animation::started(duration, start_value, end_value, now),
            a.wf(),
    {
        Animation {
            start_time: now,
            duration,
            start_value,
            end_value,
            current_time: 0,
            current_value: if duration == 0 { end_value } else { start_value },
        }
    }

    /// Samples the animation at `now`: the current value, and whether it has finished.
    /// A finished animation gives exactly its end value.
    pub fn get_value_and_done(&mut self, now: u64) -> (sample: (u16, bool))
        ensures
            Animation::sample_step(*old(self), now, *final(self)),
            final(self).wf(),
            sample.0 == final(self).current_value(),
            sample.1 == final(self).finished(),
    {
        proof {
            use_type_invariant(&*self);
        }
        let since_start: u64 = if now >= self.start_time { now - self.start_time } else { 0 };
        let elapsed: u64 = if since_start >= self.current_time { since_start } else { self.current_time };
        let value: u16 = if elapsed >= self.duration {
            self.end_value
        } else if elapsed == self.current_time {
            self.current_value
        } else {
            let raw = sine_in_out(self.start_value, self.end_value, self.duration, elapsed);
            clamp_between(raw, self.current_value, self.end_value)
        };
        *self = Animation {
            start_time: self.start_time,
            duration: self.duration,
            start_value: self.start_value,
            end_value: self.end_value,
            current_time: elapsed,
            current_value: value,
        };
        (value, elapsed >= self.duration)
    }

    /// Samples the animation at `now` and gives the current value.
    pub fn get_value(&mut self, now: u64) -> (value: u16)
        ensures
            Animation::sample_step(*old(self), now, *final(self)),
            final(self).wf(),
            value == final(self).current_value(),
    {
        self.get_value_and_done(now).0
    }

    /// Whether the duration had elapsed at the latest sample.
    pub fn is_finished(&self) -> (done: bool)
        ensures
            done == self.finished(),
    {
        self.current_time >= self.duration
    }

    /// Linear progress at the latest sample, as a fraction of 65535.
    pub fn get_progress(&self) -> (p: u16)
        ensures
            p == self.progress(),
    {
        if self.current_time >= self.duration {
            65535
        } else {
            let scaled: u128 = (self.current_time as u128) * 65535;
            let q: u128 = scaled / (self.duration as u128);
            assert(q < 65535) by (nonlinear_arith)
                requires
                    q == (self.current_time * 65535) / (self.duration as int),
                    0 <= self.current_time < self.duration,
            ;
            q as u16
        }
    }

    /// The value that the animation ends on.
    pub fn target(&self) -> (v: u16)
        ensures
            v == self.end_value(),
    {
        self.end_value
    }
}

/// Samples taken at clock readings that do not decrease move one way only: each lies
/// between the one before it and the end value, so a rising animation never falls
/// and a falling one never rises, and none passes its end value.
pub proof fn lemma_samples_monotonic(a: Animation, t1: u64, b: Animation, t2: u64, c: Animation)
    requires
        a.wf(),
        Animation::sample_step(a, t1, b),
        Animation::sample_step(b, t2, c),
    ensures
        between(a.start_value(), b.current_value(), a.end_value()),
        between(b.current_value(), c.current_value(), a.end_value()),
        a.start_value() <= a.end_value() ==> a.current_value() <= b.current_value() <= c.current_value() <= a.end_value(),
        a.start_value() >= a.end_value() ==> a.current_value() >= b.current_value() >= c.current_value() >= a.end_value(),
        b.finished() ==> c.finished() && c.current_value() == a.end_value(),
{
}

/// A sample taken before any time has passed is the start value, and a sample taken
/// once the duration has passed is the end value and reports the animation finished.
pub proof fn lemma_sample_ends(duration: u64, start_value: u16, end_value: u16, created: u64, now: u64, post: Animation)
    requires
        Animation::sample_step(Animation::started(duration, start_value, end_value, created), now, post),
    ensures
        duration > 0 && now <= created ==> post.current_value() == start_value && !post.finished(),
        now >= created && now - created >= duration ==> post.current_value() == end_value && post.finished(),
{
    Animation::lemma_started(duration, start_value, end_value, created);
}

} // verus!
