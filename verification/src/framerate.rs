//! Frame pacing: decides when the next frame is due against a target
//! rate and tracks a trailing one-second window of frame timestamps to
//! report throughput.
//!
//! Time enters as a nanosecond count on a monotone clock; the caller
//! reads the clock and passes it in, so every decision here is a pure
//! function of the pacer's state and the given instant.

use vstd::prelude::*;

verus! {

/// Nanoseconds in one second, the width of the throughput window.
pub const WINDOW_NANOS: u64 = 1_000_000_000;

/// A frame pacer: an optional target frame duration, the nominal time of
/// the last rendered frame, and the timestamps of the frames rendered in
/// the trailing window, oldest first.
pub struct Framerate {
    target: Option<u64>,
    last: u64,
    stamps: Vec<u64>,
}

/// The timestamps are in ascending order.
pub open spec fn spec_sorted(s: Seq<u64>) -> bool {
    forall|i: int, j: int| 0 <= i <= j < s.len() ==> s[i] <= s[j]
}

/// How long ago the nominal last frame was, zero if it lies in the
/// future (the pacer may schedule the next nominal tick ahead of now).
pub open spec fn spec_since_last(last: u64, now: u64) -> int {
    if now >= last {
        now - last
    } else {
        0
    }
}

impl Framerate {
    /// The timestamp window is sorted.
    pub closed spec fn wf(&self) -> bool {
        spec_sorted(self.stamps@)
    }

    /// The target frame duration in nanoseconds, if a rate is set.
    pub closed spec fn spec_target(&self) -> Option<u64> {
        self.target
    }

    /// The nominal time of the last frame.
    pub closed spec fn spec_last(&self) -> u64 {
        self.last
    }

    /// The recorded timestamps, oldest first.
    pub closed spec fn spec_stamps(&self) -> Seq<u64> {
        self.stamps@
    }

    /// A pacer aiming at `target_fps` frames per second (or unpaced), as
    /// of instant `now`.
    pub fn new(target_fps: Option<u32>, now: u64) -> (f: Framerate)
        requires
            target_fps matches Some(fps) ==> fps >= 1,
        ensures
            f.wf(),
            f.spec_target() == (match target_fps {
                Some(fps) => Some((WINDOW_NANOS / fps as u64) as u64),
                Option::None => Option::None::<u64>,
            }),
            f.spec_last() == now,
            f.spec_stamps() == Seq::<u64>::empty(),
    {
        let target: Option<u64> = match target_fps {
            Some(fps) => Some(WINDOW_NANOS / fps as u64),
            Option::None => Option::None,
        };
        let f = Framerate { target, last: now, stamps: Vec::new() };
        proof {
            assert(f.stamps@ =~= Seq::<u64>::empty());
        }
        f
    }

    /// Records a frame at instant `now` and drops timestamps that have
    /// left the trailing window: afterwards the window holds exactly the
    /// old timestamps younger than one second, followed by `now`.
    pub fn stamp(&mut self, now: u64)
        requires
            old(self).wf(),
            old(self).spec_stamps().len() > 0 ==> now >= old(self).spec_stamps().last(),
        ensures
            final(self).wf(),
            final(self).spec_target() == old(self).spec_target(),
            final(self).spec_last() == old(self).spec_last(),
            exists|k: int|
                0 <= k <= old(self).spec_stamps().len() && (forall|i: int|
                    0 <= i < k ==> now - #[trigger] old(self).spec_stamps()[i] > WINDOW_NANOS)
                    && (forall|i: int|
                    k <= i < old(self).spec_stamps().len() ==> now - #[trigger] old(
                        self,
                    ).spec_stamps()[i] <= WINDOW_NANOS) && final(self).spec_stamps() == old(
                    self,
                ).spec_stamps().skip(k).push(now),
    {
        let ghost orig = self.stamps@;
        self.stamps.push(now);
        proof {
            assert(spec_sorted(self.stamps@));
        }
        let ghost k: int = 0;
        let ghost pre = *self;
        loop
            invariant
                0 <= k <= orig.len(),
                self.stamps@ == orig.skip(k).push(now),
                spec_sorted(self.stamps@),
                spec_sorted(orig),
                orig.len() > 0 ==> now >= orig.last(),
                forall|i: int| 0 <= i < k ==> now - #[trigger] orig[i] > WINDOW_NANOS,
                self.target == pre.target,
                self.last == pre.last,
            ensures
                0 <= k <= orig.len(),
                self.stamps@ == orig.skip(k).push(now),
                spec_sorted(self.stamps@),
                forall|i: int| 0 <= i < k ==> now - #[trigger] orig[i] > WINDOW_NANOS,
                forall|i: int| k <= i < orig.len() ==> now - #[trigger] orig[i] <= WINDOW_NANOS,
                self.target == pre.target,
                self.last == pre.last,
            decreases self.stamps@.len(),
        {
            let len = self.stamps.len();
            if len > 1 {
                let front = self.stamps[0];
                proof {
                    assert(orig.skip(k)[0] == orig[k]);
                    assert(front == orig[k]);
                    assert(now >= orig.last());
                    assert(orig[k] <= orig.last());
                }
                if now - front > WINDOW_NANOS {
                    self.stamps.remove(0);
                    proof {
                        assert(self.stamps@ =~= orig.skip(k + 1).push(now));
                        k = k + 1;
                    }
                } else {
                    proof {
                        // The front is still inside the window, and every
                        // later timestamp is no older.
                        assert forall|i: int| k <= i < orig.len() implies now - #[trigger] orig[i]
                            <= WINDOW_NANOS by {
                            assert(orig[k] <= orig[i]);
                        }
                    }
                    break ;
                }
            } else {
                proof {
                    assert(self.stamps@.len() == orig.len() - k + 1);
                    assert(k == orig.len());
                }
                break ;
            }
        }
    }

    /// Records a frame and advances the nominal frame time: while the
    /// pacer is on schedule the nominal time moves by exactly one target
    /// period, otherwise it resets to `now`. The throughput window is
    /// updated exactly as `stamp` says: the old timestamps older than
    /// one second leave, the rest stay, and `now` joins at the end — so
    /// each call within the window grows the reported rate by one.
    pub fn refresh(&mut self, now: u64)
        requires
            old(self).wf(),
            old(self).spec_stamps().len() > 0 ==> now >= old(self).spec_stamps().last(),
            old(self).spec_target() matches Some(t) ==> old(self).spec_last() + 2 * t
                <= u64::MAX,
        ensures
            final(self).wf(),
            final(self).spec_target() == old(self).spec_target(),
            final(self).spec_last() == (match old(self).spec_target() {
                Some(t) => if now < old(self).spec_last() + 2 * t {
                    (old(self).spec_last() + t) as u64
                } else {
                    now
                },
                Option::None => now,
            }),
            exists|k: int|
                0 <= k <= old(self).spec_stamps().len() && (forall|i: int|
                    0 <= i < k ==> now - #[trigger] old(self).spec_stamps()[i] > WINDOW_NANOS)
                    && (forall|i: int|
                    k <= i < old(self).spec_stamps().len() ==> now - #[trigger] old(
                        self,
                    ).spec_stamps()[i] <= WINDOW_NANOS) && final(self).spec_stamps() == old(
                    self,
                ).spec_stamps().skip(k).push(now),
    {
        self.stamp(now);
        match self.target {
            Some(t) => {
                let tick = self.last + t;
                if now < tick + t {
                    self.last = tick;
                } else {
                    self.last = now;
                }
            },
            Option::None => {
                self.last = now;
            },
        }
    }

    /// Whether a frame is due at instant `now`: always when unpaced,
    /// otherwise exactly when a full target period has passed since the
    /// nominal last frame.
    pub fn should_render(&self, now: u64) -> (r: bool)
        ensures
            r == (match self.spec_target() {
                Some(t) => t <= spec_since_last(self.spec_last(), now),
                Option::None => true,
            }),
    {
        match self.target {
            Some(t) => {
                let since: u64 = if now >= self.last {
                    now - self.last
                } else {
                    0
                };
                t <= since
            },
            Option::None => true,
        }
    }

    /// Right after a paced `refresh` no frame is due: with a target
    /// period of at least one nanosecond, `should_render` at the same
    /// instant returns false, whatever the pacer's nominal frame time
    /// was before.
    pub proof fn lemma_no_frame_due_after_refresh(pre: Framerate, post: Framerate, now: u64)
        requires
            pre.spec_target() matches Some(t) && t >= 1 && pre.spec_last() + 2 * t <= u64::MAX,
            post.spec_target() == pre.spec_target(),
            post.spec_last() == (match pre.spec_target() {
                Some(t) => if now < pre.spec_last() + 2 * t {
                    (pre.spec_last() + t) as u64
                } else {
                    now
                },
                Option::None => now,
            }),
        ensures
            !(match post.spec_target() {
                Some(t) => t <= spec_since_last(post.spec_last(), now),
                Option::None => true,
            }),
    {
    }

    /// How many frames the trailing one-second window holds.
    pub fn fps(&self) -> (r: u32)
        requires
            self.spec_stamps().len() <= u32::MAX,
        ensures
            r == self.spec_stamps().len(),
    {
        self.stamps.len() as u32
    }
}

} // verus!
