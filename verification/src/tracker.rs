//! Time-bounded pulse highlights: each notified point carries a start
//! time and fades out linearly over a fixed duration. The tracker holds at
//! most one pulse per point; re-notifying a point restarts its animation.
//!
//! An alpha value is an integer numerator over [`PULSE_DURATION_MS`]: the
//! pulse starts fully opaque at `PULSE_DURATION_MS` and reaches `0` exactly
//! when its lifetime ends, at which point `tick` drops the entry.

use vstd::prelude::*;

use crate::geom::clamp_int;

verus! {

/// How long one pulse lasts, in milliseconds.
pub const PULSE_DURATION_MS: u64 = 2000;

/// One running pulse: the highlighted point and when it started.
#[derive(Clone, Copy, PartialEq, Eq, Structural, Debug)]
pub struct PulseEntry {
    pub id: u64,
    pub start: u64,
}

/// One frame's worth of a pulse: the highlighted point and its current
/// alpha numerator (out of [`PULSE_DURATION_MS`]).
#[derive(Clone, Copy, PartialEq, Eq, Structural, Debug)]
pub struct PulseSample {
    pub id: u64,
    pub alpha: u64,
}

/// The alpha numerator of a pulse started at `start`, observed at `now`:
/// the remaining lifetime, clamped into `[0, PULSE_DURATION_MS]`.
pub open spec fn alpha_at(start: int, now: int) -> int {
    clamp_int(PULSE_DURATION_MS - (now - start), 0, PULSE_DURATION_MS as int)
}

/// No point id occurs twice.
pub open spec fn unique_ids(s: Seq<PulseEntry>) -> bool {
    forall|a: int, b: int| 0 <= a < b < s.len() ==> (#[trigger] s[a]).id != (#[trigger] s[b]).id
}

/// The set of simultaneous pulses driving the highlight animation.
pub struct NotificationTracker {
    pub entries: Vec<PulseEntry>,
}

impl NotificationTracker {
    /// At most one pulse per point id.
    pub open spec fn wf(self) -> bool {
        unique_ids(self.entries@)
    }

    /// A tracker with no running pulse.
    pub fn new() -> (t: NotificationTracker)
        ensures
            t.wf(),
            t.entries@.len() == 0,
    {
        NotificationTracker { entries: Vec::new() }
    }

    /// Whether any pulse is still running, so the host loop knows to keep
    /// redrawing even without user input.
    pub fn active(&self) -> (r: bool)
        ensures
            r <==> self.entries@.len() > 0,
    {
        self.entries.len() > 0
    }

    /// Starts (or restarts) the pulse for `id` at `start`: any previous
    /// pulse of the same point is replaced rather than stacked, and every
    /// other pulse is untouched.
    pub fn notify(&mut self, id: u64, start: u64)
        requires
            old(self).wf(),
        ensures
            final(self).wf(),
            forall|e: PulseEntry|
                #![trigger final(self).entries@.contains(e)]
                #![trigger old(self).entries@.contains(e)]
                final(self).entries@.contains(e) <==> (old(self).entries@.contains(e) && e.id != id
                    || e == (PulseEntry { id, start })),
    {
        let n: usize = self.entries.len();
        let mut kept: Vec<PulseEntry> = Vec::new();
        let mut i: usize = 0;
        while i < n
            invariant
                0 <= i <= n,
                n == self.entries@.len(),
                unique_ids(self.entries@),
                self.entries@ == old(self).entries@,
                unique_ids(kept@),
                forall|k: int|
                    0 <= k < kept@.len() ==> exists|j: int|
                        0 <= j < i && self.entries@[j] == #[trigger] kept@[k],
                forall|e: PulseEntry| #[trigger] kept@.contains(e) ==> e.id != id,
                forall|e: PulseEntry|
                    #![trigger kept@.contains(e)]
                    kept@.contains(e) <==> (self.entries@.subrange(0, i as int).contains(e)
                        && e.id != id),
            decreases n - i,
        {
            let e = self.entries[i];
            let ghost kept_pre = kept@;
            if e.id != id {
                kept.push(e);
                proof {
                    assert forall|a: int, b: int|
                        0 <= a < b < kept@.len() implies (#[trigger] kept@[a]).id != (
                    #[trigger] kept@[b]).id by {
                        if b == kept@.len() - 1 {
                            assert(kept@[a] == kept_pre[a]);
                            let j = choose|j: int|
                                0 <= j < i && self.entries@[j] == kept_pre[a];
                            assert(self.entries@[j].id != self.entries@[i as int].id);
                        }
                    }
                }
            }
            proof {
                broadcast use vstd::seq_lib::lemma_seq_contains_after_push;

                assert(self.entries@.subrange(0, (i + 1) as int) =~= self.entries@.subrange(
                    0,
                    i as int,
                ).push(self.entries@[i as int]));
            }
            i += 1;
        }
        proof {
            assert(self.entries@.subrange(0, n as int) =~= self.entries@);
        }
        let ghost kept_pre = kept@;
        kept.push(PulseEntry { id, start });
        self.entries = kept;
        proof {
            broadcast use vstd::seq_lib::lemma_seq_contains_after_push;

            assert forall|a: int, b: int|
                0 <= a < b < self.entries@.len() implies (#[trigger] self.entries@[a]).id != (
            #[trigger] self.entries@[b]).id by {
                if b == self.entries@.len() - 1 {
                    assert(self.entries@[a] == kept_pre[a]);
                    assert(kept_pre.contains(kept_pre[a]));
                    assert(kept_pre[a].id != id);
                }
            }
        }
    }

    /// Advances the animation to `now`: drops every pulse whose lifetime
    /// is over and reports, pulse by pulse, the alpha to draw with. Every
    /// still-live pulse survives untouched; nothing else remains.
    pub fn tick(&mut self, now: u64) -> (samples: Vec<PulseSample>)
        requires
            old(self).wf(),
        ensures
            final(self).wf(),
            forall|e: PulseEntry|
                #![trigger final(self).entries@.contains(e)]
                #![trigger old(self).entries@.contains(e)]
                final(self).entries@.contains(e) <==> (old(self).entries@.contains(e) && alpha_at(
                    e.start as int,
                    now as int,
                ) > 0),
            samples@.len() == final(self).entries@.len(),
            forall|k: int|
                0 <= k < samples@.len() ==> #[trigger] samples@[k] == (PulseSample {
                    id: final(self).entries@[k].id,
                    alpha: alpha_at(final(self).entries@[k].start as int, now as int) as u64,
                }),
    {
        let n: usize = self.entries.len();
        let mut kept: Vec<PulseEntry> = Vec::new();
        let mut out: Vec<PulseSample> = Vec::new();
        let mut i: usize = 0;
        while i < n
            invariant
                0 <= i <= n,
                n == self.entries@.len(),
                unique_ids(self.entries@),
                self.entries@ == old(self).entries@,
                unique_ids(kept@),
                out@.len() == kept@.len(),
                forall|k: int|
                    0 <= k < kept@.len() ==> exists|j: int|
                        0 <= j < i && self.entries@[j] == #[trigger] kept@[k],
                forall|k: int|
                    0 <= k < kept@.len() ==> #[trigger] out@[k] == (PulseSample {
                        id: kept@[k].id,
                        alpha: alpha_at(kept@[k].start as int, now as int) as u64,
                    }),
                forall|e: PulseEntry|
                    #![trigger kept@.contains(e)]
                    kept@.contains(e) <==> (self.entries@.subrange(0, i as int).contains(e)
                        && alpha_at(e.start as int, now as int) > 0),
            decreases n - i,
        {
            let e = self.entries[i];
            let alpha: u64 = if now <= e.start {
                PULSE_DURATION_MS
            } else {
                let elapsed: u64 = now - e.start;
                if elapsed >= PULSE_DURATION_MS {
                    0
                } else {
                    PULSE_DURATION_MS - elapsed
                }
            };
            let ghost kept_pre = kept@;
            if alpha > 0 {
                kept.push(e);
                out.push(PulseSample { id: e.id, alpha });
                proof {
                    assert forall|a: int, b: int|
                        0 <= a < b < kept@.len() implies (#[trigger] kept@[a]).id != (
                    #[trigger] kept@[b]).id by {
                        if b == kept@.len() - 1 {
                            assert(kept@[a] == kept_pre[a]);
                            let j = choose|j: int|
                                0 <= j < i && self.entries@[j] == kept_pre[a];
                            assert(self.entries@[j].id != self.entries@[i as int].id);
                        }
                    }
                }
            }
            proof {
                broadcast use vstd::seq_lib::lemma_seq_contains_after_push;

                assert(self.entries@.subrange(0, (i + 1) as int) =~= self.entries@.subrange(
                    0,
                    i as int,
                ).push(self.entries@[i as int]));
            }
            i += 1;
        }
        proof {
            assert(self.entries@.subrange(0, n as int) =~= self.entries@);
        }
        self.entries = kept;
        out
    }
}

/// Length of the marker blink cycle, in milliseconds: the tracked-entity
/// marker fades in and out over this period, forever.
pub const BLINK_PERIOD_MS: u64 = 2550;

/// The blink level of the tracked-entity marker at `now`: a triangle wave
/// over the blink period, rising from 0 to 255 and falling back.
pub open spec fn spec_marker_blink(now: int) -> int {
    let phase = (now % (BLINK_PERIOD_MS as int)) / 5;
    if phase > 255 {
        255 - (phase - 255)
    } else {
        phase
    }
}

/// Computes the marker blink level, always a valid 8-bit alpha.
pub fn marker_blink(now: u64) -> (level: u8)
    ensures
        level == spec_marker_blink(now as int),
{
    let phase: u64 = (now % BLINK_PERIOD_MS) / 5;
    if phase > 255 {
        (255 - (phase - 255)) as u8
    } else {
        phase as u8
    }
}

/// The shape of one pulse over time: fully opaque the moment it starts,
/// strictly fading while it lives, and exactly zero from the end of its
/// lifetime on.
pub proof fn lemma_pulse_decay(start: int, a: int, b: int)
    requires
        start <= a < b <= start + PULSE_DURATION_MS,
    ensures
        alpha_at(start, start) == PULSE_DURATION_MS,
        alpha_at(start, a) > alpha_at(start, b),
        forall|now: int| now >= start + PULSE_DURATION_MS ==> alpha_at(start, now) == 0,
{
}

} // verus!
