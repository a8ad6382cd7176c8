//! A two-phase timer for the eye blink (and any other idle expression).
//!
//! The timer advances by elapsed time alone. The eyes stay open for an
//! interval that is drawn afresh within a fixed range each time they reopen,
//! and stay closed for a fixed hold. Only a change of phase asks for a redraw.

use vstd::prelude::*;
use crate::clock::{elapsed, elapsed_ms};

verus! {

/// Shortest time the eyes stay open between two blinks, in milliseconds.
pub const BLINK_MIN_MS: u64 = 4000;

/// Longest time the eyes stay open between two blinks, in milliseconds.
pub const BLINK_MAX_MS: u64 = 7000;

/// Time the eyes stay closed during a blink, in milliseconds.
pub const CLOSE_HOLD_MS: u64 = 100;

/// The range of the open phase and the length of the closed phase.
#[derive(Clone, Copy, Debug, PartialEq, Eq, Structural)]
pub struct BlinkTiming {
    pub min_open_ms: u64,
    pub max_open_ms: u64,
    pub close_hold_ms: u64,
}

/// The timing of the blink of the face: open for 4 to 7 seconds, closed for
/// a tenth of one.
pub open spec fn standard_timing() -> BlinkTiming {
    BlinkTiming {
        min_open_ms: BLINK_MIN_MS,
        max_open_ms: BLINK_MAX_MS,
        close_hold_ms: CLOSE_HOLD_MS,
    }
}

impl BlinkTiming {
    /// The range is not empty.
    pub open spec fn wf(self) -> bool {
        self.min_open_ms <= self.max_open_ms
    }

    /// The open interval that a random number selects: the number is folded
    /// into the range, so every number gives an interval inside it and equal
    /// shares of the numbers give each interval.
    pub open spec fn open_interval(self, entropy: u64) -> u64 {
        let span = self.max_open_ms - self.min_open_ms;
        if span == u64::MAX {
            entropy
        } else {
            (self.min_open_ms + (entropy as int) % (span + 1)) as u64
        }
    }

    /// Computes [`standard_timing`].
    pub fn standard() -> (timing: Self)
        ensures
            timing == standard_timing(),
            timing.wf(),
    {
        BlinkTiming {
            min_open_ms: BLINK_MIN_MS,
            max_open_ms: BLINK_MAX_MS,
            close_hold_ms: CLOSE_HOLD_MS,
        }
    }

    /// A timing with its own range and hold; `None` when the range is empty.
    pub fn new(min_open_ms: u64, max_open_ms: u64, close_hold_ms: u64) -> (timing: Option<Self>)
        ensures
            timing == if min_open_ms <= max_open_ms {
                Some(BlinkTiming { min_open_ms, max_open_ms, close_hold_ms })
            } else {
                None
            },
    {
        if min_open_ms <= max_open_ms {
            Some(BlinkTiming { min_open_ms, max_open_ms, close_hold_ms })
        } else {
            None
        }
    }

    /// Computes [`Self::wf`].
    pub fn is_well_formed(&self) -> (ok: bool)
        ensures
            ok == self.wf(),
    {
        self.min_open_ms <= self.max_open_ms
    }

    /// Computes [`Self::open_interval`].
    pub fn draw_interval(&self, entropy: u64) -> (interval: u64)
        requires
            self.wf(),
        ensures
            interval == self.open_interval(entropy),
            self.min_open_ms <= interval <= self.max_open_ms,
    {
        let span: u64 = self.max_open_ms - self.min_open_ms;
        if span == u64::MAX {
            entropy
        } else {
            self.min_open_ms + entropy % (span + 1)
        }
    }
}

/// The phase of the blink and the time it began.
#[derive(Clone, Copy, Debug, PartialEq, Eq, Structural)]
pub struct AnimationState {
    /// True in the open phase, false in the closed one.
    pub eyes_open: bool,
    /// When the current phase began.
    pub last_toggle: u64,
    /// How long the open phase lasts this time round.
    pub blink_interval: u64,
    /// The range that intervals are drawn from, and the closed hold.
    pub timing: BlinkTiming,
}

impl AnimationState {
    /// The interval in use lies within the range it was drawn from.
    pub open spec fn wf(self) -> bool {
        &&& self.timing.wf()
        &&& self.timing.min_open_ms <= self.blink_interval <= self.timing.max_open_ms
    }

    /// How long the current phase lasts: the drawn interval while the eyes are
    /// open, the fixed hold while they are closed.
    pub open spec fn phase_length(self) -> u64 {
        if self.eyes_open {
            self.blink_interval
        } else {
            self.timing.close_hold_ms
        }
    }

    /// Whether the current phase is over at `now`.
    pub open spec fn due(self, now: u64) -> bool {
        elapsed_ms(now, self.last_toggle) >= self.phase_length()
    }

    /// The state after a tick at `now`. A phase that is over gives way to the
    /// other one, which begins at `now`; reopening draws a new interval.
    pub open spec fn after(self, now: u64, entropy: u64) -> Self {
        if !self.due(now) {
            self
        } else if self.eyes_open {
            AnimationState { eyes_open: false, last_toggle: now, ..self }
        } else {
            AnimationState {
                eyes_open: true,
                last_toggle: now,
                blink_interval: self.timing.open_interval(entropy),
                ..self
            }
        }
    }

    /// Computes [`Self::wf`].
    pub fn is_well_formed(&self) -> (ok: bool)
        ensures
            ok == self.wf(),
    {
        self.timing.is_well_formed() && self.timing.min_open_ms <= self.blink_interval
            && self.blink_interval <= self.timing.max_open_ms
    }

    /// Eyes open since `now`, with a first interval drawn from `entropy`.
    pub fn new(timing: BlinkTiming, now: u64, entropy: u64) -> (state: Self)
        requires
            timing.wf(),
        ensures
            state == (AnimationState {
                eyes_open: true,
                last_toggle: now,
                blink_interval: timing.open_interval(entropy),
                timing,
            }),
            state.wf(),
    {
        AnimationState {
            eyes_open: true,
            last_toggle: now,
            blink_interval: timing.draw_interval(entropy),
            timing,
        }
    }

    /// Advances the timer to `now` and says whether the face must be redrawn.
    ///
    /// `entropy` is a fresh random number; it is used only when the eyes
    /// reopen. The answer is true exactly when the phase changed.
    pub fn advance(&mut self, now: u64, entropy: u64) -> (redraw: bool)
        requires
            old(self).wf(),
        ensures
            *final(self) == old(self).after(now, entropy),
            final(self).wf(),
            redraw == old(self).due(now),
            redraw == (final(self).eyes_open != old(self).eyes_open),
    {
        if self.eyes_open {
            if elapsed(now, self.last_toggle) >= self.blink_interval {
                self.eyes_open = false;
                self.last_toggle = now;
                return true;
            }
        } else if elapsed(now, self.last_toggle) >= self.timing.close_hold_ms {
            self.eyes_open = true;
            self.last_toggle = now;
            self.blink_interval = self.timing.draw_interval(entropy);
            return true;
        }
        false
    }
}

/// One tick of the timer: the time and the random number that came with it.
#[derive(Clone, Copy, Debug, PartialEq, Eq, Structural)]
pub struct Tick {
    pub now: u64,
    pub entropy: u64,
}

/// The state after a run of ticks.
pub open spec fn run(state: AnimationState, ticks: Seq<Tick>) -> AnimationState
    decreases ticks.len(),
{
    if ticks.len() == 0 {
        state
    } else {
        run(state, ticks.drop_last()).after(ticks.last().now, ticks.last().entropy)
    }
}

/// The number of redraws that a run of ticks asks for.
pub open spec fn redraws(state: AnimationState, ticks: Seq<Tick>) -> nat
    decreases ticks.len(),
{
    if ticks.len() == 0 {
        0
    } else {
        let before = run(state, ticks.drop_last());
        redraws(state, ticks.drop_last()) + if before.due(ticks.last().now) {
            1nat
        } else {
            0nat
        }
    }
}

/// The number of phase changes during a run of ticks.
pub open spec fn toggles(state: AnimationState, ticks: Seq<Tick>) -> nat
    decreases ticks.len(),
{
    if ticks.len() == 0 {
        0
    } else {
        let before = run(state, ticks.drop_last());
        toggles(state, ticks.drop_last()) + if run(state, ticks).eyes_open != before.eyes_open {
            1nat
        } else {
            0nat
        }
    }
}

/// One tick of the blink, whatever the time and the random number:
/// closed eyes reopen exactly when the fixed hold has passed, open eyes close
/// exactly when the interval in use has passed, that interval and the next
/// one lie within the range, a change of phase restarts the timer, and a tick
/// without a change leaves the state as it was.
pub proof fn lemma_blink_step(state: AnimationState, now: u64, entropy: u64)
    requires
        state.wf(),
    ensures
        state.after(now, entropy).wf(),
        !state.eyes_open ==> (state.after(now, entropy).eyes_open <==> elapsed_ms(
            now,
            state.last_toggle,
        ) >= state.timing.close_hold_ms),
        state.eyes_open ==> (!state.after(now, entropy).eyes_open <==> elapsed_ms(
            now,
            state.last_toggle,
        ) >= state.blink_interval),
        state.timing.min_open_ms <= state.after(now, entropy).blink_interval
            <= state.timing.max_open_ms,
        state.after(now, entropy).timing == state.timing,
        state.after(now, entropy).eyes_open != state.eyes_open ==> state.after(
            now,
            entropy,
        ).last_toggle == now,
        state.after(now, entropy).eyes_open == state.eyes_open ==> state.after(now, entropy)
            == state,
{
}

/// Over any run of ticks the state stays well formed with the timing it began
/// with, and the redraws asked for are exactly the phase changes: one each,
/// and none on a tick that changes nothing.
pub proof fn lemma_one_redraw_per_toggle(state: AnimationState, ticks: Seq<Tick>)
    requires
        state.wf(),
    ensures
        run(state, ticks).wf(),
        run(state, ticks).timing == state.timing,
        redraws(state, ticks) == toggles(state, ticks),
    decreases ticks.len(),
{
    if ticks.len() > 0 {
        lemma_one_redraw_per_toggle(state, ticks.drop_last());
        lemma_blink_step(run(state, ticks.drop_last()), ticks.last().now, ticks.last().entropy);
    }
}

} // verus!
