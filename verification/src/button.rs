//! Debouncing of one push-button.
//!
//! The button is sampled once per tick. A raw level is trusted only after it
//! has held for [`DEBOUNCE_MS`]; a trusted press that lasts [`LONG_PRESS_MS`]
//! is reported once as a long press.

use vstd::prelude::*;
use crate::clock::{elapsed, elapsed_ms};

verus! {

/// How long a raw level must hold before it is trusted, in milliseconds.
pub const DEBOUNCE_MS: u64 = 30;

/// How long a trusted press must last to count as a long press, in milliseconds.
pub const LONG_PRESS_MS: u64 = 1600;

/// A debounced transition of the button.
#[derive(Clone, Copy, Debug, PartialEq, Eq, Structural)]
pub enum EdgeEvent {
    /// The button went down and stayed down for the debounce window.
    Pressed,
    /// The button went up and stayed up for the debounce window.
    Released,
    /// The press in progress has lasted for the long-press threshold.
    LongPress,
}

/// What a completed press means to the user interface.
#[derive(Clone, Copy, Debug, PartialEq, Eq, Structural)]
pub enum Gesture {
    /// A press that ended before the long-press threshold.
    Short,
    /// A press that reached the long-press threshold.
    Long,
}

/// One reading of the input line: `raw` is true while the button is
/// physically down, `now` is the time of the reading in milliseconds.
#[derive(Clone, Copy, Debug, PartialEq, Eq, Structural)]
pub struct Sample {
    pub raw: bool,
    pub now: u64,
}

/// The debouncer's memory between two samples.
#[derive(Clone, Copy, Debug, PartialEq, Eq, Structural)]
pub struct DebouncedButtonState {
    /// The debounced level: true while the button counts as pressed.
    pub stable: bool,
    /// The raw level of the latest sample.
    pub raw_last: bool,
    /// When the raw level last changed.
    pub changed_at: u64,
    /// When the press in progress (or the latest one) was accepted.
    pub pressed_at: u64,
    /// Whether that press has already been reported as a long press.
    pub long_fired: bool,
}

impl DebouncedButtonState {
    /// The state once the raw level of a sample has been noted: a level that
    /// differs from the previous one restarts the debounce timer.
    pub open spec fn noted(self, raw: bool, now: u64) -> Self {
        if raw != self.raw_last {
            DebouncedButtonState { raw_last: raw, changed_at: now, ..self }
        } else {
            self
        }
    }

    /// Whether the raw level read at `now` has held for the debounce window.
    pub open spec fn settled(self, raw: bool, now: u64) -> bool {
        elapsed_ms(now, self.noted(raw, now).changed_at) >= DEBOUNCE_MS
    }

    /// Whether the sample is accepted as the start of a press.
    pub open spec fn rises(self, raw: bool, now: u64) -> bool {
        self.settled(raw, now) && raw && !self.stable
    }

    /// Whether the sample is accepted as the end of a press.
    pub open spec fn falls(self, raw: bool, now: u64) -> bool {
        self.settled(raw, now) && !raw && self.stable
    }

    /// Whether the sample finds a press that has reached the long-press
    /// threshold and has not been reported yet.
    pub open spec fn ripens(self, raw: bool, now: u64) -> bool {
        &&& self.settled(raw, now)
        &&& self.stable
        &&& !self.long_fired
        &&& elapsed_ms(now, self.pressed_at) >= LONG_PRESS_MS
    }

    /// The state after a sample.
    ///
    /// The debounced level follows the raw level as soon as the raw level has
    /// held for the window. A rising edge stamps the press and clears the
    /// long-press mark; a ripe press sets it.
    pub open spec fn after(self, raw: bool, now: u64) -> Self {
        let noted = self.noted(raw, now);
        DebouncedButtonState {
            stable: if self.settled(raw, now) { raw } else { self.stable },
            raw_last: noted.raw_last,
            changed_at: noted.changed_at,
            pressed_at: if self.rises(raw, now) { now } else { self.pressed_at },
            long_fired: if self.rises(raw, now) {
                false
            } else if self.ripens(raw, now) {
                true
            } else {
                self.long_fired
            },
        }
    }

    /// The event that a sample gives rise to.
    ///
    /// A press can ripen on the very sample that accepts its release; the long
    /// press is reported then, and the level falls without a `Released`.
    pub open spec fn event_on(self, raw: bool, now: u64) -> Option<EdgeEvent> {
        if self.rises(raw, now) {
            Some(EdgeEvent::Pressed)
        } else if self.ripens(raw, now) {
            Some(EdgeEvent::LongPress)
        } else if self.falls(raw, now) {
            Some(EdgeEvent::Released)
        } else {
            None
        }
    }

    /// A released button, with both timers started at `now`.
    pub fn new(now: u64) -> (state: Self)
        ensures
            state == (DebouncedButtonState {
                stable: false,
                raw_last: false,
                changed_at: now,
                pressed_at: now,
                long_fired: false,
            }),
    {
        DebouncedButtonState {
            stable: false,
            raw_last: false,
            changed_at: now,
            pressed_at: now,
            long_fired: false,
        }
    }

    /// Takes one sample of the input line and reports the edge it completes,
    /// if any.
    pub fn sample(&mut self, raw: bool, now: u64) -> (event: Option<EdgeEvent>)
        ensures
            *final(self) == old(self).after(raw, now),
            event == old(self).event_on(raw, now),
    {
        if raw != self.raw_last {
            self.raw_last = raw;
            self.changed_at = now;
        }
        if elapsed(now, self.changed_at) < DEBOUNCE_MS {
            return None;
        }
        let mut event: Option<EdgeEvent> = None;
        if raw && !self.stable {
            self.stable = true;
            self.pressed_at = now;
            self.long_fired = false;
            event = Some(EdgeEvent::Pressed);
        }
        if self.stable && !self.long_fired && elapsed(now, self.pressed_at) >= LONG_PRESS_MS {
            self.long_fired = true;
            event = Some(EdgeEvent::LongPress);
        }
        if !raw && self.stable {
            self.stable = false;
            if event.is_none() {
                event = Some(EdgeEvent::Released);
            }
        }
        event
    }

    /// The debounced level: true while the button counts as pressed.
    pub fn is_down(&self) -> (down: bool)
        ensures
            down == self.stable,
    {
        self.stable
    }
}

/// The gesture that an event completes: a long press counts when it fires, a
/// short press when the button is released without a long press having fired.
pub open spec fn gesture_of(event: Option<EdgeEvent>, long_fired: bool) -> Option<Gesture> {
    match event {
        Some(EdgeEvent::LongPress) => Some(Gesture::Long),
        Some(EdgeEvent::Released) => if long_fired {
            None
        } else {
            Some(Gesture::Short)
        },
        _ => None,
    }
}

/// Computes [`gesture_of`] for an event and the long-press mark of the state
/// that `sample` left behind.
pub fn gesture(event: Option<EdgeEvent>, long_fired: bool) -> (g: Option<Gesture>)
    ensures
        g == gesture_of(event, long_fired),
{
    match event {
        Some(EdgeEvent::LongPress) => Some(Gesture::Long),
        Some(EdgeEvent::Released) => if long_fired {
            None
        } else {
            Some(Gesture::Short)
        },
        _ => None,
    }
}

} // verus!
