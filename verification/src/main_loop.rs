//! One tick of the device: sample the button, navigate, light the indicator,
//! draw the screen, advance the animation.
//!
//! The caller owns the hardware. Each tick it reads the input line, the clock
//! and a random number, hands them in, and carries out what comes back.

use vstd::prelude::*;
use crate::animation::{standard_timing, AnimationState, BlinkTiming};
use crate::button::{gesture, gesture_of, DebouncedButtonState, EdgeEvent, Gesture};
use crate::navigation::{
    handle_long_press, handle_short_press, on_long_press, on_short_press, UiState, MENU_ENTRIES,
};
use crate::screens::{face_ops, face_screen, frame, frame_ops, painted, DrawOp};
use crate::weather::WeatherReport;

verus! {

/// Time between two ticks, in milliseconds.
pub const TICK_MS: u64 = 20;

/// What the caller reads at the start of a tick.
#[derive(Clone, Copy, Debug, PartialEq, Eq, Structural)]
pub struct Reading {
    /// True while the button is physically down.
    pub raw: bool,
    /// The time in milliseconds.
    pub now: u64,
    /// A fresh random number for the blink.
    pub blink_entropy: u64,
    /// A fresh random number for the idle expression.
    pub idle_entropy: u64,
}

/// What the caller carries out at the end of a tick.
#[derive(Debug)]
pub struct TickOutcome {
    /// The edge that the sample completed.
    pub event: Option<EdgeEvent>,
    /// The gesture that the edge completed, which has been applied.
    pub gesture: Option<Gesture>,
    /// The level of the indicator: on while the button counts as pressed.
    pub led_on: bool,
    /// The drawing operations for the screen.
    pub frame: Vec<DrawOp>,
    /// Whether the blink changed phase in sight, on the home screen.
    pub blink_redraw: bool,
    /// Whether the idle expression changed phase in sight, on the home screen.
    pub idle_redraw: bool,
    /// The drawing operations for the face, to carry out after those for the
    /// screen: the face drawn anew once when a timer changed phase in sight,
    /// nothing otherwise.
    pub face: Vec<DrawOp>,
}

/// The state of the device between two ticks.
#[derive(Clone, Copy, Debug, PartialEq, Eq, Structural)]
pub struct MainLoop {
    /// The debouncer of the button.
    pub button: DebouncedButtonState,
    /// The screen shown.
    pub ui_state: UiState,
    /// The selected menu entry.
    pub option_index: u8,
    /// The blink of the face.
    pub blink: AnimationState,
    /// The idle expression of the face, where there is one.
    pub idle: Option<AnimationState>,
}

/// The screen and the selection once a gesture has been applied.
pub open spec fn navigated(ui_state: UiState, option_index: u8, gesture: Option<Gesture>) -> (
    UiState,
    u8,
) {
    match gesture {
        Some(Gesture::Long) => (on_long_press(ui_state, option_index), option_index),
        Some(Gesture::Short) => on_short_press(ui_state, option_index),
        None => (ui_state, option_index),
    }
}

impl MainLoop {
    /// The selection is a menu entry and the timers are well formed.
    pub open spec fn wf(self) -> bool {
        &&& self.option_index < MENU_ENTRIES
        &&& self.blink.wf()
        &&& self.idle matches Some(timer) ==> timer.wf()
    }

    /// Whether the idle expression shows: there is one and it is in its
    /// short phase.
    pub open spec fn shows_expression(self) -> bool {
        self.idle matches Some(timer) && !timer.eyes_open
    }

    /// The edge that a reading completes.
    pub open spec fn event_on(self, reading: Reading) -> Option<EdgeEvent> {
        self.button.event_on(reading.raw, reading.now)
    }

    /// The gesture that a reading completes.
    pub open spec fn gesture_on(self, reading: Reading) -> Option<Gesture> {
        gesture_of(
            self.event_on(reading),
            self.button.after(reading.raw, reading.now).long_fired,
        )
    }

    /// The state after a tick. The button takes the sample, the gesture it
    /// completes moves the screen and the selection, and both timers advance
    /// whatever the button did.
    pub open spec fn after(self, reading: Reading) -> Self {
        let moved = navigated(self.ui_state, self.option_index, self.gesture_on(reading));
        MainLoop {
            button: self.button.after(reading.raw, reading.now),
            ui_state: moved.0,
            option_index: moved.1,
            blink: self.blink.after(reading.now, reading.blink_entropy),
            idle: match self.idle {
                Some(timer) => Some(timer.after(reading.now, reading.idle_entropy)),
                None => None,
            },
        }
    }

    /// Computes [`Self::wf`].
    pub fn is_well_formed(&self) -> (ok: bool)
        ensures
            ok == self.wf(),
    {
        self.option_index < MENU_ENTRIES && self.blink.is_well_formed() && match self.idle {
            Some(timer) => timer.is_well_formed(),
            None => true,
        }
    }

    /// The device at start-up: the home screen, the first menu entry, the
    /// button released, the eyes open, no idle expression.
    pub fn new(now: u64, entropy: u64) -> (device: Self)
        ensures
            device == (MainLoop {
                button: DebouncedButtonState {
                    stable: false,
                    raw_last: false,
                    changed_at: now,
                    pressed_at: now,
                    long_fired: false,
                },
                ui_state: UiState::Home,
                option_index: 0,
                blink: AnimationState {
                    eyes_open: true,
                    last_toggle: now,
                    blink_interval: standard_timing().open_interval(entropy),
                    timing: standard_timing(),
                },
                idle: None,
            }),
            device.wf(),
    {
        MainLoop {
            button: DebouncedButtonState::new(now),
            ui_state: UiState::Home,
            option_index: 0,
            blink: AnimationState::new(BlinkTiming::standard(), now, entropy),
            idle: None,
        }
    }

    /// Adds an idle expression with its own timing, starting at `now`.
    pub fn with_idle(self, timing: BlinkTiming, now: u64, entropy: u64) -> (device: Self)
        requires
            self.wf(),
            timing.wf(),
        ensures
            device == (MainLoop {
                idle: Some(
                    AnimationState {
                        eyes_open: true,
                        last_toggle: now,
                        blink_interval: timing.open_interval(entropy),
                        timing,
                    },
                ),
                ..self
            }),
            device.wf(),
    {
        MainLoop { idle: Some(AnimationState::new(timing, now, entropy)), ..self }
    }

    /// Samples the button and applies the gesture that the sample completes:
    /// a long press when it fires, a short press when the button is released
    /// without a long press having fired.
    pub fn navigate(&mut self, raw: bool, now: u64) -> (done: (Option<EdgeEvent>, Option<Gesture>))
        ensures
            final(self).button == old(self).button.after(raw, now),
            done.0 == old(self).button.event_on(raw, now),
            done.1 == gesture_of(done.0, final(self).button.long_fired),
            (final(self).ui_state, final(self).option_index) == navigated(
                old(self).ui_state,
                old(self).option_index,
                done.1,
            ),
            old(self).option_index < MENU_ENTRIES ==> final(self).option_index < MENU_ENTRIES,
            final(self).blink == old(self).blink,
            final(self).idle == old(self).idle,
    {
        let event: Option<EdgeEvent> = self.button.sample(raw, now);
        let done: Option<Gesture> = gesture(event, self.button.long_fired);
        match done {
            Some(Gesture::Long) => {
                handle_long_press(&mut self.ui_state, self.option_index);
            },
            Some(Gesture::Short) => {
                handle_short_press(&mut self.ui_state, &mut self.option_index);
            },
            None => {},
        }
        (event, done)
    }

    /// Runs one tick.
    ///
    /// The screen is drawn as it stands after the gesture of this tick. The
    /// timers advance on every tick; a change of phase has the face drawn
    /// anew, once, and only while the home screen is shown.
    pub fn tick(&mut self, reading: Reading, formatted_time: &str, weather: &WeatherReport) -> (outcome:
        TickOutcome)
        requires
            old(self).wf(),
        ensures
            *final(self) == old(self).after(reading),
            final(self).wf(),
            outcome.event == old(self).event_on(reading),
            outcome.gesture == old(self).gesture_on(reading),
            outcome.led_on == final(self).button.stable,
            painted(outcome.frame@) == frame_ops(
                final(self).ui_state,
                final(self).option_index,
                final(self).button.stable,
                formatted_time@,
                weather@,
            ),
            outcome.blink_redraw == (final(self).ui_state == UiState::Home && old(self).blink.due(
                reading.now,
            )),
            outcome.idle_redraw == (final(self).ui_state == UiState::Home && (old(
                self,
            ).idle matches Some(timer) && timer.due(reading.now))),
            painted(outcome.face@) == if outcome.blink_redraw || outcome.idle_redraw {
                face_ops(final(self).blink.eyes_open, final(self).shows_expression())
            } else {
                Seq::empty()
            },
    {
        let done: (Option<EdgeEvent>, Option<Gesture>) = self.navigate(reading.raw, reading.now);
        let led_on: bool = self.button.is_down();
        let ops: Vec<DrawOp> = frame(
            self.ui_state,
            self.option_index,
            led_on,
            formatted_time,
            weather,
        );
        let blink_changed: bool = self.blink.advance(reading.now, reading.blink_entropy);
        let idle_changed: bool = match self.idle {
            Some(timer) => {
                let mut timer: AnimationState = timer;
                let changed: bool = timer.advance(reading.now, reading.idle_entropy);
                self.idle = Some(timer);
                changed
            },
            None => false,
        };
        let at_home: bool = self.ui_state == UiState::Home;
        let face: Vec<DrawOp> = if at_home && (blink_changed || idle_changed) {
            let expression: bool = match self.idle {
                Some(timer) => !timer.eyes_open,
                None => false,
            };
            face_screen(self.blink.eyes_open, expression)
        } else {
            let nothing: Vec<DrawOp> = Vec::new();
            assert(painted(nothing@) =~= Seq::empty());
            nothing
        };
        TickOutcome {
            event: done.0,
            gesture: done.1,
            led_on,
            frame: ops,
            blink_redraw: at_home && blink_changed,
            idle_redraw: at_home && idle_changed,
            face,
        }
    }
}

} // verus!
