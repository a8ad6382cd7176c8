use pippo::button::{
    gesture, DebouncedButtonState, EdgeEvent, Gesture, DEBOUNCE_MS, LONG_PRESS_MS,
};
use pippo::clock::elapsed;

/// Feeds the samples in order and collects what each one reports.
fn feed(state: &mut DebouncedButtonState, samples: &[(bool, u64)]) -> Vec<Option<EdgeEvent>> {
    let mut events = Vec::new();
    for (raw, now) in samples {
        events.push(state.sample(*raw, *now));
    }
    events
}

#[test]
fn constants_are_thirty_and_sixteen_hundred_milliseconds() {
    assert_eq!(DEBOUNCE_MS, 30);
    assert_eq!(LONG_PRESS_MS, 1600);
}

#[test]
fn new_button_is_released_with_timers_at_start() {
    let state = DebouncedButtonState::new(500);
    assert_eq!(
        state,
        DebouncedButtonState {
            stable: false,
            raw_last: false,
            changed_at: 500,
            pressed_at: 500,
            long_fired: false,
        }
    );
    assert!(!state.is_down());
}

#[test]
fn elapsed_is_the_difference_and_never_negative() {
    assert_eq!(elapsed(130, 100), 30);
    assert_eq!(elapsed(100, 100), 0);
    assert_eq!(elapsed(100, 130), 0);
    assert_eq!(elapsed(u64::MAX, 0), u64::MAX);
}

#[test]
fn bouncing_input_emits_no_events() {
    let mut state = DebouncedButtonState::new(0);
    let events = feed(
        &mut state,
        &[(true, 0), (false, 10), (true, 20), (true, 30), (true, 40)],
    );
    assert_eq!(events, vec![None, None, None, None, None]);
    assert!(!state.stable);
    assert_eq!(state.changed_at, 20);
    assert!(state.raw_last);
}

#[test]
fn input_that_flips_every_ten_milliseconds_never_registers() {
    let mut state = DebouncedButtonState::new(0);
    let mut now: u64 = 0;
    let mut raw = true;
    for _ in 0..500 {
        assert_eq!(state.sample(raw, now), None);
        assert!(!state.stable);
        assert!(!state.long_fired);
        assert_eq!(state.pressed_at, 0);
        raw = !raw;
        now += 10;
    }
}

#[test]
fn level_is_accepted_exactly_at_the_debounce_window() {
    let mut state = DebouncedButtonState::new(0);
    assert_eq!(state.sample(true, 100), None);
    assert_eq!(state.sample(true, 129), None);
    assert!(!state.is_down());
    assert_eq!(state.sample(true, 130), Some(EdgeEvent::Pressed));
    assert!(state.is_down());
    assert_eq!(state.pressed_at, 130);
    assert_eq!(state.changed_at, 100);
}

#[test]
fn press_shorter_than_the_window_is_ignored() {
    let mut state = DebouncedButtonState::new(0);
    let events = feed(
        &mut state,
        &[(false, 100), (true, 110), (true, 120), (false, 130), (false, 150), (false, 200)],
    );
    assert_eq!(events, vec![None, None, None, None, None, None]);
    assert!(!state.stable);
}

#[test]
fn held_for_two_seconds_fires_one_long_press_and_no_short_press() {
    let mut state = DebouncedButtonState::new(0);
    let mut seen: Vec<(u64, EdgeEvent)> = Vec::new();
    let mut gestures: Vec<(u64, Gesture)> = Vec::new();
    let mut now: u64 = 0;
    while now <= 2100 {
        let raw = now < 2000;
        let event = state.sample(raw, now);
        if let Some(edge) = event {
            seen.push((now, edge));
        }
        if let Some(done) = gesture(event, state.long_fired) {
            gestures.push((now, done));
        }
        now += 10;
    }
    assert_eq!(
        seen,
        vec![
            (30, EdgeEvent::Pressed),
            (1630, EdgeEvent::LongPress),
            (2030, EdgeEvent::Released),
        ]
    );
    assert_eq!(gestures, vec![(1630, Gesture::Long)]);
    assert!(!state.stable);
    assert!(state.long_fired);
}

#[test]
fn long_press_fires_exactly_at_the_threshold() {
    let mut state = DebouncedButtonState::new(0);
    assert_eq!(state.sample(true, 0), None);
    assert_eq!(state.sample(true, 30), Some(EdgeEvent::Pressed));
    assert_eq!(state.sample(true, 1629), None);
    assert!(!state.long_fired);
    assert_eq!(state.sample(true, 1630), Some(EdgeEvent::LongPress));
    assert!(state.long_fired);
    assert!(state.stable);
}

#[test]
fn long_press_never_repeats_while_held() {
    let mut state = DebouncedButtonState::new(0);
    let mut long_presses = 0;
    let mut now: u64 = 0;
    while now <= 20_000 {
        if state.sample(true, now) == Some(EdgeEvent::LongPress) {
            long_presses += 1;
        }
        now += 20;
    }
    assert_eq!(long_presses, 1);
    assert!(state.stable);
}

#[test]
fn short_press_gives_pressed_then_released_and_one_short_gesture() {
    let mut state = DebouncedButtonState::new(0);
    let mut seen: Vec<(u64, EdgeEvent)> = Vec::new();
    let mut gestures: Vec<(u64, Gesture)> = Vec::new();
    let mut now: u64 = 0;
    while now <= 1000 {
        let raw = (100..400).contains(&now);
        let event = state.sample(raw, now);
        if let Some(edge) = event {
            seen.push((now, edge));
        }
        if let Some(done) = gesture(event, state.long_fired) {
            gestures.push((now, done));
        }
        now += 20;
    }
    assert_eq!(seen, vec![(140, EdgeEvent::Pressed), (440, EdgeEvent::Released)]);
    assert_eq!(gestures, vec![(440, Gesture::Short)]);
    assert!(!state.long_fired);
}

#[test]
fn long_press_mark_is_cleared_by_the_next_press() {
    let mut state = DebouncedButtonState::new(0);
    feed(&mut state, &[(true, 0), (true, 30), (true, 1630), (false, 1700), (false, 1730)]);
    assert!(state.long_fired);
    assert!(!state.stable);
    assert_eq!(state.sample(true, 2000), None);
    assert!(state.long_fired);
    assert_eq!(state.sample(true, 2030), Some(EdgeEvent::Pressed));
    assert!(!state.long_fired);
    assert_eq!(state.pressed_at, 2030);
}

#[test]
fn press_that_ripens_on_the_release_sample_reports_the_long_press() {
    let mut state = DebouncedButtonState::new(0);
    assert_eq!(state.sample(true, 0), None);
    assert_eq!(state.sample(true, 30), Some(EdgeEvent::Pressed));
    assert_eq!(state.sample(true, 1600), None);
    assert_eq!(state.sample(false, 1610), None);
    let event = state.sample(false, 1640);
    assert_eq!(event, Some(EdgeEvent::LongPress));
    assert!(!state.stable);
    assert!(state.long_fired);
    assert_eq!(gesture(event, state.long_fired), Some(Gesture::Long));
    assert_eq!(state.sample(false, 1660), None);
}

#[test]
fn clock_that_runs_backwards_counts_as_no_time_passed() {
    let mut state = DebouncedButtonState::new(1000);
    assert_eq!(state.sample(true, 1000), None);
    assert_eq!(state.sample(true, 900), None);
    assert!(!state.stable);
    assert_eq!(state.sample(true, 1030), Some(EdgeEvent::Pressed));
}

#[test]
fn gesture_of_each_event() {
    assert_eq!(gesture(None, false), None);
    assert_eq!(gesture(None, true), None);
    assert_eq!(gesture(Some(EdgeEvent::Pressed), false), None);
    assert_eq!(gesture(Some(EdgeEvent::Pressed), true), None);
    assert_eq!(gesture(Some(EdgeEvent::LongPress), true), Some(Gesture::Long));
    assert_eq!(gesture(Some(EdgeEvent::Released), false), Some(Gesture::Short));
    assert_eq!(gesture(Some(EdgeEvent::Released), true), None);
}
