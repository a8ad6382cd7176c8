use pippo::animation::{AnimationState, BlinkTiming};
use pippo::button::{DebouncedButtonState, EdgeEvent, Gesture};
use pippo::main_loop::{MainLoop, Reading, TickOutcome, TICK_MS};
use pippo::navigation::UiState;
use pippo::screens::{face_screen, frame, DrawOp};
use pippo::weather::WeatherReport;

fn weather() -> WeatherReport {
    WeatherReport {
        temperature: "23.4".to_string(),
        condition: "Sunny".to_string(),
        humidity: 40,
    }
}

fn tick(device: &mut MainLoop, raw: bool, now: u64) -> TickOutcome {
    let reading = Reading { raw, now, blink_entropy: now, idle_entropy: now / 2 };
    device.tick(reading, "15/05 05:30", &weather())
}

/// Holds the button from `from` for `hold` milliseconds, then lets go until
/// `hold + 100` milliseconds have passed; returns the time after that.
fn press(device: &mut MainLoop, from: u64, hold: u64) -> (u64, Vec<Gesture>) {
    let mut gestures = Vec::new();
    let mut now = from;
    while now < from + hold + 100 {
        let outcome = tick(device, now < from + hold, now);
        if let Some(done) = outcome.gesture {
            gestures.push(done);
        }
        now += TICK_MS;
    }
    (now, gestures)
}

#[test]
fn tick_is_twenty_milliseconds() {
    assert_eq!(TICK_MS, 20);
}

#[test]
fn device_starts_at_home_with_the_first_entry_selected() {
    let device = MainLoop::new(1000, 12345);
    assert_eq!(
        device,
        MainLoop {
            button: DebouncedButtonState::new(1000),
            ui_state: UiState::Home,
            option_index: 0,
            blink: AnimationState::new(BlinkTiming::standard(), 1000, 12345),
            idle: None,
        }
    );
    assert_eq!(device.blink.blink_interval, 4341);
}

#[test]
fn idle_tick_draws_the_home_screen_and_leaves_the_indicator_off() {
    let mut device = MainLoop::new(0, 0);
    let before = device;
    let outcome = tick(&mut device, false, 20);
    assert_eq!(outcome.event, None);
    assert_eq!(outcome.gesture, None);
    assert!(!outcome.led_on);
    assert!(!outcome.blink_redraw);
    assert!(!outcome.idle_redraw);
    assert_eq!(outcome.face, Vec::<DrawOp>::new());
    assert_eq!(outcome.frame, frame(UiState::Home, 0, false, "15/05 05:30", &weather()));
    assert_eq!(device, before);
}

#[test]
fn indicator_follows_the_debounced_level() {
    let mut device = MainLoop::new(0, 0);
    assert!(!tick(&mut device, true, 0).led_on);
    assert!(!tick(&mut device, true, 20).led_on);
    let pressed = tick(&mut device, true, 40);
    assert_eq!(pressed.event, Some(EdgeEvent::Pressed));
    assert!(pressed.led_on);
    assert!(tick(&mut device, false, 60).led_on);
    assert!(tick(&mut device, false, 80).led_on);
    let released = tick(&mut device, false, 100);
    assert_eq!(released.event, Some(EdgeEvent::Released));
    assert_eq!(released.gesture, Some(Gesture::Short));
    assert!(!released.led_on);
}

#[test]
fn long_press_opens_the_menu_and_then_the_selected_entry() {
    let mut device = MainLoop::new(0, 0);
    let (now, gestures) = press(&mut device, 0, 2000);
    assert_eq!(gestures, vec![Gesture::Long]);
    assert_eq!(device.ui_state, UiState::Menu);
    assert_eq!(device.option_index, 0);

    let (now, gestures) = press(&mut device, now, 200);
    assert_eq!(gestures, vec![Gesture::Short]);
    assert_eq!((device.ui_state, device.option_index), (UiState::Menu, 1));

    let (now, gestures) = press(&mut device, now, 1700);
    assert_eq!(gestures, vec![Gesture::Long]);
    assert_eq!((device.ui_state, device.option_index), (UiState::Status, 1));

    let (now, gestures) = press(&mut device, now, 200);
    assert_eq!(gestures, vec![Gesture::Short]);
    assert_eq!((device.ui_state, device.option_index), (UiState::Menu, 0));

    let (now, _) = press(&mut device, now, 200);
    let (now, _) = press(&mut device, now, 200);
    assert_eq!((device.ui_state, device.option_index), (UiState::Menu, 2));
    let (now, _) = press(&mut device, now, 200);
    assert_eq!((device.ui_state, device.option_index), (UiState::Menu, 0));

    let (now, _) = press(&mut device, now, 1700);
    assert_eq!(device.ui_state, UiState::Settings);
    let (_, gestures) = press(&mut device, now, 1700);
    assert_eq!(gestures, vec![Gesture::Long]);
    assert_eq!(device.ui_state, UiState::Home);
}

#[test]
fn long_press_is_applied_when_it_fires_and_not_again_at_release() {
    let mut device = MainLoop::new(0, 0);
    let mut now: u64 = 0;
    let mut fired_at = None;
    while now <= 3000 {
        let outcome = tick(&mut device, now < 2500, now);
        if outcome.gesture == Some(Gesture::Long) {
            assert_eq!(fired_at, None);
            fired_at = Some(now);
            assert_eq!(device.ui_state, UiState::Menu);
        }
        if outcome.event == Some(EdgeEvent::Released) {
            assert_eq!(outcome.gesture, None);
        }
        now += TICK_MS;
    }
    assert_eq!(fired_at, Some(1640));
    assert_eq!(device.ui_state, UiState::Menu);
    assert_eq!(device.option_index, 0);
}

#[test]
fn short_press_at_home_does_nothing() {
    let mut device = MainLoop::new(0, 0);
    let (_, gestures) = press(&mut device, 0, 300);
    assert_eq!(gestures, vec![Gesture::Short]);
    assert_eq!((device.ui_state, device.option_index), (UiState::Home, 0));
}

#[test]
fn menu_is_not_drawn_while_the_button_is_held() {
    let mut device = MainLoop::new(0, 0);
    let (now, _) = press(&mut device, 0, 1700);
    assert_eq!(device.ui_state, UiState::Menu);
    let idle = tick(&mut device, false, now);
    assert_eq!(idle.frame, frame(UiState::Menu, 0, false, "15/05 05:30", &weather()));
    assert_eq!(idle.frame.len(), 6);
    tick(&mut device, true, now + 20);
    let held = tick(&mut device, true, now + 60);
    assert_eq!(held.event, Some(EdgeEvent::Pressed));
    assert!(held.led_on);
    assert_eq!(held.frame, Vec::<DrawOp>::new());
}

#[test]
fn blink_asks_for_a_redraw_only_on_the_home_screen() {
    let mut device = MainLoop::new(0, 0);
    assert_eq!(device.blink.blink_interval, 4000);
    let mut now: u64 = 20;
    while now < 4000 {
        assert!(!tick(&mut device, false, now).blink_redraw);
        now += TICK_MS;
    }
    let closing = tick(&mut device, false, 4000);
    assert!(closing.blink_redraw);
    assert_eq!(closing.face, face_screen(false, false));
    assert!(!device.blink.eyes_open);
    let waiting = tick(&mut device, false, 4020);
    assert!(!waiting.blink_redraw);
    assert_eq!(waiting.face, Vec::<DrawOp>::new());
    let opening = tick(&mut device, false, 4100);
    assert!(opening.blink_redraw);
    assert_eq!(opening.face, face_screen(true, false));
    assert!(device.blink.eyes_open);
    assert_eq!(device.blink.blink_interval, 4000 + 4100 % 3001);

    let mut away = MainLoop::new(0, 0);
    away.ui_state = UiState::Settings;
    let hidden = tick(&mut away, false, 4000);
    assert!(!hidden.blink_redraw);
    assert_eq!(hidden.face, Vec::<DrawOp>::new());
    assert!(!away.blink.eyes_open);
    assert_eq!(away.blink.last_toggle, 4000);
}

#[test]
fn idle_expression_runs_beside_the_blink() {
    let timing = BlinkTiming::new(1000, 1000, 500).unwrap();
    let mut device = MainLoop::new(0, 0).with_idle(timing, 0, 7);
    assert_eq!(
        device.idle,
        Some(AnimationState { eyes_open: true, last_toggle: 0, blink_interval: 1000, timing })
    );
    let mut idle_redraws = Vec::new();
    let mut blink_redraws = Vec::new();
    let mut now: u64 = 20;
    while now <= 4200 {
        let outcome = tick(&mut device, false, now);
        let expected = match now {
            1000 | 2500 => face_screen(true, true),
            1500 | 3000 => face_screen(true, false),
            4000 => face_screen(false, true),
            4100 => face_screen(true, true),
            _ => Vec::new(),
        };
        assert_eq!(outcome.face, expected);
        if outcome.idle_redraw {
            idle_redraws.push(now);
        }
        if outcome.blink_redraw {
            blink_redraws.push(now);
        }
        now += TICK_MS;
    }
    assert_eq!(idle_redraws, vec![1000, 1500, 2500, 3000, 4000]);
    assert_eq!(blink_redraws, vec![4000, 4100]);
}

#[test]
fn well_formed_means_a_menu_entry_and_intervals_in_range() {
    let mut device = MainLoop::new(0, 0);
    assert!(device.is_well_formed());
    device.option_index = 3;
    assert!(!device.is_well_formed());
    device.option_index = 2;
    assert!(device.is_well_formed());
    device.blink.blink_interval = 3999;
    assert!(!device.is_well_formed());
    device.blink.blink_interval = 7000;
    assert!(device.is_well_formed());
    device.blink.blink_interval = 7001;
    assert!(!device.is_well_formed());
    device.blink.blink_interval = 5000;
    device.idle = Some(AnimationState {
        eyes_open: false,
        last_toggle: 0,
        blink_interval: 5,
        timing: BlinkTiming { min_open_ms: 6, max_open_ms: 9, close_hold_ms: 1 },
    });
    assert!(!device.is_well_formed());
    device.idle = Some(AnimationState {
        eyes_open: false,
        last_toggle: 0,
        blink_interval: 5,
        timing: BlinkTiming { min_open_ms: 9, max_open_ms: 1, close_hold_ms: 1 },
    });
    assert!(!device.is_well_formed());
    assert!(!BlinkTiming { min_open_ms: 9, max_open_ms: 1, close_hold_ms: 1 }.is_well_formed());
}

#[test]
fn navigate_moves_the_screen_and_leaves_the_timers_alone() {
    let mut device = MainLoop::new(0, 0);
    let blink = device.blink;
    assert_eq!(device.navigate(true, 0), (None, None));
    assert_eq!(device.navigate(true, 30), (Some(EdgeEvent::Pressed), None));
    assert_eq!(
        device.navigate(true, 5000),
        (Some(EdgeEvent::LongPress), Some(Gesture::Long))
    );
    assert_eq!(device.ui_state, UiState::Menu);
    assert_eq!(device.navigate(false, 5010), (None, None));
    assert_eq!(device.navigate(false, 5040), (Some(EdgeEvent::Released), None));
    assert_eq!(device.ui_state, UiState::Menu);
    assert_eq!(device.blink, blink);
    assert_eq!(device.idle, None);
}
