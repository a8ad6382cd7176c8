//! What holds of the device over whole runs of ticks.

use vstd::prelude::*;
use crate::animation::{AnimationState, Tick};
use crate::button::{Sample, DEBOUNCE_MS, LONG_PRESS_MS};
use crate::button_laws::{
    all_read, bounces, eventful, holding, in_time_order, lemma_bounce_changes_nothing,
    lemma_long_press_fires_once, lemma_short_press_completes_once,
};
use crate::main_loop::{MainLoop, Reading};
use crate::navigation::{on_long_press, on_short_press};

verus! {

/// The state of the device after a run of ticks.
pub open spec fn run(device: MainLoop, readings: Seq<Reading>) -> MainLoop
    decreases readings.len(),
{
    if readings.len() == 0 {
        device
    } else {
        run(device, readings.drop_last()).after(readings.last())
    }
}

/// What the button gets to see of a run of ticks.
pub open spec fn samples_of(readings: Seq<Reading>) -> Seq<Sample> {
    Seq::new(readings.len(), |i: int| Sample { raw: readings[i].raw, now: readings[i].now })
}

/// What the blink gets to see of a run of ticks.
pub open spec fn blink_ticks_of(readings: Seq<Reading>) -> Seq<Tick> {
    Seq::new(
        readings.len(),
        |i: int| Tick { now: readings[i].now, entropy: readings[i].blink_entropy },
    )
}

/// What the idle expression gets to see of a run of ticks.
pub open spec fn idle_ticks_of(readings: Seq<Reading>) -> Seq<Tick> {
    Seq::new(
        readings.len(),
        |i: int| Tick { now: readings[i].now, entropy: readings[i].idle_entropy },
    )
}

/// The parts of the device run side by side. The button goes through a run
/// of ticks as it would on its own, whatever the screen and the timers do;
/// and each timer advances as it would on its own, whatever the button and
/// the screen do. The device stays well formed.
pub proof fn lemma_parts_run_alone(device: MainLoop, readings: Seq<Reading>)
    ensures
        run(device, readings).button == crate::button_laws::run(
            device.button,
            samples_of(readings),
        ),
        run(device, readings).blink == crate::animation::run(
            device.blink,
            blink_ticks_of(readings),
        ),
        run(device, readings).idle == match device.idle {
            Some(timer) => Some(crate::animation::run(timer, idle_ticks_of(readings))),
            None => None::<AnimationState>,
        },
        device.wf() ==> run(device, readings).wf(),
    decreases readings.len(),
{
    if readings.len() > 0 {
        let earlier = readings.drop_last();
        lemma_parts_run_alone(device, earlier);
        assert(samples_of(readings).drop_last() =~= samples_of(earlier));
        assert(blink_ticks_of(readings).drop_last() =~= blink_ticks_of(earlier));
        assert(idle_ticks_of(readings).drop_last() =~= idle_ticks_of(earlier));
        if device.wf() {
            let before = run(device, earlier);
            crate::animation::lemma_blink_step(
                before.blink,
                readings.last().now,
                readings.last().blink_entropy,
            );
            if let Some(timer) = before.idle {
                crate::animation::lemma_blink_step(
                    timer,
                    readings.last().now,
                    readings.last().idle_entropy,
                );
            }
        }
    }
}

/// Ticks without an event leave the screen and the selection as they are.
pub proof fn lemma_no_event_no_move(device: MainLoop, readings: Seq<Reading>)
    requires
        eventful(device.button, samples_of(readings)) == 0,
    ensures
        run(device, readings).ui_state == device.ui_state,
        run(device, readings).option_index == device.option_index,
    decreases readings.len(),
{
    if readings.len() > 0 {
        let earlier = readings.drop_last();
        assert(samples_of(readings).drop_last() =~= samples_of(earlier));
        lemma_no_event_no_move(device, earlier);
        lemma_parts_run_alone(device, earlier);
    }
}

/// A bouncing button never moves the screen or the selection, and never
/// lights the indicator that was off.
pub proof fn lemma_bounce_keeps_screen(device: MainLoop, readings: Seq<Reading>)
    requires
        bounces(device.button, samples_of(readings)),
    ensures
        run(device, readings).ui_state == device.ui_state,
        run(device, readings).option_index == device.option_index,
        run(device, readings).button.stable == device.button.stable,
{
    lemma_bounce_changes_nothing(device.button, samples_of(readings));
    lemma_no_event_no_move(device, readings);
    lemma_parts_run_alone(device, readings);
}

/// A press that is held acts as a long press once, when it fires, and not
/// again however long the hold goes on: the screen is the one that a single
/// long press leads to as soon as the latest tick lies at least the threshold
/// after the press was accepted, and the screen it was before that. The
/// selection stays.
pub proof fn lemma_long_press_acts_once(device: MainLoop, held: Seq<Reading>)
    requires
        holding(device.button),
        !device.button.long_fired,
        all_read(samples_of(held), true),
        in_time_order(samples_of(held), device.button.pressed_at),
    ensures
        run(device, held).option_index == device.option_index,
        run(device, held).ui_state == if held.len() > 0 && held.last().now
            - device.button.pressed_at >= LONG_PRESS_MS {
            on_long_press(device.ui_state, device.option_index)
        } else {
            device.ui_state
        },
    decreases held.len(),
{
    if held.len() > 0 {
        let earlier = held.drop_last();
        let samples = samples_of(held);
        let before = samples_of(earlier);
        assert(samples.drop_last() =~= before);
        assert(in_time_order(before, device.button.pressed_at)) by {
            assert forall|i: int| 0 <= i < before.len() implies device.button.pressed_at <= (
            #[trigger] before[i]).now by {
                assert(before[i] == samples[i]);
            }
            assert forall|i: int, j: int| 0 <= i <= j < before.len() implies (
            #[trigger] before[i]).now <= (#[trigger] before[j]).now by {
                assert(before[i] == samples[i]);
                assert(before[j] == samples[j]);
            }
        }
        assert(all_read(before, true)) by {
            assert forall|i: int| 0 <= i < before.len() implies (#[trigger] before[i]).raw by {
                assert(before[i] == samples[i]);
            }
        }
        lemma_long_press_acts_once(device, earlier);
        lemma_long_press_fires_once(device.button, before);
        lemma_parts_run_alone(device, earlier);
        let last = samples[samples.len() - 1];
        assert(last.raw && device.button.pressed_at <= last.now);
        assert(last.now == held.last().now);
        if earlier.len() > 0 {
            assert(before.last() == samples[samples.len() - 2]);
            assert(samples[samples.len() - 2].now <= samples[samples.len() - 1].now);
            assert(before.last().now == earlier.last().now);
        }
    }
}

/// A press that is let go before the long-press threshold acts as a short
/// press once and as nothing else. Under the conditions of the law of the
/// short press for the button, the screen and the selection at the end are
/// those that a single short press leads to.
pub proof fn lemma_short_press_acts_once(
    device: MainLoop,
    held: Seq<Reading>,
    lifted: Seq<Reading>,
)
    requires
        holding(device.button),
        !device.button.long_fired,
        all_read(samples_of(held), true),
        all_read(samples_of(lifted), false),
        in_time_order(samples_of(held + lifted), device.button.pressed_at),
        forall|i: int|
            0 <= i < (held + lifted).len() ==> (#[trigger] (held + lifted)[i]).now
                - device.button.pressed_at < LONG_PRESS_MS,
        lifted.len() > 0,
        lifted.last().now - lifted[0].now >= DEBOUNCE_MS,
        forall|i: int|
            0 <= i < lifted.len() - 1 ==> (#[trigger] lifted[i]).now - lifted[0].now < DEBOUNCE_MS,
    ensures
        (run(device, held + lifted).ui_state, run(device, held + lifted).option_index)
            == on_short_press(device.ui_state, device.option_index),
        !run(device, held + lifted).button.stable,
{
    let all = held + lifted;
    let pressed = samples_of(held);
    let let_go = samples_of(lifted);
    assert(samples_of(all) =~= pressed + let_go);
    assert forall|i: int| 0 <= i < (pressed + let_go).len() implies (#[trigger] (pressed
        + let_go)[i]).now - device.button.pressed_at < LONG_PRESS_MS by {
        assert((pressed + let_go)[i].now == all[i].now);
    }
    assert forall|i: int| 0 <= i < let_go.len() - 1 implies (#[trigger] let_go[i]).now
        - let_go[0].now < DEBOUNCE_MS by {
        assert(let_go[i].now == lifted[i].now);
    }
    lemma_short_press_completes_once(device.button, pressed, let_go);
    let earlier = all.drop_last();
    assert(samples_of(all).drop_last() =~= samples_of(earlier));
    lemma_no_event_no_move(device, earlier);
    lemma_parts_run_alone(device, earlier);
    lemma_parts_run_alone(device, all);
    assert(samples_of(all).last() == Sample { raw: all.last().raw, now: all.last().now });
}

} // verus!
