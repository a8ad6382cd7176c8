//! What holds of the debouncer over whole runs of samples.

use vstd::prelude::*;
use crate::button::{
    gesture_of, DebouncedButtonState, EdgeEvent, Gesture, Sample, DEBOUNCE_MS, LONG_PRESS_MS,
};
use crate::clock::elapsed_ms;

verus! {

/// The state after a run of samples.
pub open spec fn run(state: DebouncedButtonState, samples: Seq<Sample>) -> DebouncedButtonState
    decreases samples.len(),
{
    if samples.len() == 0 {
        state
    } else {
        run(state, samples.drop_last()).after(samples.last().raw, samples.last().now)
    }
}

/// The event that the latest sample of a run gives rise to.
pub open spec fn last_event(state: DebouncedButtonState, samples: Seq<Sample>) -> Option<
    EdgeEvent,
>
    recommends
        samples.len() > 0,
{
    run(state, samples.drop_last()).event_on(samples.last().raw, samples.last().now)
}

/// The gesture that the latest sample of a run completes.
pub open spec fn last_gesture(state: DebouncedButtonState, samples: Seq<Sample>) -> Option<
    Gesture,
>
    recommends
        samples.len() > 0,
{
    gesture_of(last_event(state, samples), run(state, samples).long_fired)
}

/// How often a run of samples gives rise to the event `what`.
pub open spec fn fired(state: DebouncedButtonState, samples: Seq<Sample>, what: EdgeEvent) -> nat
    decreases samples.len(),
{
    if samples.len() == 0 {
        0
    } else {
        fired(state, samples.drop_last(), what) + if last_event(state, samples) == Some(what) {
            1nat
        } else {
            0nat
        }
    }
}

/// How often a run of samples completes the gesture `what`.
pub open spec fn gestures(state: DebouncedButtonState, samples: Seq<Sample>, what: Gesture) -> nat
    decreases samples.len(),
{
    if samples.len() == 0 {
        0
    } else {
        gestures(state, samples.drop_last(), what) + if last_gesture(state, samples) == Some(
            what,
        ) {
            1nat
        } else {
            0nat
        }
    }
}

/// How many samples of a run give rise to any event at all.
pub open spec fn eventful(state: DebouncedButtonState, samples: Seq<Sample>) -> nat
    decreases samples.len(),
{
    if samples.len() == 0 {
        0
    } else {
        eventful(state, samples.drop_last()) + if last_event(state, samples).is_some() {
            1nat
        } else {
            0nat
        }
    }
}

/// When the raw level of the latest sample began: the time of the latest
/// sample whose level differs from the one before it, or the time that the
/// state remembers when the level has not changed during the run.
pub open spec fn level_since(state: DebouncedButtonState, samples: Seq<Sample>) -> u64
    decreases samples.len(),
{
    if samples.len() == 0 {
        state.changed_at
    } else {
        let earlier = samples.drop_last();
        let previous = if earlier.len() == 0 {
            state.raw_last
        } else {
            earlier.last().raw
        };
        if samples.last().raw != previous {
            samples.last().now
        } else {
            level_since(state, earlier)
        }
    }
}

/// The input bounces: every sample comes before the level it reads has held
/// for the debounce window.
pub open spec fn bounces(state: DebouncedButtonState, samples: Seq<Sample>) -> bool {
    forall|i: int|
        0 <= i < samples.len() ==> elapsed_ms(
            samples[i].now,
            #[trigger] level_since(state, samples.take(i + 1)),
        ) < DEBOUNCE_MS
}

/// The samples come in the order of their times, none before `from`.
pub open spec fn in_time_order(samples: Seq<Sample>, from: u64) -> bool {
    &&& forall|i: int| 0 <= i < samples.len() ==> from <= (#[trigger] samples[i]).now
    &&& forall|i: int, j: int|
        0 <= i <= j < samples.len() ==> (#[trigger] samples[i]).now <= (#[trigger] samples[j]).now
}

/// Every sample reads the level `raw`.
pub open spec fn all_read(samples: Seq<Sample>, raw: bool) -> bool {
    forall|i: int| 0 <= i < samples.len() ==> (#[trigger] samples[i]).raw == raw
}

/// A press has been accepted and the button has not let go since.
pub open spec fn holding(state: DebouncedButtonState) -> bool {
    &&& state.stable
    &&& state.raw_last
    &&& elapsed_ms(state.pressed_at, state.changed_at) >= DEBOUNCE_MS
}

/// Whether a press is in progress that has not yet completed a gesture.
pub open spec fn owes_gesture(state: DebouncedButtonState) -> nat {
    if state.stable && !state.long_fired {
        1
    } else {
        0
    }
}

/// What a single sample can and cannot do. The debounced level changes only
/// to the raw level, and only once that level has held for the debounce
/// window; it rises with `Pressed` and falls with `Released` or, where the
/// press ripens on that very sample, with `LongPress`. The long-press mark is
/// set by `LongPress` alone and cleared by `Pressed` alone.
pub proof fn lemma_sample_edges(state: DebouncedButtonState, raw: bool, now: u64)
    ensures
        state.after(raw, now).stable != state.stable ==> state.after(raw, now).stable == raw
            && state.settled(raw, now),
        state.event_on(raw, now) == Some(EdgeEvent::Pressed) <==> !state.stable && state.after(
            raw,
            now,
        ).stable,
        state.event_on(raw, now) == Some(EdgeEvent::Released) ==> state.stable && !state.after(
            raw,
            now,
        ).stable,
        state.stable && !state.after(raw, now).stable ==> state.event_on(raw, now) == Some(
            EdgeEvent::Released,
        ) || state.event_on(raw, now) == Some(EdgeEvent::LongPress),
        state.event_on(raw, now) == Some(EdgeEvent::LongPress) <==> !state.long_fired
            && state.after(raw, now).long_fired,
        state.long_fired && !state.after(raw, now).long_fired ==> state.event_on(raw, now)
            == Some(EdgeEvent::Pressed),
        state.event_on(raw, now) is None ==> state.after(raw, now) == state.noted(raw, now),
{
}

/// An accepted press starts a hold: right after `Pressed` the press is
/// stamped with the time of the sample and no long press has fired for it.
pub proof fn lemma_pressed_starts_hold(state: DebouncedButtonState, raw: bool, now: u64)
    requires
        state.event_on(raw, now) == Some(EdgeEvent::Pressed),
    ensures
        holding(state.after(raw, now)),
        !state.after(raw, now).long_fired,
        state.after(raw, now).pressed_at == now,
{
}

/// The debouncer keeps track of the raw level: after a run its timer stands at
/// the time the level of the latest sample began.
pub proof fn lemma_run_tracks_level(state: DebouncedButtonState, samples: Seq<Sample>)
    ensures
        run(state, samples).changed_at == level_since(state, samples),
        run(state, samples).raw_last == if samples.len() == 0 {
            state.raw_last
        } else {
            samples.last().raw
        },
    decreases samples.len(),
{
    if samples.len() > 0 {
        lemma_run_tracks_level(state, samples.drop_last());
    }
}

/// A run over two stretches of samples is the run over the second stretch
/// from where the first one ended, and the samples with an event add up.
pub proof fn lemma_run_in_two(
    state: DebouncedButtonState,
    first: Seq<Sample>,
    second: Seq<Sample>,
)
    ensures
        run(state, first + second) == run(run(state, first), second),
        eventful(state, first + second) == eventful(state, first) + eventful(
            run(state, first),
            second,
        ),
    decreases second.len(),
{
    if second.len() == 0 {
        assert(first + second =~= first);
    } else {
        lemma_run_in_two(state, first, second.drop_last());
        assert((first + second).drop_last() =~= first + second.drop_last());
        assert((first + second).last() == second.last());
    }
}

/// Over two stretches of samples the counts of an event add up.
pub proof fn lemma_fired_in_two(
    state: DebouncedButtonState,
    first: Seq<Sample>,
    second: Seq<Sample>,
    what: EdgeEvent,
)
    ensures
        fired(state, first + second, what) == fired(state, first, what) + fired(
            run(state, first),
            second,
            what,
        ),
    decreases second.len(),
{
    if second.len() == 0 {
        assert(first + second =~= first);
    } else {
        lemma_fired_in_two(state, first, second.drop_last(), what);
        lemma_run_in_two(state, first, second.drop_last());
        assert((first + second).drop_last() =~= first + second.drop_last());
        assert((first + second).last() == second.last());
    }
}

/// Over two stretches of samples the counts of a gesture add up.
pub proof fn lemma_gestures_in_two(
    state: DebouncedButtonState,
    first: Seq<Sample>,
    second: Seq<Sample>,
    what: Gesture,
)
    ensures
        gestures(state, first + second, what) == gestures(state, first, what) + gestures(
            run(state, first),
            second,
            what,
        ),
    decreases second.len(),
{
    if second.len() == 0 {
        assert(first + second =~= first);
    } else {
        lemma_gestures_in_two(state, first, second.drop_last(), what);
        lemma_run_in_two(state, first, second.drop_last());
        lemma_run_in_two(state, first, second);
        assert((first + second).drop_last() =~= first + second.drop_last());
        assert((first + second).last() == second.last());
    }
}

/// While the input bounces, nothing happens: the debounced level, the stamp of
/// the press and the long-press mark stay as they are, and no sample gives
/// rise to an event.
pub proof fn lemma_bounce_changes_nothing(state: DebouncedButtonState, samples: Seq<Sample>)
    requires
        bounces(state, samples),
    ensures
        run(state, samples).stable == state.stable,
        run(state, samples).pressed_at == state.pressed_at,
        run(state, samples).long_fired == state.long_fired,
        eventful(state, samples) == 0,
    decreases samples.len(),
{
    if samples.len() > 0 {
        let earlier = samples.drop_last();
        assert forall|i: int| 0 <= i < earlier.len() implies elapsed_ms(
            earlier[i].now,
            #[trigger] level_since(state, earlier.take(i + 1)),
        ) < DEBOUNCE_MS by {
            assert(earlier.take(i + 1) =~= samples.take(i + 1));
            assert(earlier[i] == samples[i]);
        }
        lemma_bounce_changes_nothing(state, earlier);
        lemma_run_tracks_level(state, earlier);
        lemma_run_tracks_level(state, samples);
        assert(samples.take(samples.len() as int) =~= samples);
        assert(elapsed_ms(
            samples[samples.len() - 1].now,
            level_since(state, samples.take(samples.len() - 1 + 1)),
        ) < DEBOUNCE_MS);
    }
}

/// Every accepted press completes exactly one gesture, whatever the input:
/// over any run, the gestures completed and the press still owing one at the
/// end add up to the presses accepted and the press that owed one at the start.
/// Long presses alone never outnumber the presses they belong to.
pub proof fn lemma_one_gesture_per_press(state: DebouncedButtonState, samples: Seq<Sample>)
    ensures
        gestures(state, samples, Gesture::Short) + gestures(state, samples, Gesture::Long)
            + owes_gesture(run(state, samples)) == fired(state, samples, EdgeEvent::Pressed)
            + owes_gesture(state),
        fired(state, samples, EdgeEvent::LongPress) == gestures(state, samples, Gesture::Long),
    decreases samples.len(),
{
    if samples.len() > 0 {
        lemma_one_gesture_per_press(state, samples.drop_last());
    }
}

/// A press that is held fires one long press, and only one, however long the
/// hold goes on: while the button stays down, the long press has fired once
/// if the latest sample lies at least the threshold after the press was
/// accepted, and not at all before that. Nothing else happens meanwhile.
pub proof fn lemma_long_press_fires_once(state: DebouncedButtonState, samples: Seq<Sample>)
    requires
        holding(state),
        !state.long_fired,
        all_read(samples, true),
        in_time_order(samples, state.pressed_at),
    ensures
        fired(state, samples, EdgeEvent::LongPress) == if samples.len() > 0 && samples.last().now
            - state.pressed_at >= LONG_PRESS_MS {
            1nat
        } else {
            0nat
        },
        gestures(state, samples, Gesture::Long) == fired(state, samples, EdgeEvent::LongPress),
        gestures(state, samples, Gesture::Short) == 0,
        eventful(state, samples) == fired(state, samples, EdgeEvent::LongPress),
        run(state, samples) == (DebouncedButtonState {
            long_fired: fired(state, samples, EdgeEvent::LongPress) == 1,
            ..state
        }),
    decreases samples.len(),
{
    if samples.len() > 0 {
        let earlier = samples.drop_last();
        assert(in_time_order(earlier, state.pressed_at)) by {
            assert forall|i: int| 0 <= i < earlier.len() implies state.pressed_at <= (
            #[trigger] earlier[i]).now by {
                assert(earlier[i] == samples[i]);
            }
            assert forall|i: int, j: int| 0 <= i <= j < earlier.len() implies (
            #[trigger] earlier[i]).now <= (#[trigger] earlier[j]).now by {
                assert(earlier[i] == samples[i]);
                assert(earlier[j] == samples[j]);
            }
        }
        assert(all_read(earlier, true)) by {
            assert forall|i: int| 0 <= i < earlier.len() implies (#[trigger] earlier[i]).raw by {
                assert(earlier[i] == samples[i]);
            }
        }
        lemma_long_press_fires_once(state, earlier);
        let last = samples[samples.len() - 1];
        assert(last.raw && state.pressed_at <= last.now);
        if earlier.len() > 0 {
            assert(earlier.last() == samples[samples.len() - 2]);
            assert(samples[samples.len() - 2].now <= samples[samples.len() - 1].now);
        }
    }
}

/// A press that is let go before the long-press threshold completes a short
/// press and nothing else. The button is held, then let go; every sample lies
/// less than the threshold after the press was accepted; the latest sample is
/// the first to find the button up for the debounce window. Then that sample
/// reports the release, which completes the one short press, and no sample
/// fires a long press.
pub proof fn lemma_short_press_completes_once(
    state: DebouncedButtonState,
    held: Seq<Sample>,
    lifted: Seq<Sample>,
)
    requires
        holding(state),
        !state.long_fired,
        all_read(held, true),
        all_read(lifted, false),
        in_time_order(held + lifted, state.pressed_at),
        forall|i: int|
            0 <= i < (held + lifted).len() ==> (#[trigger] (held + lifted)[i]).now
                - state.pressed_at < LONG_PRESS_MS,
        lifted.len() > 0,
        lifted.last().now - lifted[0].now >= DEBOUNCE_MS,
        forall|i: int|
            0 <= i < lifted.len() - 1 ==> (#[trigger] lifted[i]).now - lifted[0].now < DEBOUNCE_MS,
    ensures
        last_event(state, held + lifted) == Some(EdgeEvent::Released),
        last_gesture(state, held + lifted) == Some(Gesture::Short),
        eventful(state, held + lifted) == 1,
        gestures(state, held + lifted, Gesture::Short) == 1,
        gestures(state, held + lifted, Gesture::Long) == 0,
        fired(state, held + lifted, EdgeEvent::LongPress) == 0,
        !run(state, held + lifted).stable,
        !run(state, held + lifted).long_fired,
{
    let all = held + lifted;
    assert(in_time_order(held, state.pressed_at)) by {
        assert forall|i: int| 0 <= i < held.len() implies state.pressed_at <= (
        #[trigger] held[i]).now by {
            assert(held[i] == all[i]);
        }
        assert forall|i: int, j: int| 0 <= i <= j < held.len() implies (#[trigger] held[i]).now
            <= (#[trigger] held[j]).now by {
            assert(held[i] == all[i]);
            assert(held[j] == all[j]);
        }
    }
    lemma_long_press_fires_once(state, held);
    if held.len() > 0 {
        assert(held.last() == all[held.len() - 1]);
    }
    let mid = run(state, held);
    assert(mid == state);
    lemma_run_in_two(state, held, lifted);
    lemma_fired_in_two(state, held, lifted, EdgeEvent::LongPress);
    lemma_gestures_in_two(state, held, lifted, Gesture::Short);
    lemma_gestures_in_two(state, held, lifted, Gesture::Long);
    lemma_lifting(state, lifted, held.len() as int, all);
    let quiet = lifted.drop_last();
    assert(lifted =~= quiet.push(lifted.last()));
    assert(all.drop_last() =~= held + quiet);
    lemma_run_in_two(state, held, quiet);
    assert(lifted.last() == all[all.len() - 1]);
}

/// The button lets go of a press: the samples before the latest one leave the
/// press as it is and only note the new level; the latest one accepts the
/// release.
proof fn lemma_lifting(
    state: DebouncedButtonState,
    lifted: Seq<Sample>,
    offset: int,
    all: Seq<Sample>,
)
    requires
        holding(state),
        !state.long_fired,
        all_read(lifted, false),
        lifted.len() > 0,
        0 <= offset,
        all.len() == offset + lifted.len(),
        forall|i: int| 0 <= i < lifted.len() ==> lifted[i] == all[offset + i],
        in_time_order(all, state.pressed_at),
        forall|i: int|
            0 <= i < all.len() ==> (#[trigger] all[i]).now - state.pressed_at < LONG_PRESS_MS,
        lifted.last().now - lifted[0].now >= DEBOUNCE_MS,
        forall|i: int|
            0 <= i < lifted.len() - 1 ==> (#[trigger] lifted[i]).now - lifted[0].now < DEBOUNCE_MS,
    ensures
        run(state, lifted) == (DebouncedButtonState {
            stable: false,
            raw_last: false,
            changed_at: lifted[0].now,
            ..state
        }),
        last_event(state, lifted) == Some(EdgeEvent::Released),
        eventful(state, lifted) == 1,
        gestures(state, lifted, Gesture::Short) == 1,
        gestures(state, lifted, Gesture::Long) == 0,
        fired(state, lifted, EdgeEvent::LongPress) == 0,
{
    let quiet = lifted.drop_last();
    lemma_lifting_quietly(state, lifted, quiet.len() as int, offset, all);
    assert(lifted.take(quiet.len() as int) =~= quiet);
    let last = lifted.last();
    assert(last == all[offset + lifted.len() - 1]);
    assert(lifted[0] == all[offset]);
    assert(all[offset].now <= all[offset + lifted.len() - 1].now);
    assert(state.pressed_at <= all[offset + lifted.len() - 1].now);
    assert(!lifted[lifted.len() - 1].raw);
    assert(quiet.len() > 0);
}

/// Before the release is accepted the button only notes that the level fell.
proof fn lemma_lifting_quietly(
    state: DebouncedButtonState,
    lifted: Seq<Sample>,
    n: int,
    offset: int,
    all: Seq<Sample>,
)
    requires
        holding(state),
        !state.long_fired,
        all_read(lifted, false),
        0 <= n < lifted.len(),
        0 <= offset,
        all.len() == offset + lifted.len(),
        forall|i: int| 0 <= i < lifted.len() ==> lifted[i] == all[offset + i],
        in_time_order(all, state.pressed_at),
        forall|i: int|
            0 <= i < lifted.len() - 1 ==> (#[trigger] lifted[i]).now - lifted[0].now < DEBOUNCE_MS,
    ensures
        run(state, lifted.take(n)) == if n == 0 {
            state
        } else {
            DebouncedButtonState { raw_last: false, changed_at: lifted[0].now, ..state }
        },
        eventful(state, lifted.take(n)) == 0,
        gestures(state, lifted.take(n), Gesture::Short) == 0,
        gestures(state, lifted.take(n), Gesture::Long) == 0,
        fired(state, lifted.take(n), EdgeEvent::LongPress) == 0,
    decreases n,
{
    if n > 0 {
        lemma_lifting_quietly(state, lifted, n - 1, offset, all);
        assert(lifted.take(n).drop_last() =~= lifted.take(n - 1));
        assert(lifted.take(n).last() == lifted[n - 1]);
        assert(!lifted[n - 1].raw);
        assert(lifted[n - 1] == all[offset + n - 1]);
        assert(lifted[0] == all[offset]);
        assert(all[offset].now <= all[offset + n - 1].now);
    }
}

} // verus!
