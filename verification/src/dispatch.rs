//! Routing of classified events to audio cues.
//!
//! Each dispatch tick reads the playback gate once and then drains the
//! pending device events in order. Keyboard and button presses and wheel
//! scrolls sound only when playback is allowed; continuous scrolling is
//! counted toward bursts, and a completed burst sounds in any case.

use vstd::prelude::*;
use crate::cues::AudioCue;
use crate::cues::ClassifiedEvent;
use crate::cues::is_modifier_code;
use crate::cues::is_modifier_key;
use crate::scroll::SCROLL_BURST_THRESHOLD;
use crate::scroll::ScrollAggregator;

verus! {

/// Which cue a single event sounds, from the playback gate and the count
/// of scroll events seen so far.
pub open spec fn spec_cue_for(gate: bool, count: u32, ev: ClassifiedEvent) -> Option<AudioCue> {
    match ev {
        ClassifiedEvent::KeyPress { code } => if gate {
            if is_modifier_code(code) {
                Some(AudioCue::ModKey)
            } else {
                Some(AudioCue::Key)
            }
        } else {
            None
        },
        ClassifiedEvent::ButtonPress { .. } => if gate {
            Some(AudioCue::Click)
        } else {
            None
        },
        ClassifiedEvent::ContinuousScroll { .. } => if count + 1 == SCROLL_BURST_THRESHOLD {
            Some(AudioCue::Scroll)
        } else {
            None
        },
        ClassifiedEvent::WheelScroll => if gate {
            Some(AudioCue::Scroll)
        } else {
            None
        },
        _ => None,
    }
}

/// The burst counter after one event: only continuous scrolls move it.
pub open spec fn spec_counter_after(count: u32, ev: ClassifiedEvent) -> u32 {
    match ev {
        ClassifiedEvent::ContinuousScroll { .. } => if count + 1 == SCROLL_BURST_THRESHOLD {
            0u32
        } else {
            (count + 1) as u32
        },
        _ => count,
    }
}

/// The cues a whole tick emits, in order, and the burst counter it leaves
/// behind, starting from gate `gate` and counter `count`.
pub open spec fn spec_dispatch(gate: bool, events: Seq<ClassifiedEvent>, count: u32) -> (Seq<
    AudioCue,
>, u32)
    decreases events.len(),
{
    if events.len() == 0 {
        (Seq::empty(), count)
    } else {
        let prev = spec_dispatch(gate, events.drop_last(), count);
        let cues = match spec_cue_for(gate, prev.1, events.last()) {
            Some(cue) => prev.0.push(cue),
            None => prev.0,
        };
        (cues, spec_counter_after(prev.1, events.last()))
    }
}

/// Route one event: feed continuous scrolls to the aggregator, gate the
/// rest, and say which cue (if any) to trigger.
pub fn route_event(gate: bool, ev: &ClassifiedEvent, agg: &mut ScrollAggregator) -> (cue: Option<
    AudioCue,
>)
    requires
        old(agg).wf(),
    ensures
        final(agg).wf(),
        cue == spec_cue_for(gate, old(agg).count, *ev),
        final(agg).count == spec_counter_after(old(agg).count, *ev),
{
    match ev {
        ClassifiedEvent::KeyPress { code } => {
            if gate {
                if is_modifier_key(*code) {
                    Some(AudioCue::ModKey)
                } else {
                    Some(AudioCue::Key)
                }
            } else {
                None
            }
        },
        ClassifiedEvent::ButtonPress { .. } => {
            if gate {
                Some(AudioCue::Click)
            } else {
                None
            }
        },
        ClassifiedEvent::ContinuousScroll { .. } => {
            let fired = agg.feed();
            if fired {
                Some(AudioCue::Scroll)
            } else {
                None
            }
        },
        ClassifiedEvent::WheelScroll => {
            if gate {
                Some(AudioCue::Scroll)
            } else {
                None
            }
        },
        _ => None,
    }
}

/// Drain one tick's events under a single gate reading; the cues come back
/// in event order, and the aggregator carries the burst count to the next
/// tick.
pub fn dispatch_tick(
    gate: bool,
    events: &Vec<ClassifiedEvent>,
    agg: &mut ScrollAggregator,
) -> (cues: Vec<AudioCue>)
    requires
        old(agg).wf(),
    ensures
        final(agg).wf(),
        cues@ == spec_dispatch(gate, events@, old(agg).count).0,
        final(agg).count == spec_dispatch(gate, events@, old(agg).count).1,
{
    let ghost init_count: u32 = agg.count;
    let mut cues: Vec<AudioCue> = Vec::new();
    let mut i: usize = 0;
    while i < events.len()
        invariant
            agg.wf(),
            i <= events.len(),
            cues@ == spec_dispatch(gate, events@.subrange(0, i as int), init_count).0,
            agg.count == spec_dispatch(gate, events@.subrange(0, i as int), init_count).1,
        decreases events.len() - i,
    {
        let ev = events[i];
        let cue = route_event(gate, &ev, agg);
        proof {
            let done = events@.subrange(0, i as int);
            let next = events@.subrange(0, i as int + 1);
            assert(next.drop_last() =~= done);
            assert(next.last() == events@[i as int]);
        }
        if let Some(c) = cue {
            cues.push(c);
        }
        i = i + 1;
    }
    proof {
        assert(events@.subrange(0, events@.len() as int) =~= events@);
    }
    cues
}

/// A press of a key from the modifier table.
pub open spec fn is_modifier_press(ev: ClassifiedEvent) -> bool {
    ev matches ClassifiedEvent::KeyPress { code } && is_modifier_code(code)
}

/// Every event in the run is a press of a key from the modifier table.
pub open spec fn all_modifier_presses(events: Seq<ClassifiedEvent>) -> bool {
    forall|i: int| 0 <= i < events.len() ==> is_modifier_press(#[trigger] events[i])
}

/// Every event in the run is a continuous-scroll sample.
pub open spec fn all_continuous_scroll(events: Seq<ClassifiedEvent>) -> bool {
    forall|i: int| 0 <= i < events.len() ==> (#[trigger] events[i]) is ContinuousScroll
}

/// Law: over any run of modifier-key presses, an open gate yields one
/// ModKey cue per press, a closed gate yields none, and the burst counter
/// is untouched either way.
pub proof fn lemma_modifier_presses(gate: bool, events: Seq<ClassifiedEvent>, count: u32)
    requires
        all_modifier_presses(events),
    ensures
        gate ==> spec_dispatch(gate, events, count).0 =~= Seq::new(
            events.len(),
            |i: int| AudioCue::ModKey,
        ),
        !gate ==> spec_dispatch(gate, events, count).0 =~= Seq::<AudioCue>::empty(),
        spec_dispatch(gate, events, count).1 == count,
    decreases events.len(),
{
    if events.len() > 0 {
        let head = events.drop_last();
        assert(all_modifier_presses(head)) by {
            assert forall|i: int| 0 <= i < head.len() implies is_modifier_press(
                #[trigger] head[i],
            ) by {
                assert(head[i] == events[i]);
            }
        }
        lemma_modifier_presses(gate, head, count);
        assert(is_modifier_press(events[events.len() - 1]));
    }
}

/// Law: a run of continuous-scroll events that fits inside one burst
/// window sounds the Scroll cue just when the run completes the window,
/// and then the counter starts over; an incomplete run stays silent and
/// only moves the counter forward, whatever the state of playback.
pub proof fn lemma_scroll_burst(gate: bool, events: Seq<ClassifiedEvent>, count: u32)
    requires
        all_continuous_scroll(events),
        count + events.len() <= SCROLL_BURST_THRESHOLD,
    ensures
        count + events.len() < SCROLL_BURST_THRESHOLD ==> spec_dispatch(gate, events, count).0
            =~= Seq::<AudioCue>::empty() && spec_dispatch(gate, events, count).1 == count
            + events.len(),
        count + events.len() == SCROLL_BURST_THRESHOLD && events.len() > 0 ==> spec_dispatch(
            gate,
            events,
            count,
        ).0 =~= seq![AudioCue::Scroll] && spec_dispatch(gate, events, count).1 == 0,
    decreases events.len(),
{
    if events.len() > 0 {
        let head = events.drop_last();
        assert(all_continuous_scroll(head)) by {
            assert forall|i: int| 0 <= i < head.len() implies (#[trigger] head[i]) is ContinuousScroll by {
                assert(head[i] == events[i]);
            }
        }
        lemma_scroll_burst(gate, head, count);
        assert(events[events.len() - 1] is ContinuousScroll);
    }
}

/// Law: with a closed gate, the only cues a tick can emit are Scroll cues
/// from completed bursts; key presses, button presses and wheel scrolls
/// all stay silent.
pub proof fn lemma_closed_gate_only_bursts(events: Seq<ClassifiedEvent>, count: u32)
    ensures
        forall|k: int|
            0 <= k < spec_dispatch(false, events, count).0.len() ==> #[trigger] spec_dispatch(
                false,
                events,
                count,
            ).0[k] == AudioCue::Scroll,
    decreases events.len(),
{
    if events.len() > 0 {
        lemma_closed_gate_only_bursts(events.drop_last(), count);
    }
}

/// Law: exactly one full window of continuous-scroll events, starting from
/// a fresh counter, fires the Scroll cue exactly once and returns the
/// counter to zero.
pub proof fn lemma_full_burst_fires_once(gate: bool, events: Seq<ClassifiedEvent>)
    requires
        all_continuous_scroll(events),
        events.len() == SCROLL_BURST_THRESHOLD,
    ensures
        spec_dispatch(gate, events, 0).0 =~= seq![AudioCue::Scroll],
        spec_dispatch(gate, events, 0).1 == 0,
{
    lemma_scroll_burst(gate, events, 0);
}

/// Law: one event short of a window, starting from a fresh counter, fires
/// nothing.
pub proof fn lemma_short_burst_silent(gate: bool, events: Seq<ClassifiedEvent>)
    requires
        all_continuous_scroll(events),
        events.len() == SCROLL_BURST_THRESHOLD - 1,
    ensures
        spec_dispatch(gate, events, 0).0 =~= Seq::<AudioCue>::empty(),
        spec_dispatch(gate, events, 0).1 == SCROLL_BURST_THRESHOLD - 1,
{
    lemma_scroll_burst(gate, events, 0);
}

} // verus!
