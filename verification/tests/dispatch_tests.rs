use eventsfx::cues::is_modifier_key;
use eventsfx::cues::AudioCue;
use eventsfx::cues::ClassifiedEvent;
use eventsfx::dispatch::dispatch_tick;
use eventsfx::dispatch::route_event;
use eventsfx::scroll::ScrollAggregator;
use eventsfx::scroll::SCROLL_BURST_THRESHOLD;

#[test]
fn modifier_table_holds_the_eight_codes() {
    for code in [42u32, 29, 125, 56, 100, 97, 54, 46] {
        assert!(is_modifier_key(code));
    }
    for code in [0u32, 1, 30, 57, 126, 200] {
        assert!(!is_modifier_key(code));
    }
}

#[test]
fn modifier_press_fires_modkey_once_per_press_when_gate_open() {
    let mut agg = ScrollAggregator::new();
    let events = vec![
        ClassifiedEvent::KeyPress { code: 42 },
        ClassifiedEvent::KeyPress { code: 29 },
        ClassifiedEvent::KeyPress { code: 125 },
    ];
    let cues = dispatch_tick(true, &events, &mut agg);
    assert_eq!(cues, vec![AudioCue::ModKey, AudioCue::ModKey, AudioCue::ModKey]);
    assert_eq!(agg.count, 0);
}

#[test]
fn modifier_press_silent_when_gate_closed() {
    let mut agg = ScrollAggregator::new();
    let events = vec![
        ClassifiedEvent::KeyPress { code: 42 },
        ClassifiedEvent::KeyPress { code: 56 },
    ];
    let cues = dispatch_tick(false, &events, &mut agg);
    assert!(cues.is_empty());
}

#[test]
fn plain_key_routes_to_key_cue() {
    let mut agg = ScrollAggregator::new();
    let events = vec![ClassifiedEvent::KeyPress { code: 30 }];
    let cues = dispatch_tick(true, &events, &mut agg);
    assert_eq!(cues, vec![AudioCue::Key]);
}

#[test]
fn releases_trigger_nothing() {
    let mut agg = ScrollAggregator::new();
    let events = vec![
        ClassifiedEvent::KeyRelease { code: 42 },
        ClassifiedEvent::ButtonRelease { code: 1 },
    ];
    let cues = dispatch_tick(true, &events, &mut agg);
    assert!(cues.is_empty());
}

#[test]
fn one_button_press_one_click_when_gate_open() {
    let mut agg = ScrollAggregator::new();
    let events = vec![ClassifiedEvent::ButtonPress { code: 1 }];
    let cues = dispatch_tick(true, &events, &mut agg);
    assert_eq!(cues, vec![AudioCue::Click]);
}

#[test]
fn one_button_press_no_cue_when_gate_closed() {
    let mut agg = ScrollAggregator::new();
    let events = vec![ClassifiedEvent::ButtonPress { code: 1 }];
    let cues = dispatch_tick(false, &events, &mut agg);
    assert!(cues.is_empty());
}

#[test]
fn wheel_scroll_fires_once_regardless_of_counter_state() {
    let mut agg = ScrollAggregator::new();
    // Advance the burst counter partway first.
    let burst = vec![ClassifiedEvent::ContinuousScroll { has_vertical: true, has_horizontal: false }; 7];
    let cues = dispatch_tick(true, &burst, &mut agg);
    assert!(cues.is_empty());
    assert_eq!(agg.count, 7);
    let events = vec![ClassifiedEvent::WheelScroll];
    let cues = dispatch_tick(true, &events, &mut agg);
    assert_eq!(cues, vec![AudioCue::Scroll]);
    assert_eq!(agg.count, 7);
}

#[test]
fn wheel_scroll_suppressed_when_gate_closed() {
    let mut agg = ScrollAggregator::new();
    let events = vec![ClassifiedEvent::WheelScroll];
    let cues = dispatch_tick(false, &events, &mut agg);
    assert!(cues.is_empty());
}

#[test]
fn burst_of_32_fires_exactly_once_and_resets() {
    let mut agg = ScrollAggregator::new();
    let events = vec![
        ClassifiedEvent::ContinuousScroll { has_vertical: true, has_horizontal: false };
        SCROLL_BURST_THRESHOLD as usize
    ];
    let cues = dispatch_tick(true, &events, &mut agg);
    assert_eq!(cues, vec![AudioCue::Scroll]);
    assert_eq!(agg.count, 0);
}

#[test]
fn burst_fires_even_when_gate_closed() {
    let mut agg = ScrollAggregator::new();
    let events = vec![
        ClassifiedEvent::ContinuousScroll { has_vertical: false, has_horizontal: true };
        SCROLL_BURST_THRESHOLD as usize
    ];
    let cues = dispatch_tick(false, &events, &mut agg);
    assert_eq!(cues, vec![AudioCue::Scroll]);
    assert_eq!(agg.count, 0);
}

#[test]
fn burst_of_31_fires_nothing() {
    let mut agg = ScrollAggregator::new();
    let events = vec![
        ClassifiedEvent::ContinuousScroll { has_vertical: true, has_horizontal: true };
        (SCROLL_BURST_THRESHOLD - 1) as usize
    ];
    let cues = dispatch_tick(true, &events, &mut agg);
    assert!(cues.is_empty());
    assert_eq!(agg.count, SCROLL_BURST_THRESHOLD - 1);
}

#[test]
fn mixed_tick_keeps_event_order() {
    let mut agg = ScrollAggregator::new();
    let events = vec![
        ClassifiedEvent::KeyPress { code: 42 },
        ClassifiedEvent::ButtonPress { code: 1 },
        ClassifiedEvent::ContinuousScroll { has_vertical: true, has_horizontal: false },
        ClassifiedEvent::KeyPress { code: 30 },
        ClassifiedEvent::WheelScroll,
    ];
    let cues = dispatch_tick(true, &events, &mut agg);
    assert_eq!(cues, vec![AudioCue::ModKey, AudioCue::Click, AudioCue::Key, AudioCue::Scroll]);
    assert_eq!(agg.count, 1);
}

#[test]
fn route_event_feeds_aggregator_per_scroll() {
    let mut agg = ScrollAggregator::new();
    for i in 1..SCROLL_BURST_THRESHOLD {
        let cue = route_event(
            true,
            &ClassifiedEvent::ContinuousScroll { has_vertical: true, has_horizontal: false },
            &mut agg,
        );
        assert_eq!(cue, None);
        assert_eq!(agg.count, i);
    }
    let cue = route_event(
        true,
        &ClassifiedEvent::ContinuousScroll { has_vertical: true, has_horizontal: false },
        &mut agg,
    );
    assert_eq!(cue, Some(AudioCue::Scroll));
    assert_eq!(agg.count, 0);
}
