use woodpecker_buttons::easing::{apply_easing, TransitionEasing, EASE_ONE};
use woodpecker_buttons::style::{lerp_style, lerp_u32, Edge, Rgba, Style, WidgetPosition};
use woodpecker_buttons::timer::{SegmentTimer, MAX_DURATION_MS};
use woodpecker_buttons::transition::{ConfigError, Phase, TransitionTimer};

fn keyframe_with_width(width: u32) -> Style {
    let mut s = Style::default();
    s.width = width;
    s
}

#[test]
fn easing_endpoints_exact() {
    assert_eq!(apply_easing(TransitionEasing::QuinticOut, 0), 0);
    assert_eq!(apply_easing(TransitionEasing::QuinticOut, EASE_ONE), EASE_ONE);
    assert_eq!(apply_easing(TransitionEasing::Linear, 0), 0);
    assert_eq!(apply_easing(TransitionEasing::Linear, EASE_ONE), EASE_ONE);
}

#[test]
fn easing_midpoint_value() {
    // 1 - (1 - 1/2)^5 = 31/32; in fixed point: 1024 - 512^5 / 1024^4 = 992.
    assert_eq!(apply_easing(TransitionEasing::QuinticOut, 512), 992);
    assert_eq!(apply_easing(TransitionEasing::Linear, 512), 512);
}

#[test]
fn easing_is_non_decreasing() {
    let mut prev: u64 = 0;
    let mut p: u64 = 0;
    while p <= EASE_ONE {
        let e = apply_easing(TransitionEasing::QuinticOut, p);
        assert!(e >= prev);
        assert!(e <= EASE_ONE);
        prev = e;
        p += 1;
    }
}

#[test]
fn segment_timer_saturates() {
    let mut t = SegmentTimer::new(100);
    assert!(!t.finished());
    t.tick(40);
    assert_eq!(t.elapsed_ms, 40);
    t.tick(250);
    assert_eq!(t.elapsed_ms, 100);
    assert!(t.finished());
    t.tick(10);
    assert_eq!(t.elapsed_ms, 100);
}

#[test]
fn longest_timer_survives_huge_deltas() {
    let mut t = SegmentTimer::new(MAX_DURATION_MS);
    t.tick(u64::MAX);
    assert!(t.finished());
    assert_eq!(t.elapsed_ms, MAX_DURATION_MS);
}

#[test]
fn zero_delta_makes_no_progress() {
    let mut t = SegmentTimer::new(100);
    t.tick(0);
    assert_eq!(t.elapsed_ms, 0);
    assert!(!t.finished());
}

#[test]
fn lerp_endpoints_and_midway() {
    assert_eq!(lerp_u32(0, 300, 0), 0);
    assert_eq!(lerp_u32(0, 300, EASE_ONE), 300);
    assert_eq!(lerp_u32(0, 300, 992), 290);
    // Descending values interpolate downward, rounding toward the source.
    assert_eq!(lerp_u32(300, 0, 992), 10);
}

#[test]
fn lerp_style_switches_discrete_fields_after_zero() {
    let mut a = Style::default();
    a.position = WidgetPosition::Relative;
    let mut b = Style::default();
    b.position = WidgetPosition::Absolute;
    let at_zero = lerp_style(&a, &b, 0);
    assert_eq!(at_zero.position, WidgetPosition::Relative);
    let at_one = lerp_style(&a, &b, 1);
    assert_eq!(at_one.position, WidgetPosition::Absolute);
}

#[test]
fn lerp_style_moves_colors_per_channel() {
    let mut a = Style::default();
    a.background_color = Rgba { red: 0, green: 100, blue: 200, alpha: 255 };
    let mut b = Style::default();
    b.background_color = Rgba { red: 100, green: 100, blue: 0, alpha: 255 };
    let half = lerp_style(&a, &b, 512);
    assert_eq!(half.background_color.red, 50);
    assert_eq!(half.background_color.green, 100);
    assert_eq!(half.background_color.blue, 100);
    assert_eq!(half.background_color.alpha, 255);
}

#[test]
fn construction_rejects_empty_segment_list() {
    let r = TransitionTimer::new(
        TransitionEasing::QuinticOut,
        0,
        vec![],
        false,
        vec![Style::default()],
    );
    assert_eq!(r.unwrap_err(), ConfigError::NoSegments);
}

#[test]
fn construction_rejects_keyframe_count_mismatch() {
    let r = TransitionTimer::new(
        TransitionEasing::QuinticOut,
        0,
        vec![200],
        false,
        vec![Style::default()],
    );
    assert_eq!(r.unwrap_err(), ConfigError::KeyframeCountMismatch);

    let r = TransitionTimer::new(
        TransitionEasing::QuinticOut,
        0,
        vec![200],
        false,
        vec![Style::default(), Style::default(), Style::default()],
    );
    assert_eq!(r.unwrap_err(), ConfigError::KeyframeCountMismatch);
}

#[test]
fn construction_accepts_matched_keyframes() {
    let r = TransitionTimer::new(
        TransitionEasing::QuinticOut,
        300,
        vec![200, 100],
        true,
        vec![keyframe_with_width(0), keyframe_with_width(10), keyframe_with_width(20)],
    );
    let t = r.unwrap();
    assert_eq!(t.start.duration_ms, 300);
    assert_eq!(t.timeouts.len(), 2);
    assert_eq!(t.timeouts[0].duration_ms, 200);
    assert_eq!(t.timeouts[1].duration_ms, 100);
    assert!(t.looping);
}

#[test]
fn single_segment_scenario() {
    // start 0 ms, one 200 ms segment, width 0 -> 300, quintic ease-out.
    let mut t = TransitionTimer::new(
        TransitionEasing::QuinticOut,
        0,
        vec![200],
        false,
        vec![keyframe_with_width(0), keyframe_with_width(300)],
    )
    .unwrap();

    // t = 100 ms: halfway; 1 - (1 - 1/2)^5 = 0.96875, so width is
    // 300 * 992 / 1024 = 290 in whole units.
    let out = t.advance(100);
    assert_eq!(out.phase, Phase::Active(0));
    assert_eq!(out.eased, 992);
    assert_eq!(out.style.width, 290);

    // t = 200 ms: the segment ends exactly; width reaches 300 exactly.
    let out = t.advance(100);
    assert_eq!(out.phase, Phase::Complete);
    assert_eq!(out.style.width, 300);

    // t = 500 ms: non-looping, the final keyframe is held.
    let out = t.advance(300);
    assert_eq!(out.phase, Phase::Complete);
    assert_eq!(out.style.width, 300);
}

#[test]
fn start_delay_holds_first_keyframe() {
    let mut t = TransitionTimer::new(
        TransitionEasing::QuinticOut,
        300,
        vec![200],
        false,
        vec![keyframe_with_width(0), keyframe_with_width(300)],
    )
    .unwrap();

    let out = t.advance(100);
    assert_eq!(out.phase, Phase::PreStart);
    assert_eq!(out.style.width, 0);
    let out = t.advance(100);
    assert_eq!(out.phase, Phase::PreStart);
    // This tick finishes the delay; the tick itself still reports the
    // delay phase and holds the first keyframe.
    let out = t.advance(100);
    assert_eq!(out.phase, Phase::PreStart);
    assert_eq!(out.style.width, 0);
    // Only the next tick enters the first segment.
    let out = t.advance(100);
    assert_eq!(out.phase, Phase::Active(0));
}

#[test]
fn multi_segment_scenario() {
    // Three 100 ms segments over keyframes of width [0, 300, 300, 0].
    let mut t = TransitionTimer::new(
        TransitionEasing::QuinticOut,
        0,
        vec![100, 100, 100],
        false,
        vec![
            keyframe_with_width(0),
            keyframe_with_width(300),
            keyframe_with_width(300),
            keyframe_with_width(0),
        ],
    )
    .unwrap();

    // t = 50 ms: between keyframes 0 and 1.
    let out = t.advance(50);
    assert_eq!(out.phase, Phase::Active(0));
    assert!(out.style.width > 0 && out.style.width < 300);
    assert_eq!(out.style.width, 290);

    // t = 100 ms: segment 0 ends exactly at keyframe 1.
    let out = t.advance(50);
    assert_eq!(out.phase, Phase::Active(0));
    assert_eq!(out.style.width, 300);

    // t = 150 ms: segment 1 interpolates between two equal keyframes, so
    // the width holds at 300.
    let out = t.advance(50);
    assert_eq!(out.phase, Phase::Active(1));
    assert_eq!(out.style.width, 300);

    // t = 200 ms: segment 1 ends.
    let out = t.advance(50);
    assert_eq!(out.phase, Phase::Active(1));
    assert_eq!(out.style.width, 300);

    // t = 250 ms: segment 2 moves the width back toward 0.
    let out = t.advance(50);
    assert_eq!(out.phase, Phase::Active(2));
    assert!(out.style.width < 300);
    assert_eq!(out.style.width, 10);

    // t = 300 ms: everything finished.
    let out = t.advance(50);
    assert_eq!(out.phase, Phase::Complete);
    assert_eq!(out.style.width, 0);
}

#[test]
fn complete_is_idempotent_without_looping() {
    let mut t = TransitionTimer::new(
        TransitionEasing::QuinticOut,
        0,
        vec![100],
        false,
        vec![keyframe_with_width(0), keyframe_with_width(300)],
    )
    .unwrap();
    let out = t.advance(100);
    assert_eq!(out.phase, Phase::Complete);
    let held = out.style;
    for delta in [0, 1, 50, 100000] {
        let out = t.advance(delta);
        assert_eq!(out.phase, Phase::Complete);
        assert_eq!(out.style, held);
    }
}

#[test]
fn looping_cycle_restarts_like_fresh() {
    let fresh = || {
        TransitionTimer::new(
            TransitionEasing::QuinticOut,
            100,
            vec![200, 100],
            true,
            vec![keyframe_with_width(0), keyframe_with_width(300), keyframe_with_width(60)],
        )
        .unwrap()
    };
    let mut cycled = fresh();
    // One full cycle, tick by tick: the delay, then each segment exactly.
    assert_eq!(cycled.advance(100).phase, Phase::PreStart);
    assert_eq!(cycled.advance(200).phase, Phase::Active(0));
    assert_eq!(cycled.advance(100).phase, Phase::Complete);

    let mut new_timer = fresh();
    for delta in [70, 70, 200, 40] {
        let a = cycled.advance(delta);
        let b = new_timer.advance(delta);
        assert_eq!(a.phase, b.phase);
        assert_eq!(a.eased, b.eased);
        assert_eq!(a.style, b.style);
    }
}

#[test]
fn margins_and_font_size_interpolate() {
    let mut a = Style::default();
    a.margin = Edge::all(0);
    a.font_size = 10;
    let mut b = Style::default();
    b.margin = Edge::all(20);
    b.font_size = 30;
    let mut t = TransitionTimer::new(
        TransitionEasing::Linear,
        0,
        vec![100],
        false,
        vec![a, b],
    )
    .unwrap();
    let out = t.advance(50);
    assert_eq!(out.style.margin.top, 10);
    assert_eq!(out.style.margin.left, 10);
    assert_eq!(out.style.font_size, 20);
}
