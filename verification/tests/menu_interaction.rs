use woodpecker_buttons::easing::TransitionEasing;
use woodpecker_buttons::interaction::{
    all_transitions_finished, interaction_color, interaction_restyle, PointerInteraction,
};
use woodpecker_buttons::menu::{
    card_transition, label_transition, main_menu_button_transitions, primary_reveal_transition,
    secondary_reveal_transition,
};
use woodpecker_buttons::style::{Rgba, Style};
use woodpecker_buttons::transition::{Phase, TransitionTimer};

fn keyframe_with_width(width: u32) -> Style {
    let mut s = Style::default();
    s.width = width;
    s
}

fn short_transition() -> TransitionTimer {
    TransitionTimer::new(
        TransitionEasing::QuinticOut,
        0,
        vec![100],
        false,
        vec![keyframe_with_width(0), keyframe_with_width(300)],
    )
    .unwrap()
}

#[test]
fn interaction_colors_match_pointer_state() {
    assert_eq!(
        interaction_color(PointerInteraction::Idle),
        Rgba { red: 255, green: 255, blue: 255, alpha: 255 }
    );
    assert_eq!(
        interaction_color(PointerInteraction::Hovered),
        Rgba { red: 248, green: 113, blue: 113, alpha: 255 }
    );
    assert_eq!(
        interaction_color(PointerInteraction::Pressed),
        Rgba { red: 248, green: 113, blue: 113, alpha: 255 }
    );
}

#[test]
fn recolor_is_held_back_while_animating() {
    let transitions = vec![short_transition()];
    assert!(!all_transitions_finished(&transitions));
    let style = Style::default();
    let r = interaction_restyle(&style, PointerInteraction::Hovered, &transitions);
    assert!(r.is_none());
}

#[test]
fn recolor_applies_once_all_segments_finish() {
    let mut t = short_transition();
    assert_eq!(t.advance(100).phase, Phase::Complete);
    let transitions = vec![t];
    assert!(all_transitions_finished(&transitions));
    let style = Style::default();
    let r = interaction_restyle(&style, PointerInteraction::Pressed, &transitions).unwrap();
    assert_eq!(r.background_color, Rgba { red: 248, green: 113, blue: 113, alpha: 255 });
    // Every other field is kept as it was.
    assert_eq!(r.width, style.width);
    assert_eq!(r.position, style.position);
}

#[test]
fn completion_check_ignores_unfinished_start_delay() {
    // The completion check looks at the segment timers only: a spent
    // segment list passes it even while a start delay is still pending.
    let mut t = TransitionTimer::new(
        TransitionEasing::QuinticOut,
        1000,
        vec![0],
        false,
        vec![keyframe_with_width(0), keyframe_with_width(300)],
    )
    .unwrap();
    assert_eq!(t.advance(10).phase, Phase::PreStart);
    let transitions = vec![t];
    assert!(all_transitions_finished(&transitions));
}

#[test]
fn empty_transition_list_never_blocks() {
    let transitions: Vec<TransitionTimer> = vec![];
    assert!(all_transitions_finished(&transitions));
    let style = Style::default();
    let r = interaction_restyle(&style, PointerInteraction::Idle, &transitions).unwrap();
    assert_eq!(r.background_color, Rgba { red: 255, green: 255, blue: 255, alpha: 255 });
}

#[test]
fn card_reveals_after_delay() {
    let mut t = card_transition(300);
    // 300 ms delay: the card stays at width 0.
    assert_eq!(t.advance(300).phase, Phase::PreStart);
    let out = t.advance(100);
    assert_eq!(out.phase, Phase::Active(0));
    assert_eq!(out.style.width, 290);
    assert_eq!(
        out.style.background_color,
        Rgba { red: 255, green: 255, blue: 255, alpha: 255 }
    );
    let out = t.advance(100);
    assert_eq!(out.phase, Phase::Complete);
    assert_eq!(out.style.width, 300);
}

#[test]
fn label_style_holds_still() {
    let mut t = label_transition();
    assert_eq!(t.advance(300).phase, Phase::PreStart);
    let out = t.advance(40);
    assert_eq!(out.phase, Phase::Active(0));
    assert_eq!(out.style.font_size, 30);
    assert_eq!(out.style.margin.top, 10);
    assert_eq!(out.style.color, Rgba { red: 2, green: 6, blue: 23, alpha: 255 });
    let done = t.advance(60);
    assert_eq!(done.phase, Phase::Complete);
    assert_eq!(done.style.font_size, 30);
}

#[test]
fn secondary_reveal_sweeps_out_and_back() {
    let mut t = secondary_reveal_transition(300);
    // No start delay: the first tick enters segment 0 at once.
    let out = t.advance(100);
    assert_eq!(out.phase, Phase::Active(0));
    assert_eq!(out.style.width, 290);
    assert_eq!(t.advance(100).style.width, 300);
    // Middle segment holds the full width.
    assert_eq!(t.advance(100).style.width, 300);
    // Last segment sweeps back to zero.
    let done = t.advance(100);
    assert_eq!(done.phase, Phase::Complete);
    assert_eq!(done.style.width, 0);
    assert_eq!(done.style.background_color, Rgba { red: 56, green: 189, blue: 248, alpha: 255 });
}

#[test]
fn primary_reveal_follows_its_delay() {
    let mut t = primary_reveal_transition(300);
    assert_eq!(t.advance(200).phase, Phase::PreStart);
    assert_eq!(t.advance(200).style.width, 300);
    let done = t.advance(100);
    assert_eq!(done.phase, Phase::Complete);
    assert_eq!(done.style.width, 0);
    assert_eq!(done.style.background_color, Rgba { red: 2, green: 6, blue: 23, alpha: 255 });
}

#[test]
fn button_composition_holds_interaction_until_all_layers_finish() {
    let mut transitions = main_menu_button_transitions(300);
    assert_eq!(transitions.len(), 4);
    assert!(!all_transitions_finished(&transitions));

    // Drive every layer to completion with 100 ms frames; the slowest
    // layer (the card) finishes at 500 ms.
    for _frame in 0..10 {
        for t in transitions.iter_mut() {
            t.advance(100);
        }
    }
    assert!(all_transitions_finished(&transitions));
    let style = Style::default();
    let r = interaction_restyle(&style, PointerInteraction::Hovered, &transitions).unwrap();
    assert_eq!(r.background_color, Rgba { red: 248, green: 113, blue: 113, alpha: 255 });
}
