//! The main-menu button's reveal animation: four independent transitions,
//! one per sub-element, whose staggered delays and durations compose the
//! multi-layer effect. No cross-timer coordination exists; the layers line
//! up purely through their start delays.

use vstd::prelude::*;

verus! {

use crate::easing::TransitionEasing;
use crate::style::{Edge, Rgba, Style, WidgetDisplay, WidgetPosition, base_style};
use crate::timer::SegmentTimer;
use crate::transition::{TransitionModel, TransitionTimer};

/// The dark slate tone used for the button label and the primary reveal
/// panel.
pub open spec fn slate_color() -> Rgba {
    Rgba { red: 2, green: 6, blue: 23, alpha: 255 }
}

/// The sky-blue tone of the secondary reveal panel.
pub open spec fn sky_color() -> Rgba {
    Rgba { red: 56, green: 189, blue: 248, alpha: 255 }
}

/// A reveal-panel keyframe: an absolutely positioned quad of the given
/// color, 60 units tall, at the given width.
pub open spec fn panel_keyframe(color: Rgba, width: u32) -> Style {
    Style {
        position: WidgetPosition::Absolute,
        display: WidgetDisplay::Flex,
        background_color: color,
        color: base_style().color,
        width: width,
        height: 60,
        margin: base_style().margin,
        font_size: base_style().font_size,
    }
}

/// Builds [`panel_keyframe`].
fn make_panel_keyframe(color: Rgba, width: u32) -> (s: Style)
    ensures
        s == panel_keyframe(color, width),
{
    Style {
        position: WidgetPosition::Absolute,
        display: WidgetDisplay::Flex,
        background_color: color,
        color: Rgba { red: 255, green: 255, blue: 255, alpha: 255 },
        width,
        height: 60,
        margin: Edge { top: 0, right: 0, bottom: 0, left: 0 },
        font_size: 14,
    }
}

/// The white card behind the label: revealed from width zero to the
/// button's width over one 200 ms segment, after a 300 ms delay.
pub open spec fn card_transition_spec(width: u32) -> TransitionModel {
    TransitionModel {
        easing: TransitionEasing::QuinticOut,
        start: SegmentTimer { duration_ms: 300, elapsed_ms: 0 },
        timeouts: seq![SegmentTimer { duration_ms: 200, elapsed_ms: 0 }],
        looping: false,
        styles: seq![
            panel_keyframe(Rgba { red: 255, green: 255, blue: 255, alpha: 255 }, 0),
            panel_keyframe(Rgba { red: 255, green: 255, blue: 255, alpha: 255 }, width),
        ],
    }
}

/// Builds the card transition for a button of the given width.
pub fn card_transition(width: u32) -> (t: TransitionTimer)
    ensures
        t@ == card_transition_spec(width),
        t@.wf(),
        t@.fresh(),
{
    let white = Rgba { red: 255, green: 255, blue: 255, alpha: 255 };
    let t = TransitionTimer {
        easing: TransitionEasing::QuinticOut,
        start: SegmentTimer::new(300),
        timeouts: vec![SegmentTimer::new(200)],
        looping: false,
        styles: vec![make_panel_keyframe(white, 0), make_panel_keyframe(white, width)],
    };
    proof {
        assert(t@ =~= card_transition_spec(width));
    }
    t
}

/// The label keyframe: slate text at font size 30 with a 10-unit margin
/// on every side.
pub open spec fn label_keyframe() -> Style {
    Style {
        position: base_style().position,
        display: base_style().display,
        background_color: base_style().background_color,
        color: slate_color(),
        width: base_style().width,
        height: base_style().height,
        margin: Edge { top: 10, right: 10, bottom: 10, left: 10 },
        font_size: 30,
    }
}

/// The label's transition: its two keyframes are equal, so the style
/// holds still while the timer runs out — the label merely waits out the
/// same 300 ms delay as the card before the interaction recolor may apply.
pub open spec fn label_transition_spec() -> TransitionModel {
    TransitionModel {
        easing: TransitionEasing::QuinticOut,
        start: SegmentTimer { duration_ms: 300, elapsed_ms: 0 },
        timeouts: seq![SegmentTimer { duration_ms: 100, elapsed_ms: 0 }],
        looping: false,
        styles: seq![label_keyframe(), label_keyframe()],
    }
}

/// Builds the label transition.
pub fn label_transition() -> (t: TransitionTimer)
    ensures
        t@ == label_transition_spec(),
        t@.wf(),
        t@.fresh(),
{
    let keyframe = Style {
        position: WidgetPosition::Relative,
        display: WidgetDisplay::Flex,
        background_color: Rgba { red: 0, green: 0, blue: 0, alpha: 0 },
        color: Rgba { red: 2, green: 6, blue: 23, alpha: 255 },
        width: 0,
        height: 0,
        margin: Edge::all(10),
        font_size: 30,
    };
    let t = TransitionTimer {
        easing: TransitionEasing::QuinticOut,
        start: SegmentTimer::new(300),
        timeouts: vec![SegmentTimer::new(100)],
        looping: false,
        styles: vec![keyframe, keyframe],
    };
    proof {
        assert(t@ =~= label_transition_spec());
    }
    t
}

/// The sky-blue reveal panel: no delay, three segments sweeping the width
/// out to the button's width, holding it, and back to zero.
pub open spec fn secondary_reveal_transition_spec(width: u32) -> TransitionModel {
    TransitionModel {
        easing: TransitionEasing::QuinticOut,
        start: SegmentTimer { duration_ms: 0, elapsed_ms: 0 },
        timeouts: seq![
            SegmentTimer { duration_ms: 200, elapsed_ms: 0 },
            SegmentTimer { duration_ms: 100, elapsed_ms: 0 },
            SegmentTimer { duration_ms: 100, elapsed_ms: 0 },
        ],
        looping: false,
        styles: seq![
            panel_keyframe(sky_color(), 0),
            panel_keyframe(sky_color(), width),
            panel_keyframe(sky_color(), width),
            panel_keyframe(sky_color(), 0),
        ],
    }
}

/// Builds the secondary reveal transition.
pub fn secondary_reveal_transition(width: u32) -> (t: TransitionTimer)
    ensures
        t@ == secondary_reveal_transition_spec(width),
        t@.wf(),
        t@.fresh(),
{
    let sky = Rgba { red: 56, green: 189, blue: 248, alpha: 255 };
    let t = TransitionTimer {
        easing: TransitionEasing::QuinticOut,
        start: SegmentTimer::new(0),
        timeouts: vec![SegmentTimer::new(200), SegmentTimer::new(100), SegmentTimer::new(100)],
        looping: false,
        styles: vec![
            make_panel_keyframe(sky, 0),
            make_panel_keyframe(sky, width),
            make_panel_keyframe(sky, width),
            make_panel_keyframe(sky, 0),
        ],
    };
    proof {
        assert(t@ =~= secondary_reveal_transition_spec(width));
    }
    t
}

/// The slate reveal panel: a 200 ms delay, then the width sweeps out over
/// 200 ms and back to zero over 100 ms.
pub open spec fn primary_reveal_transition_spec(width: u32) -> TransitionModel {
    TransitionModel {
        easing: TransitionEasing::QuinticOut,
        start: SegmentTimer { duration_ms: 200, elapsed_ms: 0 },
        timeouts: seq![
            SegmentTimer { duration_ms: 200, elapsed_ms: 0 },
            SegmentTimer { duration_ms: 100, elapsed_ms: 0 },
        ],
        looping: false,
        styles: seq![
            panel_keyframe(slate_color(), 0),
            panel_keyframe(slate_color(), width),
            panel_keyframe(slate_color(), 0),
        ],
    }
}

/// Builds the primary reveal transition.
pub fn primary_reveal_transition(width: u32) -> (t: TransitionTimer)
    ensures
        t@ == primary_reveal_transition_spec(width),
        t@.wf(),
        t@.fresh(),
{
    let slate = Rgba { red: 2, green: 6, blue: 23, alpha: 255 };
    let t = TransitionTimer {
        easing: TransitionEasing::QuinticOut,
        start: SegmentTimer::new(200),
        timeouts: vec![SegmentTimer::new(200), SegmentTimer::new(100)],
        looping: false,
        styles: vec![
            make_panel_keyframe(slate, 0),
            make_panel_keyframe(slate, width),
            make_panel_keyframe(slate, 0),
        ],
    };
    proof {
        assert(t@ =~= primary_reveal_transition_spec(width));
    }
    t
}

/// All four transitions a main-menu button mounts on its sub-elements, in
/// order: card, label, secondary reveal, primary reveal.
pub fn main_menu_button_transitions(width: u32) -> (ts: Vec<TransitionTimer>)
    ensures
        ts@.len() == 4,
        ts@[0]@ == card_transition_spec(width),
        ts@[1]@ == label_transition_spec(),
        ts@[2]@ == secondary_reveal_transition_spec(width),
        ts@[3]@ == primary_reveal_transition_spec(width),
        forall|i: int| 0 <= i < 4 ==> (#[trigger] ts@[i])@.wf() && ts@[i]@.fresh(),
{
    let ts = vec![
        card_transition(width),
        label_transition(),
        secondary_reveal_transition(width),
        primary_reveal_transition(width),
    ];
    ts
}

} // verus!
