//! Pointer-interaction recoloring, held back until the animation completes.
//!
//! The host's picking subsystem reports a tri-state interaction signal per
//! element. The reducer here turns that signal into the element's next
//! style — but only once every transition on the element's descendants has
//! spent all of its segment timers; mid-animation the signal is ignored.

use vstd::prelude::*;

verus! {

use crate::style::{Rgba, Style};
use crate::transition::TransitionTimer;

/// The tri-state pointer signal produced by the host picking subsystem.
#[derive(Clone, Copy, PartialEq, Eq, Structural, Debug)]
pub enum PointerInteraction {
    /// The pointer is neither over nor pressing the element.
    Idle,
    Hovered,
    Pressed,
}

/// The background color a button shows for each pointer state: a warm red
/// while hovered or pressed, white otherwise.
pub open spec fn interaction_color_spec(i: PointerInteraction) -> Rgba {
    match i {
        PointerInteraction::Idle => Rgba { red: 255, green: 255, blue: 255, alpha: 255 },
        PointerInteraction::Hovered => Rgba { red: 248, green: 113, blue: 113, alpha: 255 },
        PointerInteraction::Pressed => Rgba { red: 248, green: 113, blue: 113, alpha: 255 },
    }
}

/// Returns [`interaction_color_spec`] for the given pointer state.
pub fn interaction_color(i: PointerInteraction) -> (c: Rgba)
    ensures
        c == interaction_color_spec(i),
{
    match i {
        PointerInteraction::Idle => Rgba { red: 255, green: 255, blue: 255, alpha: 255 },
        PointerInteraction::Hovered => Rgba { red: 248, green: 113, blue: 113, alpha: 255 },
        PointerInteraction::Pressed => Rgba { red: 248, green: 113, blue: 113, alpha: 255 },
    }
}

/// Every transition in the list has spent all of its segment timers. An
/// empty list counts as finished: an element without transitions never
/// holds the recolor back.
pub open spec fn all_transitions_finished_spec(ts: Seq<TransitionTimer>) -> bool {
    forall|i: int| 0 <= i < ts.len() ==> (#[trigger] ts[i])@.segments_finished()
}

/// Whether every transition in `transitions` has spent all of its segment
/// timers.
pub fn all_transitions_finished(transitions: &Vec<TransitionTimer>) -> (r: bool)
    ensures
        r == all_transitions_finished_spec(transitions@),
{
    let n: usize = transitions.len();
    let mut i: usize = 0;
    while i < n
        invariant
            n == transitions@.len(),
            i <= n,
            forall|j: int| 0 <= j < i ==> (#[trigger] transitions@[j])@.segments_finished(),
        decreases n - i,
    {
        if !transitions[i].segments_finished() {
            proof {
                assert(!all_transitions_finished_spec(transitions@)) by {
                    assert(!transitions@[i as int]@.segments_finished());
                };
            }
            return false;
        }
        i = i + 1;
    }
    true
}

/// The completion-guarded recolor reducer: given an element's current style,
/// the pointer signal, and the transitions running on the element's
/// descendants, returns the style to write — the current style with the
/// interaction color as background — or nothing while any transition is
/// still animating.
pub fn interaction_restyle(
    style: &Style,
    interaction: PointerInteraction,
    transitions: &Vec<TransitionTimer>,
) -> (r: Option<Style>)
    ensures
        all_transitions_finished_spec(transitions@) ==> r == Some(
            Style { background_color: interaction_color_spec(interaction), ..*style },
        ),
        !all_transitions_finished_spec(transitions@) ==> r is None,
{
    if !all_transitions_finished(transitions) {
        return None;
    }
    let mut new_style: Style = *style;
    new_style.background_color = interaction_color(interaction);
    Some(new_style)
}

} // verus!
