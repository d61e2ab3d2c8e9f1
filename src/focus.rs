use vstd::prelude::*;

verus! {

/// Whether a GUI overlay wanted input focus on the previous and on the current frame.
///
/// Both are kept because a click inside a GUI window is reported as wanting pointer input
/// only one frame late; the camera should take input only when both are `false`.
#[derive(Clone, Copy, Debug, PartialEq, Eq, Default)]
pub struct EguiWantsFocus {
    /// Whether the GUI wanted focus on the previous frame.
    pub prev: bool,
    /// Whether the GUI wants focus on the current frame.
    pub curr: bool,
}

/// When `true`, merely hovering over a GUI area counts as the GUI wanting focus.
#[derive(Clone, Copy, Debug, PartialEq, Eq, Default)]
pub struct EguiFocusIncludesHover(pub bool);

/// What one GUI context reports this frame.
#[derive(Clone, Copy, Debug, PartialEq, Eq, Default)]
pub struct ContextFocus {
    pub wants_pointer_input: bool,
    pub wants_keyboard_input: bool,
    pub pointer_over_area: bool,
}

/// A context wants focus when it wants pointer or keyboard input, or, where hovering
/// counts, when the pointer is over one of its areas.
pub open spec fn context_wants_focus(context: ContextFocus, include_hover: bool) -> bool {
    context.wants_pointer_input || context.wants_keyboard_input || (include_hover
        && context.pointer_over_area)
}

/// Whether any of the contexts wants focus.
pub open spec fn any_wants_focus(contexts: Seq<ContextFocus>, include_hover: bool) -> bool {
    exists|i: int| 0 <= i < contexts.len() && context_wants_focus(#[trigger] contexts[i], include_hover)
}

/// The focus state for a new frame: the old current value becomes the previous one, and
/// the current one is whether any GUI context wants focus.
pub fn check_egui_wants_focus(
    wants_focus: &EguiWantsFocus,
    contexts: &Vec<ContextFocus>,
    include_hover: &EguiFocusIncludesHover,
) -> (r: EguiWantsFocus)
    ensures
        r.prev == wants_focus.curr,
        r.curr == any_wants_focus(contexts@, include_hover.0),
{
    let mut new_wants_focus = false;
    let mut i: usize = 0;
    while i < contexts.len()
        invariant
            i <= contexts@.len(),
            new_wants_focus == any_wants_focus(contexts@.take(i as int), include_hover.0),
        decreases contexts@.len() - i,
    {
        let context = contexts[i];
        let mut context_wants = context.wants_pointer_input || context.wants_keyboard_input;
        if include_hover.0 {
            context_wants = context_wants || context.pointer_over_area;
        }
        proof {
            let before = contexts@.take(i as int);
            let after = contexts@.take(i + 1);
            assert(after[i as int] == contexts@[i as int]);
            assert forall|j: int| 0 <= j < i implies after[j] == before[j] by {}
            if any_wants_focus(before, include_hover.0) {
                let j = choose|j: int| 0 <= j < before.len() && context_wants_focus(#[trigger] before[j], include_hover.0);
                assert(after[j] == before[j]);
            }
            if any_wants_focus(after, include_hover.0) && !context_wants {
                let j = choose|j: int| 0 <= j < after.len() && context_wants_focus(#[trigger] after[j], include_hover.0);
                assert(j != i);
                assert(before[j] == after[j]);
            }
        }
        new_wants_focus = new_wants_focus || context_wants;
        i = i + 1;
    }
    proof {
        assert(contexts@.take(contexts@.len() as int) =~= contexts@);
    }
    EguiWantsFocus { prev: wants_focus.curr, curr: new_wants_focus }
}

} // verus!
