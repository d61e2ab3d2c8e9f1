use vstd::prelude::*;

use crate::focus::EguiWantsFocus;
use crate::input::{orbit_binding, orbit_just_pressed, pan_binding, pan_just_pressed, MouseKeyState};
use crate::PanOrbitCameraIgnoreInput;

verus! {

/// What the host found out about one camera this frame, in query order.
#[derive(Clone, Copy, Debug, PartialEq, Eq, Default)]
pub struct ViewportCandidate {
    /// Some input that can start a camera interaction began this frame.
    pub input_activated: bool,
    /// The camera renders to a window that exists, the pointer (or the first new touch)
    /// has a position in it, and that position lies strictly inside the camera's viewport.
    pub input_in_viewport: bool,
    /// The camera's render order.
    pub order: isize,
}

/// The outcome of one round of active-camera selection.
#[derive(Clone, Copy, Debug, PartialEq, Eq, Default)]
pub struct ActiveSelection {
    /// Some camera had input start this frame; only then is the active camera replaced.
    pub has_input: bool,
    /// The index of the camera that becomes active, if any.
    pub camera: Option<usize>,
}

pub open spec fn eligible(c: ViewportCandidate, accepts_input: bool) -> bool {
    c.input_activated && accepts_input && c.input_in_viewport
}

/// Camera `i` wins: it is eligible with a non-negative order, no eligible camera has a
/// higher order, and no later eligible camera has the same order.
pub open spec fn is_selected(cs: Seq<ViewportCandidate>, accepts_input: bool, i: int) -> bool {
    &&& 0 <= i < cs.len()
    &&& eligible(cs[i], accepts_input)
    &&& cs[i].order >= 0
    &&& forall|j: int|
        0 <= j < cs.len() && eligible(#[trigger] cs[j], accepts_input) ==> cs[j].order
            <= cs[i].order
    &&& forall|j: int|
        i < j < cs.len() && eligible(#[trigger] cs[j], accepts_input) ==> cs[j].order
            < cs[i].order
}

/// Whether input starts an interaction with a camera this frame: one of its bindings went
/// down, pinch or scroll events are pending, or new touches began and all touches are new.
pub open spec fn activated(
    keys: MouseKeyState,
    pinch_pending: bool,
    scroll_pending: bool,
    touches_just_pressed: nat,
    touches_pressed: nat,
) -> bool {
    orbit_binding(keys, keys.orbit_button.just_pressed) || pan_binding(
        keys,
        keys.pan_button.just_pressed,
    ) || pinch_pending || scroll_pending || (touches_just_pressed > 0 && touches_just_pressed
        == touches_pressed)
}

pub fn input_just_activated(
    keys: &MouseKeyState,
    pinch_pending: bool,
    scroll_pending: bool,
    touches_just_pressed: usize,
    touches_pressed: usize,
) -> (r: bool)
    ensures
        r == activated(
            *keys,
            pinch_pending,
            scroll_pending,
            touches_just_pressed as nat,
            touches_pressed as nat,
        ),
{
    orbit_just_pressed(keys) || pan_just_pressed(keys) || pinch_pending || scroll_pending || (
    touches_just_pressed > 0 && touches_just_pressed == touches_pressed)
}

/// Input is taken only when it is not switched off and no GUI wanted focus on this
/// frame or the previous one.
pub fn should_get_input(focus: &EguiWantsFocus, ignore: &PanOrbitCameraIgnoreInput) -> (r: bool)
    ensures
        r == (!ignore.0 && !focus.prev && !focus.curr),
{
    !ignore.0 && !focus.prev && !focus.curr
}

/// Picks the camera that receives input: among the eligible cameras with a non-negative
/// order, the last one of the highest order.
pub fn select_active_camera(candidates: &Vec<ViewportCandidate>, accepts_input: bool) -> (r:
    ActiveSelection)
    ensures
        r.has_input == exists|i: int|
            0 <= i < candidates@.len() && (#[trigger] candidates@[i]).input_activated,
        r.camera matches Some(i) ==> is_selected(candidates@, accepts_input, i as int),
        r.camera is None <==> forall|j: int|
            0 <= j < candidates@.len() && eligible(#[trigger] candidates@[j], accepts_input)
                ==> candidates@[j].order < 0,
{
    let ghost cs = candidates@;
    let mut has_input = false;
    let mut selected: Option<usize> = None;
    let mut max_order: isize = 0;
    let mut i: usize = 0;
    while i < candidates.len()
        invariant
            cs == candidates@,
            i <= cs.len(),
            max_order >= 0,
            has_input == exists|k: int| 0 <= k < i && (#[trigger] cs[k]).input_activated,
            selected matches Some(s) ==> {
                &&& s < i
                &&& eligible(cs[s as int], accepts_input)
                &&& cs[s as int].order == max_order
                &&& forall|j: int|
                    0 <= j < i && eligible(#[trigger] cs[j], accepts_input) ==> cs[j].order
                        <= max_order
                &&& forall|j: int|
                    s < j < i && eligible(#[trigger] cs[j], accepts_input) ==> cs[j].order
                        < max_order
            },
            selected is None ==> max_order == 0 && forall|j: int|
                0 <= j < i && eligible(#[trigger] cs[j], accepts_input) ==> cs[j].order < 0,
        decreases cs.len() - i,
    {
        let c = candidates[i];
        if c.input_activated {
            has_input = true;
            if accepts_input && c.input_in_viewport && c.order >= max_order {
                selected = Some(i);
                max_order = c.order;
            }
        }
        i = i + 1;
    }
    ActiveSelection { has_input, camera: selected }
}

} // verus!
