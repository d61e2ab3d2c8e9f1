use vstd::prelude::*;

use crate::input::{orbit_edge, MouseKeyState};

verus! {

/// The discrete state of one orbit camera that each frame updates.
#[derive(Clone, Copy, Debug, PartialEq, Eq, Default)]
pub struct CameraFlags {
    /// The spherical state has been derived from the camera's initial transform.
    pub initialized: bool,
    /// The camera was upside down when the orbit binding last started or ended; while it
    /// holds, horizontal orbit motion is reversed.
    pub is_upside_down: bool,
    /// Recompute the transform on the next frame even without input or pending motion.
    pub force_update: bool,
}

/// What the host measured once this frame's input was integrated and the limits applied.
#[derive(Clone, Copy, Debug, PartialEq, Eq, Default)]
pub struct FrameChanges {
    /// Orbit, pan or zoom input moved a target this frame.
    pub has_moved: bool,
    /// The current yaw differs from the target yaw.
    pub yaw_differs: bool,
    /// The current pitch differs from the target pitch.
    pub pitch_differs: bool,
    /// The current radius (or scale) differs from its target.
    pub radius_differs: bool,
    /// The current focus differs from the target focus.
    pub focus_differs: bool,
}

/// The upside-down state after one frame: it is measured again, from whether the
/// camera's up vector points below the basis' up axis, only on an orbit edge.
pub open spec fn upside_down_step(is_upside_down: bool, orbit_edge: bool, up_below: bool) -> bool {
    if orbit_edge {
        up_below
    } else {
        is_upside_down
    }
}

/// The upside-down state after a run of frames, each given by its bindings' state and by
/// whether the camera's up vector pointed below the basis' up axis.
pub open spec fn upside_down_through(is_upside_down: bool, frames: Seq<(MouseKeyState, bool)>) -> bool
    decreases frames.len(),
{
    if frames.len() == 0 {
        is_upside_down
    } else {
        upside_down_through(
            upside_down_step(is_upside_down, orbit_edge(frames[0].0), frames[0].1),
            frames.drop_first(),
        )
    }
}

/// The transform is advanced when input moved a target, when some current value has not
/// reached its target yet, or when an update was forced.
pub open spec fn advances(changes: FrameChanges, force_update: bool) -> bool {
    changes.has_moved || changes.yaw_differs || changes.pitch_differs || changes.radius_differs
        || changes.focus_differs || force_update
}

/// A camera reads this frame's input only when it is enabled and is the active camera;
/// otherwise its deltas are zero, though it keeps moving towards its targets.
pub fn reads_input(enabled: bool, is_active: bool) -> (r: bool)
    ensures
        r == (enabled && is_active),
{
    enabled && is_active
}

/// What the host found about this frame's deltas and sizes, before integrating them.
#[derive(Clone, Copy, Debug, PartialEq, Eq, Default)]
pub struct FrameInput {
    /// The orbit delta is not zero.
    pub orbit_nonzero: bool,
    /// A window size is known and neither of its sides is zero.
    pub window_known: bool,
    /// The pan delta is not zero.
    pub pan_nonzero: bool,
    /// A viewport size is known and neither of its sides is zero.
    pub viewport_known: bool,
    /// The sum of line and pixel zoom is not zero.
    pub zoom_nonzero: bool,
}

/// Which deltas are integrated into the targets this frame.
#[derive(Clone, Copy, Debug, PartialEq, Eq, Default)]
pub struct IntegrationPlan {
    pub orbit: bool,
    pub pan: bool,
    pub zoom: bool,
}

impl IntegrationPlan {
    /// Some target was moved by input.
    pub open spec fn moved(self) -> bool {
        self.orbit || self.pan || self.zoom
    }

    pub fn has_moved(&self) -> (r: bool)
        ensures
            r == self.moved(),
    {
        self.orbit || self.pan || self.zoom
    }
}

/// Orbit motion is normalised by the window size and pan motion by the viewport size, so
/// each is integrated only when its delta is not zero and that size is usable; zoom needs
/// no size.
pub fn plan_integration(input: &FrameInput) -> (r: IntegrationPlan)
    ensures
        r.orbit == (input.orbit_nonzero && input.window_known),
        r.pan == (input.pan_nonzero && input.viewport_known),
        r.zoom == input.zoom_nonzero,
{
    IntegrationPlan {
        orbit: input.orbit_nonzero && input.window_known,
        pan: input.pan_nonzero && input.viewport_known,
        zoom: input.zoom_nonzero,
    }
}

impl CameraFlags {
    /// Latches initialization; it is never undone.
    pub fn mark_initialized(&mut self)
        ensures
            final(self).initialized,
            final(self).is_upside_down == old(self).is_upside_down,
            final(self).force_update == old(self).force_update,
    {
        self.initialized = true;
    }

    /// Measures the upside-down state again only when the orbit binding started or ended
    /// this frame, so that the orbit direction does not flip in the middle of a drag.
    pub fn update_upside_down(&mut self, orbit_button_changed: bool, up_below: bool)
        ensures
            final(self).is_upside_down == upside_down_step(
                old(self).is_upside_down,
                orbit_button_changed,
                up_below,
            ),
            final(self).initialized == old(self).initialized,
            final(self).force_update == old(self).force_update,
    {
        if orbit_button_changed {
            self.is_upside_down = up_below;
        }
    }

    /// Decides whether the transform is recomputed this frame; a forced update is honoured
    /// once and then cleared.
    pub fn finish_frame(&mut self, changes: &FrameChanges) -> (advance: bool)
        ensures
            advance == advances(*changes, old(self).force_update),
            old(self).force_update ==> advance,
            !final(self).force_update,
            final(self).initialized == old(self).initialized,
            final(self).is_upside_down == old(self).is_upside_down,
    {
        let advance = changes.has_moved || changes.yaw_differs || changes.pitch_differs
            || changes.radius_differs || changes.focus_differs || self.force_update;
        if advance {
            self.force_update = false;
        }
        advance
    }
}

/// Over any run of frames in which the orbit button neither goes down nor comes up,
/// `is_upside_down` keeps its value, whatever the camera's orientation and the other
/// buttons and modifiers do.
pub proof fn lemma_upside_down_gated(is_upside_down: bool, frames: Seq<(MouseKeyState, bool)>)
    requires
        forall|i: int|
            0 <= i < frames.len() ==> !(#[trigger] frames[i]).0.orbit_button.just_pressed
                && !frames[i].0.orbit_button.just_released,
    ensures
        upside_down_through(is_upside_down, frames) == is_upside_down,
    decreases frames.len(),
{
    if frames.len() > 0 {
        let rest = frames.drop_first();
        assert forall|i: int|
            0 <= i < rest.len() implies !(#[trigger] rest[i]).0.orbit_button.just_pressed
            && !rest[i].0.orbit_button.just_released by {
            assert(rest[i] == frames[i + 1]);
        }
        assert(!frames[0].0.orbit_button.just_pressed && !frames[0].0.orbit_button.just_released);
        lemma_upside_down_gated(is_upside_down, rest);
    }
}

/// On a frame where the orbit binding starts or ends, `is_upside_down` takes the measured
/// orientation, whatever it was before.
pub proof fn lemma_upside_down_edge(is_upside_down: bool, keys: MouseKeyState, up_below: bool)
    requires
        orbit_edge(keys),
    ensures
        upside_down_through(is_upside_down, seq![(keys, up_below)]) == up_below,
{
    let frames = seq![(keys, up_below)];
    assert(frames[0] == (keys, up_below));
    assert(frames.drop_first().len() == 0);
    assert(upside_down_through(up_below, frames.drop_first()) == up_below);
}

} // verus!
