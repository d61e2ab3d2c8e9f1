use vstd::prelude::*;

use crate::input::DragTarget;

verus! {

/// The control scheme to use for touch input. Given that some touch gestures don't make sense
/// being changed (e.g. pinch to zoom), there is just a set of different schemes rather than
/// full customization.
#[derive(Clone, Copy, Debug, PartialEq, Eq, Default)]
pub enum TouchControls {
    /// One finger move orbits; two finger move pans; two finger pinch zooms.
    #[default]
    OneFingerOrbit,
    /// One finger move pans; two finger move orbits; two finger pinch zooms.
    TwoFingerOrbit,
}

impl TouchControls {
    /// Where the motion of a single touch goes.
    pub open spec fn one_finger_spec(self) -> DragTarget {
        match self {
            TouchControls::OneFingerOrbit => DragTarget::Orbit,
            TouchControls::TwoFingerOrbit => DragTarget::Pan,
        }
    }

    /// Where the motion of the midpoint of two touches goes.
    pub open spec fn two_finger_spec(self) -> DragTarget {
        match self {
            TouchControls::OneFingerOrbit => DragTarget::Pan,
            TouchControls::TwoFingerOrbit => DragTarget::Orbit,
        }
    }

    pub fn one_finger_target(&self) -> (r: DragTarget)
        ensures
            r == self.one_finger_spec(),
    {
        match self {
            TouchControls::OneFingerOrbit => DragTarget::Orbit,
            TouchControls::TwoFingerOrbit => DragTarget::Pan,
        }
    }

    pub fn two_finger_target(&self) -> (r: DragTarget)
        ensures
            r == self.two_finger_spec(),
    {
        match self {
            TouchControls::OneFingerOrbit => DragTarget::Pan,
            TouchControls::TwoFingerOrbit => DragTarget::Orbit,
        }
    }
}

/// The touches of two consecutive frames that a gesture can be read from.
#[derive(Debug, PartialEq, Eq)]
pub enum TouchFrames<T> {
    /// No gesture: no touches, or the number of touches changed between the frames.
    NoGesture,
    /// One touch in both frames.
    OneFinger { curr: T, prev: T },
    /// Two touches in both frames.
    TwoFinger { curr1: T, curr2: T, prev1: T, prev2: T },
}

/// Stores the touches of the current and the previous frame (at most two of each).
#[derive(Debug)]
pub struct TouchTracker<T> {
    pub curr_pressed: (Option<T>, Option<T>),
    pub prev_pressed: (Option<T>, Option<T>),
}

impl<T> Default for TouchTracker<T> {
    fn default() -> (r: Self)
        ensures
            r.curr_pressed == (None::<T>, None::<T>),
            r.prev_pressed == (None::<T>, None::<T>),
    {
        TouchTracker { curr_pressed: (None, None), prev_pressed: (None, None) }
    }
}

impl<T: Copy> TouchTracker<T> {
    /// The tracker after a frame whose pressed touches are `pressed`.
    pub open spec fn recorded(self, pressed: Seq<T>) -> TouchTracker<T> {
        if pressed.len() == 0 {
            TouchTracker { curr_pressed: (None, None), prev_pressed: (None, None) }
        } else if pressed.len() == 1 {
            TouchTracker { curr_pressed: (Some(pressed[0]), None), prev_pressed: self.curr_pressed }
        } else if pressed.len() == 2 {
            TouchTracker {
                curr_pressed: (Some(pressed[0]), Some(pressed[1])),
                prev_pressed: self.curr_pressed,
            }
        } else {
            self
        }
    }

    /// The gesture frames that the stored touches make up.
    pub open spec fn frames_spec(self) -> TouchFrames<T> {
        match (self.curr_pressed, self.prev_pressed) {
            ((Some(curr), None), (Some(prev), None)) => TouchFrames::OneFinger { curr, prev },
            ((Some(curr1), Some(curr2)), (Some(prev1), Some(prev2))) => TouchFrames::TwoFinger {
                curr1,
                curr2,
                prev1,
                prev2,
            },
            _ => TouchFrames::NoGesture,
        }
    }

    /// Pairs the current touches with those of the previous frame; gestures are only
    /// read when both frames have the same number of touches.
    pub fn gesture_frames(&self) -> (r: TouchFrames<T>)
        ensures
            r == self.frames_spec(),
    {
        match (self.curr_pressed, self.prev_pressed) {
            ((Some(curr), None), (Some(prev), None)) => TouchFrames::OneFinger { curr, prev },
            ((Some(curr1), Some(curr2)), (Some(prev1), Some(prev2))) => TouchFrames::TwoFinger {
                curr1,
                curr2,
                prev1,
                prev2,
            },
            _ => TouchFrames::NoGesture,
        }
    }
}

/// Records the touches pressed this frame: none clears the tracker, one or two shift the
/// current touches to the previous slot, three or more leave it as it is.
pub fn touch_tracker<T: Copy>(tracker: &mut TouchTracker<T>, pressed: &Vec<T>)
    ensures
        *final(tracker) == old(tracker).recorded(pressed@),
{
    let n = pressed.len();
    if n == 0 {
        tracker.curr_pressed = (None, None);
        tracker.prev_pressed = (None, None);
    } else if n == 1 {
        let touch = pressed[0];
        tracker.prev_pressed = tracker.curr_pressed;
        tracker.curr_pressed = (Some(touch), None);
    } else if n == 2 {
        let touch1 = pressed[0];
        let touch2 = pressed[1];
        tracker.prev_pressed = tracker.curr_pressed;
        tracker.curr_pressed = (Some(touch1), Some(touch2));
    }
}

/// Gestures are read from the touches of the last two frames alone: two trackers with any
/// history that then record the same two frames (of at most two touches each) yield the
/// same gesture frames.
pub proof fn lemma_gestures_forget_history<T: Copy>(
    a: TouchTracker<T>,
    b: TouchTracker<T>,
    first: Seq<T>,
    second: Seq<T>,
)
    requires
        first.len() <= 2,
        second.len() <= 2,
    ensures
        a.recorded(first).recorded(second).frames_spec() == b.recorded(first).recorded(
            second,
        ).frames_spec(),
{
}

} // verus!
