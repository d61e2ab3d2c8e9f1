use vstd::prelude::*;

verus! {

/// State of one mouse button in the current frame.
#[derive(Clone, Copy, Debug, PartialEq, Eq, Default)]
pub struct ButtonState {
    /// The button is held down.
    pub pressed: bool,
    /// The button went down this frame.
    pub just_pressed: bool,
    /// The button went up this frame.
    pub just_released: bool,
}

/// State of a camera's orbit and pan bindings in the current frame.
///
/// A modifier is `None` when the camera has no modifier configured for that
/// binding, and `Some(held)` otherwise.
#[derive(Clone, Copy, Debug, PartialEq, Eq, Default)]
pub struct MouseKeyState {
    pub orbit_button: ButtonState,
    pub pan_button: ButtonState,
    pub modifier_orbit: Option<bool>,
    pub modifier_pan: Option<bool>,
}

/// The modifier is not configured, or it is held.
pub open spec fn held_or_unbound(modifier: Option<bool>) -> bool {
    match modifier {
        Some(held) => held,
        None => true,
    }
}

/// The modifier is not configured, or it is not held.
pub open spec fn released_or_unbound(modifier: Option<bool>) -> bool {
    match modifier {
        Some(held) => !held,
        None => true,
    }
}

fn is_held_or_unbound(modifier: Option<bool>) -> (r: bool)
    ensures
        r == held_or_unbound(modifier),
{
    match modifier {
        Some(held) => held,
        None => true,
    }
}

fn is_released_or_unbound(modifier: Option<bool>) -> (r: bool)
    ensures
        r == released_or_unbound(modifier),
{
    match modifier {
        Some(held) => !held,
        None => true,
    }
}

/// Orbit binding active: its modifier (if any) held, the pan modifier (if any) not held,
/// and the orbit button in the state that `button` picks.
pub open spec fn orbit_binding(keys: MouseKeyState, button: bool) -> bool {
    held_or_unbound(keys.modifier_orbit) && button && released_or_unbound(keys.modifier_pan)
}

/// Pan binding active: its modifier (if any) held, the orbit modifier (if any) not held,
/// and the pan button in the state that `button` picks.
pub open spec fn pan_binding(keys: MouseKeyState, button: bool) -> bool {
    held_or_unbound(keys.modifier_pan) && button && released_or_unbound(keys.modifier_orbit)
}

/// Whether the orbit binding is held this frame.
pub fn orbit_pressed(keys: &MouseKeyState) -> (r: bool)
    ensures
        r == orbit_binding(*keys, keys.orbit_button.pressed),
{
    let is_pressed = is_held_or_unbound(keys.modifier_orbit) && keys.orbit_button.pressed;
    is_pressed && is_released_or_unbound(keys.modifier_pan)
}

/// Whether the orbit button went down this frame with the orbit binding's modifiers satisfied.
pub fn orbit_just_pressed(keys: &MouseKeyState) -> (r: bool)
    ensures
        r == orbit_binding(*keys, keys.orbit_button.just_pressed),
{
    let just_pressed = is_held_or_unbound(keys.modifier_orbit) && keys.orbit_button.just_pressed;
    just_pressed && is_released_or_unbound(keys.modifier_pan)
}

/// Whether the orbit button went up this frame with the orbit binding's modifiers satisfied.
pub fn orbit_just_released(keys: &MouseKeyState) -> (r: bool)
    ensures
        r == orbit_binding(*keys, keys.orbit_button.just_released),
{
    let just_released = is_held_or_unbound(keys.modifier_orbit)
        && keys.orbit_button.just_released;
    just_released && is_released_or_unbound(keys.modifier_pan)
}

/// Whether the pan binding is held this frame.
pub fn pan_pressed(keys: &MouseKeyState) -> (r: bool)
    ensures
        r == pan_binding(*keys, keys.pan_button.pressed),
{
    let is_pressed = is_held_or_unbound(keys.modifier_pan) && keys.pan_button.pressed;
    is_pressed && is_released_or_unbound(keys.modifier_orbit)
}

/// Whether the pan button went down this frame with the pan binding's modifiers satisfied.
pub fn pan_just_pressed(keys: &MouseKeyState) -> (r: bool)
    ensures
        r == pan_binding(*keys, keys.pan_button.just_pressed),
{
    let just_pressed = is_held_or_unbound(keys.modifier_pan) && keys.pan_button.just_pressed;
    just_pressed && is_released_or_unbound(keys.modifier_orbit)
}

/// The orbit binding started or ended this frame.
pub open spec fn orbit_edge(keys: MouseKeyState) -> bool {
    orbit_binding(keys, keys.orbit_button.just_pressed) || orbit_binding(
        keys,
        keys.orbit_button.just_released,
    )
}

/// Whether the orbit binding started or ended this frame.
pub fn orbit_button_changed(keys: &MouseKeyState) -> (r: bool)
    ensures
        r == orbit_edge(*keys),
{
    orbit_just_pressed(keys) || orbit_just_released(keys)
}

/// Where a pointer drag goes.
#[derive(Clone, Copy, Debug, PartialEq, Eq)]
pub enum DragTarget {
    Orbit,
    Pan,
    Idle,
}

/// Where this frame's pointer motion goes: orbit when the orbit binding is held,
/// otherwise pan when the pan binding is held, otherwise nowhere.
pub open spec fn drag_target_of(keys: MouseKeyState) -> DragTarget {
    if orbit_binding(keys, keys.orbit_button.pressed) {
        DragTarget::Orbit
    } else if pan_binding(keys, keys.pan_button.pressed) {
        DragTarget::Pan
    } else {
        DragTarget::Idle
    }
}

/// Chooses the one destination of this frame's pointer motion; orbit is checked first.
pub fn drag_target(keys: &MouseKeyState) -> (r: DragTarget)
    ensures
        r == drag_target_of(*keys),
{
    if orbit_pressed(keys) {
        DragTarget::Orbit
    } else if pan_pressed(keys) {
        DragTarget::Pan
    } else {
        DragTarget::Idle
    }
}

/// The unit of a scroll event.
#[derive(Clone, Copy, Debug, PartialEq, Eq)]
pub enum ScrollUnit {
    /// A mouse wheel step.
    Line,
    /// A fine-grained trackpad delta.
    Pixel,
}

/// How trackpad scrolling is interpreted, with the modifiers of the blender-like
/// behaviour resolved for this frame (`None`: not configured, `Some(held)` otherwise).
#[derive(Clone, Copy, Debug, PartialEq, Eq)]
pub enum TrackpadMode {
    /// Every scroll event zooms.
    Default,
    /// Pixel scrolling orbits, or pans or zooms while the matching modifier is held.
    BlenderLike { modifier_pan: Option<bool>, modifier_zoom: Option<bool> },
}

/// What a scroll event contributes to.
#[derive(Clone, Copy, Debug, PartialEq, Eq)]
pub enum ScrollRoute {
    /// Line-based zoom.
    LineZoom,
    /// Pixel-based zoom.
    PixelZoom,
    /// Panning, by the event's two-dimensional delta.
    Pan,
    /// Orbiting, by the event's two-dimensional delta.
    Orbit,
}

pub open spec fn scroll_route_of(mode: TrackpadMode, unit: ScrollUnit) -> ScrollRoute {
    match unit {
        ScrollUnit::Line => ScrollRoute::LineZoom,
        ScrollUnit::Pixel => match mode {
            TrackpadMode::Default => ScrollRoute::PixelZoom,
            TrackpadMode::BlenderLike { modifier_pan, modifier_zoom } => {
                if held_or_unbound(modifier_zoom) {
                    ScrollRoute::PixelZoom
                } else if held_or_unbound(modifier_pan) {
                    ScrollRoute::Pan
                } else {
                    ScrollRoute::Orbit
                }
            },
        },
    }
}

/// Where one scroll event goes under the given trackpad mode.
pub fn route_scroll(mode: TrackpadMode, unit: ScrollUnit) -> (r: ScrollRoute)
    ensures
        r == scroll_route_of(mode, unit),
{
    match unit {
        ScrollUnit::Line => ScrollRoute::LineZoom,
        ScrollUnit::Pixel => match mode {
            TrackpadMode::Default => ScrollRoute::PixelZoom,
            TrackpadMode::BlenderLike { modifier_pan, modifier_zoom } => {
                if is_held_or_unbound(modifier_zoom) {
                    ScrollRoute::PixelZoom
                } else if is_held_or_unbound(modifier_pan) {
                    ScrollRoute::Pan
                } else {
                    ScrollRoute::Orbit
                }
            },
        },
    }
}

/// Routes every scroll event of a frame, in order.
pub fn process_scroll_events(mode: TrackpadMode, units: &Vec<ScrollUnit>) -> (r: Vec<ScrollRoute>)
    ensures
        r@.len() == units@.len(),
        forall|i: int| 0 <= i < units@.len() ==> r@[i] == scroll_route_of(mode, #[trigger] units@[i]),
{
    let mut routes: Vec<ScrollRoute> = Vec::new();
    let mut i: usize = 0;
    while i < units.len()
        invariant
            i <= units@.len(),
            routes@.len() == i,
            forall|j: int| 0 <= j < i ==> routes@[j] == scroll_route_of(mode, #[trigger] units@[j]),
        decreases units@.len() - i,
    {
        routes.push(route_scroll(mode, units[i]));
        i = i + 1;
    }
    routes
}

/// Pinch-to-zoom applies: it is enabled, and no modifier that the camera or the
/// blender-like trackpad mode configures is held.
pub open spec fn pinch_zoom_applies(pinch_to_zoom: bool, mode: TrackpadMode, keys: MouseKeyState) -> bool {
    &&& pinch_to_zoom
    &&& released_or_unbound(keys.modifier_orbit)
    &&& released_or_unbound(keys.modifier_pan)
    &&& match mode {
        TrackpadMode::Default => true,
        TrackpadMode::BlenderLike { modifier_pan, modifier_zoom } => released_or_unbound(
            modifier_pan,
        ) && released_or_unbound(modifier_zoom),
    }
}

/// Whether this frame's pinch gestures zoom the camera.
pub fn process_pinch_events(pinch_to_zoom: bool, mode: TrackpadMode, keys: &MouseKeyState) -> (r:
    bool)
    ensures
        r == pinch_zoom_applies(pinch_to_zoom, mode, *keys),
{
    if !pinch_to_zoom {
        return false;
    }
    match mode {
        TrackpadMode::BlenderLike { modifier_pan, modifier_zoom } => {
            is_released_or_unbound(keys.modifier_orbit) && is_released_or_unbound(keys.modifier_pan)
                && is_released_or_unbound(modifier_pan) && is_released_or_unbound(modifier_zoom)
        },
        TrackpadMode::Default => {
            is_released_or_unbound(keys.modifier_orbit) && is_released_or_unbound(keys.modifier_pan)
        },
    }
}

} // verus!
