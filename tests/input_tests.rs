use bevy_panorbit_camera::input::{
    drag_target, orbit_button_changed, orbit_just_pressed, orbit_just_released, orbit_pressed,
    pan_just_pressed, pan_pressed, process_pinch_events, process_scroll_events, route_scroll,
    ButtonState, DragTarget, MouseKeyState, ScrollRoute, ScrollUnit, TrackpadMode,
};

fn held() -> ButtonState {
    ButtonState { pressed: true, just_pressed: false, just_released: false }
}

fn went_down() -> ButtonState {
    ButtonState { pressed: true, just_pressed: true, just_released: false }
}

fn went_up() -> ButtonState {
    ButtonState { pressed: false, just_pressed: false, just_released: true }
}

#[test]
fn orbit_button_alone_orbits() {
    let keys = MouseKeyState { orbit_button: held(), ..Default::default() };
    assert!(orbit_pressed(&keys));
    assert!(!pan_pressed(&keys));
    assert_eq!(drag_target(&keys), DragTarget::Orbit);
}

#[test]
fn pan_button_alone_pans() {
    let keys = MouseKeyState { pan_button: held(), ..Default::default() };
    assert!(!orbit_pressed(&keys));
    assert!(pan_pressed(&keys));
    assert_eq!(drag_target(&keys), DragTarget::Pan);
}

#[test]
fn no_button_is_idle() {
    let keys = MouseKeyState::default();
    assert_eq!(drag_target(&keys), DragTarget::Idle);
}

#[test]
fn orbit_wins_when_both_bindings_hold() {
    let keys = MouseKeyState { orbit_button: held(), pan_button: held(), ..Default::default() };
    assert!(orbit_pressed(&keys));
    assert!(pan_pressed(&keys));
    assert_eq!(drag_target(&keys), DragTarget::Orbit);
}

#[test]
fn orbit_modifier_must_be_held() {
    let released = MouseKeyState {
        orbit_button: held(),
        modifier_orbit: Some(false),
        ..Default::default()
    };
    assert!(!orbit_pressed(&released));
    let pressed = MouseKeyState { modifier_orbit: Some(true), ..released };
    assert!(orbit_pressed(&pressed));
}

#[test]
fn held_pan_modifier_blocks_orbit() {
    // same button for both, told apart by the pan modifier
    let keys = MouseKeyState {
        orbit_button: held(),
        pan_button: held(),
        modifier_pan: Some(true),
        ..Default::default()
    };
    assert!(!orbit_pressed(&keys));
    assert!(pan_pressed(&keys));
    assert_eq!(drag_target(&keys), DragTarget::Pan);
}

#[test]
fn held_orbit_modifier_blocks_pan() {
    let keys = MouseKeyState {
        pan_button: went_down(),
        modifier_orbit: Some(true),
        ..Default::default()
    };
    assert!(!pan_pressed(&keys));
    assert!(!pan_just_pressed(&keys));
}

#[test]
fn orbit_edges_are_reported() {
    let down = MouseKeyState { orbit_button: went_down(), ..Default::default() };
    assert!(orbit_just_pressed(&down));
    assert!(!orbit_just_released(&down));
    assert!(orbit_button_changed(&down));
    let up = MouseKeyState { orbit_button: went_up(), ..Default::default() };
    assert!(!orbit_just_pressed(&up));
    assert!(orbit_just_released(&up));
    assert!(orbit_button_changed(&up));
    let steady = MouseKeyState { orbit_button: held(), ..Default::default() };
    assert!(!orbit_button_changed(&steady));
}

#[test]
fn modifier_change_mid_drag_is_no_orbit_edge() {
    let keys = MouseKeyState {
        orbit_button: held(),
        modifier_pan: Some(true),
        ..Default::default()
    };
    assert!(!orbit_button_changed(&keys));
}

#[test]
fn pan_just_pressed_needs_the_edge() {
    let down = MouseKeyState { pan_button: went_down(), ..Default::default() };
    assert!(pan_just_pressed(&down));
    let steady = MouseKeyState { pan_button: held(), ..Default::default() };
    assert!(!pan_just_pressed(&steady));
}

#[test]
fn default_trackpad_zooms_on_every_scroll() {
    assert_eq!(route_scroll(TrackpadMode::Default, ScrollUnit::Line), ScrollRoute::LineZoom);
    assert_eq!(route_scroll(TrackpadMode::Default, ScrollUnit::Pixel), ScrollRoute::PixelZoom);
}

#[test]
fn blender_like_trackpad_routes_pixel_scroll() {
    let plain = TrackpadMode::BlenderLike { modifier_pan: Some(false), modifier_zoom: Some(false) };
    assert_eq!(route_scroll(plain, ScrollUnit::Pixel), ScrollRoute::Orbit);
    assert_eq!(route_scroll(plain, ScrollUnit::Line), ScrollRoute::LineZoom);
    let panning = TrackpadMode::BlenderLike { modifier_pan: Some(true), modifier_zoom: Some(false) };
    assert_eq!(route_scroll(panning, ScrollUnit::Pixel), ScrollRoute::Pan);
    let zooming = TrackpadMode::BlenderLike { modifier_pan: Some(true), modifier_zoom: Some(true) };
    assert_eq!(route_scroll(zooming, ScrollUnit::Pixel), ScrollRoute::PixelZoom);
}

#[test]
fn blender_like_without_zoom_modifier_zooms() {
    let mode = TrackpadMode::BlenderLike { modifier_pan: Some(false), modifier_zoom: None };
    assert_eq!(route_scroll(mode, ScrollUnit::Pixel), ScrollRoute::PixelZoom);
}

#[test]
fn scroll_events_are_routed_in_order() {
    let mode = TrackpadMode::BlenderLike { modifier_pan: Some(false), modifier_zoom: Some(false) };
    let routes =
        process_scroll_events(mode, &vec![ScrollUnit::Line, ScrollUnit::Pixel, ScrollUnit::Line]);
    assert_eq!(routes, vec![ScrollRoute::LineZoom, ScrollRoute::Orbit, ScrollRoute::LineZoom]);
    assert!(process_scroll_events(mode, &vec![]).is_empty());
}

#[test]
fn pinch_zoom_needs_enabling() {
    let keys = MouseKeyState::default();
    assert!(!process_pinch_events(false, TrackpadMode::Default, &keys));
    assert!(process_pinch_events(true, TrackpadMode::Default, &keys));
}

#[test]
fn held_modifier_suppresses_pinch_zoom() {
    let keys = MouseKeyState { modifier_pan: Some(true), ..Default::default() };
    assert!(!process_pinch_events(true, TrackpadMode::Default, &keys));
    let free = MouseKeyState { modifier_pan: Some(false), ..Default::default() };
    let zooming = TrackpadMode::BlenderLike { modifier_pan: None, modifier_zoom: Some(true) };
    assert!(!process_pinch_events(true, zooming, &free));
    let idle = TrackpadMode::BlenderLike { modifier_pan: Some(false), modifier_zoom: Some(false) };
    assert!(process_pinch_events(true, idle, &free));
}
