use bevy_panorbit_camera::OptionalClamp;

#[test]
fn clamp_without_bounds_keeps_value() {
    assert_eq!(7i32.clamp_optional(None, None), 7);
    assert_eq!((-7i64).clamp_optional(None, None), -7);
}

#[test]
fn clamp_raises_to_lower_bound() {
    assert_eq!(3i32.clamp_optional(Some(5), None), 5);
    assert_eq!(3u32.clamp_optional(Some(5), Some(10)), 5);
}

#[test]
fn clamp_lowers_to_upper_bound() {
    assert_eq!(30i64.clamp_optional(None, Some(10)), 10);
    assert_eq!(30u64.clamp_optional(Some(5), Some(10)), 10);
}

#[test]
fn clamp_keeps_value_inside_bounds() {
    assert_eq!(7i32.clamp_optional(Some(5), Some(10)), 7);
    assert_eq!(5i32.clamp_optional(Some(5), Some(10)), 5);
    assert_eq!(10i32.clamp_optional(Some(5), Some(10)), 10);
}

#[test]
fn clamp_with_crossed_bounds_takes_upper() {
    assert_eq!(0i32.clamp_optional(Some(10), Some(5)), 5);
    assert_eq!(20i32.clamp_optional(Some(10), Some(5)), 5);
}

#[test]
fn clamp_twice_equals_clamp_once() {
    for x in [-100i64, -1, 0, 3, 7, 12, 1000] {
        let once = x.clamp_optional(Some(0), Some(10));
        assert_eq!(once.clamp_optional(Some(0), Some(10)), once);
    }
}

#[test]
fn zoom_floor_holds_after_repeated_zoom_steps() {
    // a radius in hundredths, zoomed in hard over many frames
    let floor: i64 = 5;
    let mut radius: i64 = 500;
    for _ in 0..50 {
        radius = (radius - radius / 5 - 3).clamp_optional(Some(floor), None);
        assert!(radius >= floor);
    }
    assert_eq!(radius, floor);
}
