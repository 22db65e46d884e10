use brp_fixture::animation::capture_anchor;

#[test]
fn first_capture_takes_the_current_position() {
    let mut anchor: Option<f32> = None;
    assert_eq!(capture_anchor(&mut anchor, 1.0), 1.0);
    assert_eq!(anchor, Some(1.0));
}

#[test]
fn later_captures_keep_the_first_anchor() {
    let mut anchor: Option<f32> = None;
    capture_anchor(&mut anchor, 1.0);
    assert_eq!(capture_anchor(&mut anchor, 1.21875), 1.0);
    assert_eq!(capture_anchor(&mut anchor, -40.0), 1.0);
    assert_eq!(anchor, Some(1.0));
}

#[test]
fn a_recorded_anchor_is_never_replaced() {
    let mut anchor: Option<i64> = Some(-3);
    assert_eq!(capture_anchor(&mut anchor, 12), -3);
    assert_eq!(anchor, Some(-3));
}

#[test]
fn oscillation_swings_around_the_anchor() {
    let (speed, range): (f32, f32) = (2.0, 0.4375);
    let mut anchor: Option<f32> = None;
    let mut height: f32 = 1.0;
    for elapsed in [0.0f32, 0.25, 0.5, 4.0] {
        let offset = (elapsed * speed).sin() * range / 2.0;
        height = capture_anchor(&mut anchor, height) + offset;
        assert_eq!(height, 1.0 + offset);
        assert!((height - 1.0).abs() <= range / 2.0);
    }
    assert_eq!(anchor, Some(1.0));
}

#[test]
fn oscillation_starts_at_the_anchor() {
    let mut anchor: Option<f32> = None;
    let offset = (0.0f32 * 2.0).sin() * 0.4375 / 2.0;
    assert_eq!(capture_anchor(&mut anchor, 1.0) + offset, 1.0);
}

#[test]
fn anchor_survives_any_number_of_ticks() {
    let mut anchor: Option<i32> = None;
    for position in [5, -2, 9, 0, 5, 100] {
        assert_eq!(capture_anchor(&mut anchor, position), 5);
        assert_eq!(anchor, Some(5));
    }
}
