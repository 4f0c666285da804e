use voicepaste::overlay::calculate_overlay_position;

#[test]
fn retina_cursor_coordinates_are_scaled_before_positioning() {
    // The pointer (500, 400) in points is (1000, 800) in pixels at scale 2.
    let position = calculate_overlay_position(Some((1000, 800)), (0, 0), (2880, 1800), (72, 56), false);
    assert_eq!(position, Some((1014, 820)));
}

#[test]
fn overlay_is_centered_when_requested() {
    let position = calculate_overlay_position(Some((100, 100)), (100, 200), (1200, 800), (200, 44), true);
    assert_eq!(position, Some((600, 578)));
}

#[test]
fn overlay_falls_back_to_center_without_cursor() {
    let position = calculate_overlay_position(None, (0, 0), (1000, 600), (200, 44), false);
    assert_eq!(position, Some((400, 278)));
}

#[test]
fn overlay_flips_above_pointer_at_bottom_edge() {
    // The pointer (500, 880) in points is (1000, 1760) in pixels at scale 2.
    let position = calculate_overlay_position(Some((1000, 1760)), (0, 0), (2880, 1800), (72, 56), false);
    assert_eq!(position, Some((1014, 1692)));
}

#[test]
fn overlay_stays_inside_the_left_and_right_edges() {
    assert_eq!(
        calculate_overlay_position(Some((2870, 10)), (0, 0), (2880, 1800), (72, 56), false),
        Some((2800, 30))
    );
    assert_eq!(
        calculate_overlay_position(Some((-100, -100)), (0, 0), (2880, 1800), (72, 56), false),
        Some((8, 8))
    );
    assert_eq!(
        calculate_overlay_position(None, (0, 0), (100, 100), (201, 45), false),
        Some((-50, 27))
    );
}

#[test]
fn overlay_reports_overflow() {
    assert_eq!(
        calculate_overlay_position(Some((i32::MAX, 0)), (0, 0), (10, 10), (1, 1), false),
        None
    );
}
