use splashgate::window::centered_axis;
use splashgate::window::centered_position;

#[test]
fn full_hd_display_centers_a_400_by_300_window_at_760_390() {
    assert_eq!(centered_position(1920, 1080, 400, 300), (760, 390));
}

#[test]
fn each_window_is_centered_from_its_own_size() {
    // Splashscreen and main window of different sizes on one display.
    assert_eq!(centered_position(2560, 1440, 400, 300), (1080, 570));
    assert_eq!(centered_position(2560, 1440, 1280, 720), (640, 360));
}

#[test]
fn window_matching_the_display_sits_at_the_origin() {
    assert_eq!(centered_position(1920, 1080, 1920, 1080), (0, 0));
}

#[test]
fn overhanging_window_gets_a_negative_coordinate() {
    // (100 - 301) / 2 truncates toward zero.
    assert_eq!(centered_axis(100, 301), -100);
    assert_eq!(centered_axis(0, 2), -1);
}

#[test]
fn odd_leftover_space_rounds_down() {
    assert_eq!(centered_axis(101, 100), 0);
    assert_eq!(centered_axis(1080, 301), 389);
}
