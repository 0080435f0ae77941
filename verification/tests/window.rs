use slsh_engine::window::{center_window, Resolution};

#[test]
fn a_window_has_its_own_size_and_fullscreen_that_of_the_mode() {
    assert_eq!(Resolution::Windowed(1024, 768).size(1920, 1080), (1024, 768));
    assert_eq!(Resolution::Fullscreen.size(1920, 1080), (1920, 1080));
    assert_eq!(Resolution::FullscreenWithRes(800, 600).size(1920, 1080), (800, 600));
    assert!(!Resolution::Windowed(1, 1).is_fullscreen());
    assert!(Resolution::Fullscreen.is_fullscreen());
    assert!(Resolution::FullscreenWithRes(1, 1).is_fullscreen());
}

#[test]
fn a_window_is_centred_on_the_monitor() {
    assert_eq!(center_window(&Resolution::Windowed(1024, 768), 1920, 1080), Some((448, 156)));
    assert_eq!(center_window(&Resolution::Windowed(1921, 1081), 1920, 1080), Some((0, 0)));
    assert_eq!(center_window(&Resolution::Windowed(3000, 2000), 1920, 1080), Some((-540, -460)));
    assert_eq!(center_window(&Resolution::Windowed(5, 5), 5, 4), Some((0, 0)));
    assert_eq!(
        center_window(&Resolution::Windowed(u32::MAX, 0), 0, u32::MAX),
        Some((-(i32::MAX), i32::MAX))
    );
    assert_eq!(center_window(&Resolution::Fullscreen, 1920, 1080), None);
    assert_eq!(center_window(&Resolution::FullscreenWithRes(800, 600), 1920, 1080), None);
}
