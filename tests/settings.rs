use arena_sim::items::Item;
use arena_sim::settings::{Resolution, UserSettings, WindowSettings};

#[test]
fn resolutions_cycle_round() {
    let mut r = Resolution::default();
    let mut seen = Vec::new();
    for _ in 0..4 {
        seen.push((r.pixels(), r.scale()));
        r.cycle();
    }
    assert_eq!(r, Resolution::Logical);
    assert_eq!(
        seen,
        vec![((640, 360), 1), ((1280, 720), 2), ((1920, 1080), 3), ((2560, 1440), 4)]
    );
}

#[test]
fn window_modes_cycle_back_to_logical() {
    let mut w = WindowSettings::Windowed(Resolution::QHD);
    assert_eq!(w.mode_str(), "Windowed");
    w.cycle_mode();
    assert_eq!(w, WindowSettings::Borderless);
    assert_eq!(w.mode_str(), "Borderless");
    w.cycle_mode();
    assert_eq!(w, WindowSettings::Fullscreen);
    assert_eq!(w.mode_str(), "Fullscreen");
    w.cycle_mode();
    assert_eq!(w, WindowSettings::Windowed(Resolution::Logical));
}

#[test]
fn resolution_changes_only_when_windowed() {
    let mut w = WindowSettings::default();
    w.cycle_res();
    assert_eq!(w, WindowSettings::Windowed(Resolution::HD));
    assert_eq!(w.resolution(), Resolution::HD);
    let mut b = WindowSettings::Borderless;
    b.cycle_res();
    assert_eq!(b, WindowSettings::Borderless);
    assert_eq!(b.resolution(), Resolution::FullHD);
    assert_eq!(UserSettings::default().window, WindowSettings::Windowed(Resolution::Logical));
}

#[test]
fn banana_image_path() {
    assert_eq!(Item::Banana.image(), "banana.png");
}
