use ep_start::geometry::{Rect, UiRect};
use ep_start::settings::theme::{SettingsTheme, accent_from_colorization, apps_use_light_theme, rgb, system_accent};
use ep_start::settings::components::{
    SidebarItemGeometry, choice_control_bounds, choice_control_contains, setting_button_bounds, setting_button_contains,
    slider_popup_area, slider_track_bounds, switch_control_bounds, switch_control_contains,
};
use ep_start::settings::layout::control_dpi_ok;
use ep_start::settings::window::{
    SettingsMessage, WindowSize, WindowSizeStore, classify_settings_message, message_result, min_track_size,
    point_from_lparam, settings_window_bounds, wheel_delta, window_bounds_fits,
};

#[test]
fn remembered_size_defaults_and_storage() {
    assert_eq!(WindowSizeStore::load(None, None), WindowSize { width: 1100, height: 720 });
    assert_eq!(WindowSizeStore::load(Some(800), None), WindowSize { width: 800, height: 720 });
    assert_eq!(WindowSizeStore::save(WindowSize { width: 0, height: -5 }), (1, 1));
    assert_eq!(WindowSizeStore::save(WindowSize { width: 900, height: 600 }), (900, 600));
}

#[test]
fn the_window_opens_centred_and_within_the_work_area() {
    let work = Rect { left: 0, top: 0, right: 1920, bottom: 1040 };
    assert_eq!(settings_window_bounds(work, WindowSize { width: 1100, height: 720 }, 96, 96), (410, 160, 1100, 720));
    assert_eq!(settings_window_bounds(work, WindowSize { width: 3000, height: 100 }, 96, 96), (24, 290, 1872, 460));
    let small = Rect { left: 0, top: 0, right: 500, bottom: 400 };
    assert_eq!(settings_window_bounds(small, WindowSize { width: 1100, height: 720 }, 96, 96), (-60, -30, 620, 460));
    assert!(window_bounds_fits(work, WindowSize { width: 1100, height: 720 }, 96, 96));
    assert!(window_bounds_fits(work, WindowSize { width: 1100, height: 720 }, 100000, 100000));
    assert!(!window_bounds_fits(work, WindowSize { width: 1100, height: 720 }, 4000000, 96));
    assert!(!window_bounds_fits(Rect { left: i32::MIN, top: 0, right: i32::MAX, bottom: 10 }, WindowSize { width: 1, height: 1 }, 96, 96));
    assert_eq!(min_track_size(144), (930, 690));
}

#[test]
fn window_messages_are_read() {
    assert_eq!(point_from_lparam(0x0014_000A), (10, 20));
    assert_eq!(point_from_lparam(0xFFFF_FFFE), (-2, -1));
    assert_eq!(wheel_delta(0xFF88_0000), -120);
    assert_eq!(classify_settings_message(0x0201, 0, 0x0014_000A), SettingsMessage::PointerDown(10, 20));
    assert_eq!(classify_settings_message(0x020A, 0x0078_0000, 0), SettingsMessage::MouseWheel(120));
    assert_eq!(classify_settings_message(0x8032, 0, 0), SettingsMessage::Show);
    assert_eq!(classify_settings_message(0x1234, 0, 0), SettingsMessage::Other);
    assert_eq!(message_result(SettingsMessage::EraseBackground), Some(1));
    assert_eq!(message_result(SettingsMessage::Paint), Some(0));
    assert_eq!(message_result(SettingsMessage::NcDestroy), None);
}

#[test]
fn control_parts() {
    let control = Rect { left: 754, top: 122, right: 1032, bottom: 166 };
    assert_eq!(choice_control_bounds(control, 96), Rect { left: 916, top: 128, right: 1032, bottom: 160 });
    assert!(choice_control_contains(control, 96, 1000, 140));
    assert!(!choice_control_contains(control, 96, 800, 140));
    assert_eq!(setting_button_bounds(control, 96), Rect { left: 916, top: 128, right: 1032, bottom: 160 });
    assert!(setting_button_contains(control, 96, 916, 128));
    assert_eq!(switch_control_bounds(control, 96), Rect { left: 982, top: 132, right: 1032, bottom: 156 });
    assert!(switch_control_contains(control, 96, 940, 140));
    assert!(!switch_control_contains(control, 96, 930, 140));
    assert_eq!(slider_track_bounds(control, 96), (818, 968));
    let narrow = Rect { left: 0, top: 0, right: 40, bottom: 10 };
    assert_eq!(choice_control_bounds(narrow, 96), Rect { left: 0, top: 0, right: 40, bottom: 10 });
    assert_eq!(slider_popup_area(3, 100, 300, 100, 50, 96), UiRect::new(100, 9, 150, 39));
    assert!(control_dpi_ok(10000));
    assert!(!control_dpi_ok(100000000));
    let wide = Rect { left: 0, top: 0, right: 20000, bottom: 400 };
    assert_eq!(choice_control_bounds(wide, 10000), Rect { left: 20000 - 12083, top: 0, right: 20000, bottom: 400 });
    assert_eq!(slider_popup_area(3, 100, 300, 290, 50, 96), UiRect::new(250, 9, 300, 39));
    let geometry = SidebarItemGeometry::calculate(UiRect::new(14, 88, 232, 124), 96);
    assert_eq!(geometry.icon, UiRect::new(26, 96, 46, 116));
    assert_eq!(geometry.accent, UiRect::new(14, 96, 18, 116));
    assert_eq!(geometry.text, UiRect::new(56, 88, 220, 124));
}

#[test]
fn theme_colours() {
    assert_eq!(rgb(0x12, 0x34, 0x56), 0x0056_3412);
    assert_eq!(accent_from_colorization(0xFF11_2233), rgb(0x11, 0x22, 0x33));
    assert_eq!(system_accent(None), rgb(0, 120, 212));
    assert_eq!(system_accent(Some(0xC400_78D4)), rgb(0, 0x78, 0xD4));
    assert!(apps_use_light_theme(0, 1));
    assert!(!apps_use_light_theme(2, 1));
    assert!(!apps_use_light_theme(0, 0));
    let dark = SettingsTheme::system(false, 7);
    assert!(dark.dark);
    assert_eq!(dark.card, rgb(45, 45, 45));
    assert_eq!(dark.accent, 7);
    let light = SettingsTheme::system(true, 7);
    assert!(!light.dark);
    assert_eq!(light.text, rgb(25, 25, 25));
}
