use ep_start::configuration::{AppPreferences, StartPreferences, StartShortcut};
use ep_start::localization::{
    Language, SettingText, TextResources, action_label, decimal, language_for_locale, section_label, setting_icon,
    setting_range, setting_ratio, setting_text, setting_value, sidebar_label,
};
use ep_start::platform::{ParseFailure, parse_u32};
use ep_start::settings::SidebarItemId;
use ep_start::settings::action::ActionId;
use ep_start::settings::item::SettingId;
use ep_start::settings::section::SectionId;

fn text(title: &str) -> SettingText {
    SettingText { title: title.to_string(), description: format!("{} description", title) }
}

fn resources() -> TextResources {
    TextResources {
        settings: "Settings".to_string(),
        start: "Start".to_string(),
        behavior: "Behavior".to_string(),
        menu_background: "Menu background".to_string(),
        tiles: "Tiles".to_string(),
        debug: "Debug".to_string(),
        overlay_opacity: text("Overlay"),
        background_blur: text("Blur"),
        animation_duration: text("Animation"),
        start_shortcut: text("Shortcut"),
        start_button_click: text("Start button"),
        group_columns: text("Columns"),
        tiles_per_row: text("Tiles per row"),
        rounded_tiles: text("Rounded tiles"),
        rounded_tile_bars: text("Rounded bars"),
        tile_animation_duration: text("Tile animation"),
        tile_background_opacity: text("Tile background"),
        tile_bar_background_opacity: text("Bar background"),
        restart_shell: text("Restart"),
        shortcut_win_shift: "Win + Shift".to_string(),
        shortcut_win: "Win".to_string(),
        on: "On".to_string(),
        off: "Off".to_string(),
        restart_now: "Restart now".to_string(),
        undo: "Undo".to_string(),
        save: "Save".to_string(),
        open_settings: "Open settings".to_string(),
        exit: "Exit".to_string(),
    }
}

fn preferences() -> AppPreferences {
    AppPreferences {
        start: StartPreferences {
            overlay_opacity_percent: 50,
            blur_percent: 0,
            opening_duration_ms: 250,
            shortcut: StartShortcut::Win,
            open_on_start_button_click: false,
            rounded_tiles: true,
            rounded_tile_bars: true,
            tile_animation_duration_ms: 220,
            tile_background_opacity_percent: 64,
            tile_bar_background_opacity_percent: 64,
            tile_bar_columns: 3,
            tiles_per_row: 4,
        },
    }
}

#[test]
fn decimal_notation() {
    assert_eq!(decimal(0), "0");
    assert_eq!(decimal(7), "7");
    assert_eq!(decimal(10), "10");
    assert_eq!(decimal(4294967295), "4294967295");
}

#[test]
fn parsing_reads_back_the_decimal_notation() {
    for n in [0u32, 9, 10, 12345, 4294967295] {
        assert_eq!(parse_u32(&decimal(n)), Ok(n));
    }
}

#[test]
fn parsing_matches_the_standard_library() {
    for source in ["", "+", "-", "-1", "+12", "12a", "4294967296", "99999999999x", "007", "1 2"] {
        let ours = parse_u32(source);
        let theirs = source.parse::<u32>();
        match (ours, theirs) {
            (Ok(a), Ok(b)) => assert_eq!(a, b),
            (Err(ParseFailure::Empty), Err(e)) => assert_eq!(e.to_string(), "cannot parse integer from empty string"),
            (Err(ParseFailure::InvalidDigit), Err(e)) => assert_eq!(e.to_string(), "invalid digit found in string"),
            (Err(ParseFailure::PosOverflow), Err(e)) => assert_eq!(e.to_string(), "number too large to fit in target type"),
            (a, b) => panic!("{:?} against {:?} for {:?}", a, b, source),
        }
    }
}

#[test]
fn locale_picks_the_language() {
    assert_eq!(language_for_locale("zh-cn"), Language::SimplifiedChinese);
    assert_eq!(language_for_locale("zh"), Language::SimplifiedChinese);
    assert_eq!(language_for_locale("en-us"), Language::English);
    assert_eq!(language_for_locale("z"), Language::English);
    assert_eq!(language_for_locale(""), Language::English);
}

#[test]
fn labels_come_from_the_resources() {
    let text = resources();
    assert_eq!(sidebar_label(&text, SidebarItemId::Start), "Start");
    assert_eq!(section_label(&text, SectionId::Tiles), "Tiles");
    assert_eq!(section_label(&text, SectionId::Debug), "Debug");
    assert_eq!(action_label(&text, ActionId::Save), "Save");
    assert_eq!(setting_text(&text, SettingId::Blur).title, "Blur");
    assert_eq!(setting_icon(SettingId::RestartShell), "↻");
}

#[test]
fn values_are_shown_with_their_units() {
    let text = resources();
    let prefs = preferences();
    assert_eq!(setting_value(&text, &prefs, SettingId::Overlay), "50%");
    assert_eq!(setting_value(&text, &prefs, SettingId::AnimationDuration), "250 ms");
    assert_eq!(setting_value(&text, &prefs, SettingId::Shortcut), "Win");
    assert_eq!(setting_value(&text, &prefs, SettingId::StartButtonClick), "Off");
    assert_eq!(setting_value(&text, &prefs, SettingId::RoundedTiles), "On");
    assert_eq!(setting_value(&text, &prefs, SettingId::BarColumns), "3");
    assert_eq!(setting_value(&text, &prefs, SettingId::TileAnimationDuration), "220 ms");
    assert_eq!(setting_value(&text, &prefs, SettingId::RestartShell), "Restart now");
    assert_eq!(setting_range(SettingId::AnimationDuration), ("0 ms", "5000 ms"));
    assert_eq!(setting_range(SettingId::Shortcut), ("", ""));
    assert_eq!(setting_ratio(&prefs, SettingId::Overlay), (50, 100));
    assert_eq!(setting_ratio(&prefs, SettingId::Shortcut), (0, 1));
}
