use ep_start::configuration::{
    AppPreferences, ConfigurationCandidate, ConfigurationStore, StartPreferences, StartShortcut,
    StoredStartPreferences,
};

fn stored_from_json(source: &str) -> StoredStartPreferences {
    let value: serde_json::Value = serde_json::from_str(source).unwrap();
    let start = &value["start"];
    let byte = |name: &str| start.get(name).map(|field| field.as_u64().unwrap() as u8);
    let number = |name: &str| start.get(name).map(|field| field.as_u64().unwrap() as u32);
    let flag = |name: &str| start.get(name).map(|field| field.as_bool().unwrap());
    StoredStartPreferences {
        overlay_opacity_percent: byte("overlay_opacity_percent").unwrap(),
        blur_percent: byte("blur_percent").unwrap(),
        opening_duration_ms: number("opening_duration_ms").unwrap(),
        shortcut: start.get("shortcut").map(|field| StartShortcut::from_name(field.as_str().unwrap()).unwrap()),
        open_on_start_button_click: flag("open_on_start_button_click"),
        rounded_tiles: flag("rounded_tiles"),
        rounded_tile_bars: flag("rounded_tile_bars"),
        tile_animation_duration_ms: number("tile_animation_duration_ms"),
        tile_background_opacity_percent: byte("tile_background_opacity_percent"),
        tile_bar_background_opacity_percent: byte("tile_bar_background_opacity_percent"),
        tile_bar_columns: byte("tile_bar_columns").or(byte("tile_group_columns")),
        tiles_per_row: byte("tiles_per_row"),
    }
}

fn sample() -> StartPreferences {
    StartPreferences {
        overlay_opacity_percent: 50,
        blur_percent: 0,
        opening_duration_ms: 250,
        shortcut: StartShortcut::WinShift,
        open_on_start_button_click: true,
        rounded_tiles: true,
        rounded_tile_bars: true,
        tile_animation_duration_ms: 220,
        tile_background_opacity_percent: 64,
        tile_bar_background_opacity_percent: 64,
        tile_bar_columns: 3,
        tiles_per_row: 4,
    }
}

#[test]
fn missing_shortcut_uses_win_shift() {
    let stored = stored_from_json(
        r#"{"start":{"overlay_opacity_percent":50,"blur_percent":0,"opening_duration_ms":250,"tile_bar_columns":3,"tiles_per_row":4}}"#,
    );
    let preferences = AppPreferences { start: StartPreferences::from_stored(stored) };
    assert_eq!(preferences.start.shortcut, StartShortcut::WinShift);
    assert!(preferences.start.open_on_start_button_click);
    assert!(preferences.start.rounded_tiles);
    assert!(preferences.start.rounded_tile_bars);
    assert_eq!(preferences.start.tile_animation_duration_ms, 220);
    assert_eq!(preferences.start.tile_background_opacity_percent, 64);
    assert_eq!(preferences.start.tile_bar_background_opacity_percent, 64);
}

#[test]
fn shortcut_names_are_stable() {
    assert_eq!(serde_json::to_string(StartShortcut::WinShift.name()).unwrap(), "\"win-shift\"");
    assert_eq!(serde_json::to_string(StartShortcut::Win.name()).unwrap(), "\"win\"");
}

#[test]
fn shortcut_names_read_back() {
    assert_eq!(StartShortcut::from_name("win-shift"), Some(StartShortcut::WinShift));
    assert_eq!(StartShortcut::from_name("win"), Some(StartShortcut::Win));
    assert_eq!(StartShortcut::from_name(StartShortcut::Win.name()), Some(StartShortcut::Win));
    assert_eq!(StartShortcut::from_name(StartShortcut::WinShift.name()), Some(StartShortcut::WinShift));
    assert_eq!(StartShortcut::from_name("Win"), None);
    assert_eq!(StartShortcut::from_name("win_shift"), None);
    assert_eq!(StartShortcut::from_name(""), None);
}

#[test]
fn stored_fields_override_defaults() {
    let stored = stored_from_json(
        r#"{"start":{"overlay_opacity_percent":10,"blur_percent":20,"opening_duration_ms":300,"shortcut":"win","open_on_start_button_click":false,"tile_group_columns":5,"tiles_per_row":3}}"#,
    );
    let start = StartPreferences::from_stored(stored);
    assert_eq!(start.shortcut, StartShortcut::Win);
    assert!(!start.open_on_start_button_click);
    assert_eq!(start.tile_bar_columns, 5);
    assert_eq!(start.tiles_per_row, 3);
    assert_eq!(start.overlay_opacity_percent, 10);
}

#[test]
fn normalize_brings_values_into_range() {
    let mut start = StartPreferences {
        overlay_opacity_percent: 250,
        blur_percent: 101,
        opening_duration_ms: 7777,
        tile_animation_duration_ms: 1234,
        tile_background_opacity_percent: 200,
        tile_bar_background_opacity_percent: 150,
        tile_bar_columns: 0,
        tiles_per_row: 9,
        ..sample()
    };
    start.normalize();
    assert_eq!(start.overlay_opacity_percent, 100);
    assert_eq!(start.blur_percent, 100);
    assert_eq!(start.opening_duration_ms, 5000);
    assert_eq!(start.tile_animation_duration_ms, 1000);
    assert_eq!(start.tile_background_opacity_percent, 100);
    assert_eq!(start.tile_bar_background_opacity_percent, 100);
    assert_eq!(start.tile_bar_columns, 1);
    assert_eq!(start.tiles_per_row, 5);
}

#[test]
fn normalize_rounds_durations_down_to_their_step() {
    let mut start = StartPreferences { opening_duration_ms: 249, tile_animation_duration_ms: 219, ..sample() };
    start.normalize();
    assert_eq!(start.opening_duration_ms, 200);
    assert_eq!(start.tile_animation_duration_ms, 210);
}

#[test]
fn normalize_twice_changes_nothing_more() {
    let mut once = StartPreferences { opening_duration_ms: 4321, tiles_per_row: 1, ..sample() };
    once.normalize();
    let mut twice = once;
    twice.normalize();
    assert_eq!(once, twice);
}

#[test]
fn normalized_preferences_are_left_alone() {
    let mut start = sample();
    start.normalize();
    assert_eq!(start, sample());
}

#[test]
fn discover_takes_the_first_file() {
    let candidates = vec![
        ConfigurationCandidate { path: "a/assets/settings.json".to_string(), is_file: false },
        ConfigurationCandidate { path: "b/assets/settings.json".to_string(), is_file: true },
        ConfigurationCandidate { path: "c/assets/settings.json".to_string(), is_file: true },
    ];
    let store = ConfigurationStore::discover(candidates).unwrap();
    assert_eq!(store.path(), "b/assets/settings.json");
}

#[test]
fn discover_without_file_fails() {
    let candidates = vec![ConfigurationCandidate { path: "a".to_string(), is_file: false }];
    match ConfigurationStore::discover(candidates) {
        Err(message) => assert_eq!(message, "找不到配置文件 assets/settings.json"),
        Ok(_) => panic!("no file was there"),
    }
}

#[test]
fn load_errors_name_the_file() {
    let candidates = vec![ConfigurationCandidate { path: "x.json".to_string(), is_file: true }];
    let store = ConfigurationStore::discover(candidates).unwrap();
    assert_eq!(store.read_error("denied"), "读取配置文件 x.json 失败：denied");
    assert_eq!(store.parse_error("bad"), "解析配置文件 x.json 失败：bad");
    let loaded = store.accept_loaded(AppPreferences { start: StartPreferences { blur_percent: 180, ..sample() } });
    assert_eq!(loaded.start.blur_percent, 100);
}

#[test]
fn defaults_match_the_documented_values() {
    assert_eq!(ep_start::configuration::default_bar_columns(), 3);
    assert!(ep_start::configuration::default_open_on_start_button_click());
    assert!(ep_start::configuration::default_rounded_tiles());
    assert!(ep_start::configuration::default_rounded_tile_bars());
    assert_eq!(ep_start::configuration::default_tile_animation_duration_ms(), 220);
    assert_eq!(ep_start::configuration::default_tile_background_opacity_percent(), 64);
    assert_eq!(ep_start::configuration::default_tile_bar_background_opacity_percent(), 64);
    assert_eq!(ep_start::configuration::default_tiles_per_row(), 4);
    assert_eq!(StartShortcut::default(), StartShortcut::WinShift);
}

#[test]
fn saved_preferences_read_back() {
    let start = sample();
    let stored = start.to_stored();
    assert_eq!(stored.shortcut, Some(start.shortcut));
    assert_eq!(stored.tiles_per_row, Some(start.tiles_per_row));
    assert_eq!(StartPreferences::from_stored(stored), start);
    let mut out_of_range = start;
    out_of_range.overlay_opacity_percent = 250;
    out_of_range.tiles_per_row = 9;
    let mut expected = out_of_range;
    expected.normalize();
    let mut read = StartPreferences::from_stored(out_of_range.to_stored());
    read.normalize();
    assert_eq!(read, expected);
    assert_eq!(read.overlay_opacity_percent, 100);
    assert_eq!(read.tiles_per_row, 5);
}
