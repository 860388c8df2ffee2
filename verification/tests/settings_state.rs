use ep_start::configuration::{AppPreferences, StartPreferences, StartShortcut};
use ep_start::geometry::Rect;
use ep_start::settings::action::ActionId;
use ep_start::settings::item::SettingId;
use ep_start::settings::state::{
    Activation, InteractionId, PointerDownAction, PointerDrag, PointerMoveAction, PointerUpAction, SettingsState,
    activation,
};

fn preferences() -> AppPreferences {
    AppPreferences {
        start: StartPreferences {
            overlay_opacity_percent: 50,
            blur_percent: 0,
            opening_duration_ms: 250,
            shortcut: StartShortcut::WinShift,
            open_on_start_button_click: true,
            rounded_tiles: true,
            rounded_tile_bars: true,
            tile_animation_duration_ms: 220,
            tile_background_opacity_percent: 64,
            tile_bar_background_opacity_percent: 64,
            tile_bar_columns: 3,
            tiles_per_row: 4,
        },
    }
}

fn client() -> Rect {
    Rect { left: 0, top: 0, right: 1100, bottom: 720 }
}

#[test]
fn a_new_window_has_no_edits() {
    let state = SettingsState::new(preferences());
    assert!(!state.is_dirty());
    assert_eq!(state.scroll_y, 0);
    assert_eq!(state.interactions.targets(InteractionId::Setting(SettingId::StartButtonClick)), (false, false, true));
}

#[test]
fn toggling_twice_restores_the_preferences() {
    let mut state = SettingsState::new(preferences());
    assert!(state.toggle_switch(SettingId::StartButtonClick));
    assert!(state.is_dirty());
    assert!(!state.draft_preferences.start.open_on_start_button_click);
    assert_eq!(state.interactions.targets(InteractionId::Setting(SettingId::StartButtonClick)).2, false);
    assert!(state.toggle_switch(SettingId::StartButtonClick));
    assert!(!state.is_dirty());
    assert!(!state.toggle_switch(SettingId::RoundedTiles));
    assert!(!state.is_dirty());
}

#[test]
fn undo_gives_back_the_saved_preferences() {
    let mut state = SettingsState::new(preferences());
    assert!(!state.undo());
    assert!(state.set_slider_percent(SettingId::Blur, 30));
    assert!(state.undo());
    assert_eq!(state.draft_preferences, preferences());
    assert!(!state.is_dirty());
}

#[test]
fn saving_normalizes_and_then_takes_what_was_read_back() {
    let mut state = SettingsState::new(preferences());
    assert_eq!(state.begin_save(), None);
    assert!(state.set_slider_percent(SettingId::AnimationDuration, 101));
    assert_eq!(state.draft_preferences.start.opening_duration_ms, 5000);
    state.draft_preferences.start.overlay_opacity_percent = 180;
    let written = state.begin_save().unwrap();
    assert_eq!(written.start.overlay_opacity_percent, 100);
    let handed = state.finish_save(written);
    assert_eq!(handed, written.start);
    assert!(!state.is_dirty());
    assert_eq!(state.saved_preferences, written);
}

#[test]
fn slider_percent_sets_each_slider() {
    let mut state = SettingsState::new(preferences());
    assert!(state.set_slider_percent(SettingId::Overlay, 75));
    assert_eq!(state.draft_preferences.start.overlay_opacity_percent, 75);
    assert!(state.set_slider_percent(SettingId::AnimationDuration, 7));
    assert_eq!(state.draft_preferences.start.opening_duration_ms, 350);
    assert!(!state.set_slider_percent(SettingId::TileBackgroundOpacity, 7));
}

#[test]
fn choices_take_the_selected_value_in_range() {
    let mut state = SettingsState::new(preferences());
    assert_eq!(state.choice_value(SettingId::Shortcut), Some(0));
    assert!(state.apply_choice(SettingId::Shortcut, 1));
    assert_eq!(state.draft_preferences.start.shortcut, StartShortcut::Win);
    assert_eq!(state.choice_value(SettingId::Shortcut), Some(1));
    assert!(state.apply_choice(SettingId::BarColumns, 9));
    assert_eq!(state.draft_preferences.start.tile_bar_columns, 6);
    assert!(state.apply_choice(SettingId::TilesPerRow, 1));
    assert_eq!(state.draft_preferences.start.tiles_per_row, 3);
    assert!(!state.apply_choice(SettingId::Overlay, 1));
    assert_eq!(state.choice_value(SettingId::Overlay), None);
}

#[test]
fn releasing_on_a_choice_box_opens_its_list() {
    let mut state = SettingsState::new(preferences());
    let layout = state.layout(client(), 96);
    assert_eq!(state.on_pointer_up(&layout, 96, 1000, 140), PointerUpAction::Choice(SettingId::Shortcut));
    assert_eq!(state.on_pointer_up(&layout, 96, 800, 140), PointerUpAction::Nothing);
    let request = state.choice_request(&layout, SettingId::Shortcut).unwrap();
    assert_eq!(request.current, 0);
    assert_eq!(request.control, Rect { left: 754, top: 122, right: 1032, bottom: 166 });
    assert!(state.choice_request(&layout, SettingId::Overlay).is_none());
}

#[test]
fn dragging_the_scrollbar_scrolls_the_page() {
    let mut state = SettingsState::new(preferences());
    let layout = state.layout(client(), 96);
    assert_eq!(state.on_pointer_down(&layout, 96, 1089, 100), PointerDownAction::Capture);
    assert_eq!(state.pointer_drag, Some(PointerDrag::Scrollbar(18)));
    assert_eq!(state.on_pointer_move(&layout, 96, 1089, 18 + 218), PointerMoveAction::Repaint);
    assert_eq!(state.scroll_y, 271);
    assert_eq!(state.on_pointer_up(&layout, 96, 1089, 300), PointerUpAction::ReleaseCapture);
    assert_eq!(state.pointer_drag, None);
}

#[test]
fn pressing_the_track_centres_the_thumb() {
    let mut state = SettingsState::new(preferences());
    let layout = state.layout(client(), 96);
    assert_eq!(state.on_pointer_down(&layout, 96, 1089, 500), PointerDownAction::Capture);
    assert_eq!(state.pointer_drag, Some(PointerDrag::Scrollbar(145)));
    assert_eq!(state.scroll_y, layout.scroll_from_thumb(500 - 145));
}

#[test]
fn the_wheel_scrolls_by_whole_notches() {
    let mut state = SettingsState::new(preferences());
    let layout = state.layout(client(), 96);
    assert!(state.on_mouse_wheel(&layout, -240));
    assert_eq!(state.scroll_y, 144);
    assert!(!state.on_mouse_wheel(&layout, 100));
    assert!(state.on_mouse_wheel(&layout, 120));
    assert_eq!(state.scroll_y, 72);
    assert!(state.on_mouse_wheel(&layout, -120 * 100));
    assert_eq!(state.scroll_y, 542);
    assert!(state.scroll_to(&layout, -7));
    assert_eq!(state.scroll_y, 0);
}

#[test]
fn resizing_keeps_the_scroll_position_in_range() {
    let mut state = SettingsState::new(preferences());
    state.scroll_y = 900;
    let layout = state.layout(client(), 96);
    assert!(!state.on_size(&layout, Rect::default()));
    assert_eq!(state.scroll_y, 900);
    assert!(state.on_size(&layout, client()));
    assert_eq!(state.scroll_y, 542);
}

#[test]
fn a_switch_is_pressed_and_activated_on_release() {
    let mut state = SettingsState::new(preferences());
    let layout = state.layout(client(), 96);
    let row = layout.item(SettingId::StartButtonClick).unwrap();
    let x = row.control.right - 5;
    let y = (row.control.top + row.control.bottom) / 2;
    assert_eq!(state.on_pointer_down(&layout, 96, x, y), PointerDownAction::Capture);
    let target = InteractionId::Setting(SettingId::StartButtonClick);
    assert_eq!(state.interactions.pressed, Some(target));
    assert_eq!(state.interactions.hovered, Some(target));
    assert_eq!(state.on_pointer_up(&layout, 96, x, y), PointerUpAction::Activate(target));
    assert_eq!(state.interactions.pressed, None);
    assert_eq!(activation(target), Activation::ToggleSwitch(SettingId::StartButtonClick));
    assert!(state.toggle_switch(SettingId::StartButtonClick));
    assert!(!state.finish_release(target));
}

#[test]
fn releasing_away_from_the_pressed_part_does_not_activate_it() {
    let mut state = SettingsState::new(preferences());
    let layout = state.layout(client(), 96);
    let row = layout.item(SettingId::StartButtonClick).unwrap();
    let x = row.control.right - 5;
    let y = (row.control.top + row.control.bottom) / 2;
    state.on_pointer_down(&layout, 96, x, y);
    assert_eq!(state.on_pointer_up(&layout, 96, 0, 0), PointerUpAction::ReleaseCapture);
    assert!(!state.is_dirty());
}

#[test]
fn footer_buttons_answer_only_with_edits() {
    let mut state = SettingsState::new(preferences());
    let layout = state.layout(client(), 96);
    let save = layout.footer.actions[1].area;
    assert_ne!(
        state.interactive_target_at(&layout, 96, save.left + 2, save.top + 2),
        Some(InteractionId::Action(ActionId::Save))
    );
    state.set_slider_percent(SettingId::Overlay, 10);
    assert_eq!(
        state.interactive_target_at(&layout, 96, save.left + 2, save.top + 2),
        Some(InteractionId::Action(ActionId::Save))
    );
    assert_eq!(activation(InteractionId::Action(ActionId::Undo)), Activation::Undo);
    assert_eq!(activation(InteractionId::Setting(SettingId::RestartShell)), Activation::RestartShell);
    assert_eq!(activation(InteractionId::Setting(SettingId::Overlay)), Activation::Nothing);
}

#[test]
fn moving_over_a_slider_row_hovers_nothing_and_a_press_grabs_the_slider() {
    let mut state = SettingsState::new(preferences());
    let layout = state.layout(client(), 96);
    let row = layout.item(SettingId::Overlay).unwrap();
    let x = row.control.left + 2;
    let y = row.control.top + 2;
    assert_eq!(state.on_pointer_move(&layout, 96, x, y), PointerMoveAction::Nothing);
    assert_eq!(state.on_pointer_down(&layout, 96, x, y), PointerDownAction::CaptureSlider(SettingId::Overlay));
    assert_eq!(state.active_slider(), Some(SettingId::Overlay));
    assert_eq!(state.on_pointer_move(&layout, 96, x + 10, y), PointerMoveAction::UpdateSlider(SettingId::Overlay));
    state.on_capture_changed();
    assert_eq!(state.active_slider(), None);
}
