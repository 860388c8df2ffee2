use ep_start::geometry::{Rect, UiRect};
use ep_start::settings::choice_popup::{
    ChoiceOption, ChoicePopupState, KEY_DOWN, KEY_ESCAPE, KEY_RETURN, KEY_UP, PopupMessage, PopupReply,
    choice_options, classify_popup_message, popup_placement, popup_placement_fits_in,
};
use ep_start::settings::item::SettingId;

fn numbers() -> Vec<ChoiceOption> {
    (1..=6).map(ChoiceOption::number).collect()
}

fn client() -> Rect {
    Rect { left: 0, top: 0, right: 116, bottom: 224 }
}

#[test]
fn numbered_options_are_labelled_in_decimal() {
    let option = ChoiceOption::number(12);
    assert_eq!(option.value, 12);
    assert_eq!(option.label, "12");
    let named = ChoiceOption::new(1, "Win".to_string());
    assert_eq!(named.label, "Win");
}

#[test]
fn the_list_opens_on_the_current_value() {
    let state = ChoicePopupState::new(numbers(), 4, 96);
    assert_eq!(state.hovered, Some(3));
    let unknown = ChoicePopupState::new(numbers(), 9, 96);
    assert_eq!(unknown.hovered, None);
}

#[test]
fn keys_move_and_close() {
    let mut state = ChoicePopupState::new(numbers(), 1, 96);
    assert_eq!(state.on_key_down(KEY_UP), PopupReply::Nothing);
    assert_eq!(state.hovered, Some(0));
    assert_eq!(state.on_key_down(KEY_DOWN), PopupReply::Repaint);
    assert_eq!(state.hovered, Some(1));
    assert_eq!(state.on_key_down(0x41), PopupReply::Nothing);
    assert_eq!(state.on_key_down(KEY_RETURN), PopupReply::Closed);
    assert!(state.closed);
    assert_eq!(state.result, Some(2));
    assert_eq!(state.on_key_down(KEY_ESCAPE), PopupReply::Nothing);
    assert_eq!(state.result, Some(2));
}

#[test]
fn moves_stop_at_the_last_entry() {
    let mut state = ChoicePopupState::new(numbers(), 6, 96);
    assert_eq!(state.move_selection(1), PopupReply::Nothing);
    assert_eq!(state.hovered, Some(5));
    assert_eq!(state.move_selection(-100), PopupReply::Repaint);
    assert_eq!(state.hovered, Some(0));
}

#[test]
fn escape_closes_without_a_value() {
    let mut state = ChoicePopupState::new(numbers(), 1, 96);
    assert_eq!(state.on_key_down(KEY_ESCAPE), PopupReply::Closed);
    assert_eq!(state.result, None);
}

#[test]
fn the_pointer_picks_entries() {
    let mut state = ChoicePopupState::new(numbers(), 1, 96);
    assert!(state.areas_fit_in(client()));
    assert!(!ChoicePopupState::new(numbers(), 1, 2000000000).areas_fit_in(client()));
    assert_eq!(state.item_area(client(), 2), UiRect::new(4, 76, 112, 112));
    assert_eq!(state.item_at(client(), 50, 80), Some(2));
    assert_eq!(state.item_at(client(), 50, 1), None);
    assert_eq!(state.on_pointer_move(client(), 50, 80), PopupReply::Repaint);
    assert_eq!(state.hovered, Some(2));
    assert_eq!(state.on_pointer_move(client(), 50, 90), PopupReply::Nothing);
    assert_eq!(state.on_pointer_up(client(), 50, 120), PopupReply::Closed);
    assert_eq!(state.result, Some(4));
}

#[test]
fn each_choice_row_offers_its_values() {
    let text_free: Vec<u8> = choice_options(SettingId::TilesPerRow, &sample_text()).unwrap().iter().map(|o| o.value).collect();
    assert_eq!(text_free, vec![3, 4, 5]);
    let columns = choice_options(SettingId::BarColumns, &sample_text()).unwrap();
    assert_eq!(columns.len(), 6);
    assert_eq!(columns[5].label, "6");
    let shortcuts = choice_options(SettingId::Shortcut, &sample_text()).unwrap();
    assert_eq!(shortcuts[0].label, "Win + Shift");
    assert_eq!(shortcuts[1].value, 1);
    assert!(choice_options(SettingId::Overlay, &sample_text()).is_none());
}

#[test]
fn the_list_opens_below_or_above_its_anchor() {
    let work = Rect { left: 0, top: 0, right: 1920, bottom: 1040 };
    let anchor = Rect { left: 900, top: 100, right: 1016, bottom: 132 };
    assert!(popup_placement_fits_in(anchor, 6, work, 96));
    assert_eq!(popup_placement(anchor, 6, work, 96), (900, 136, 116, 224));
    let low = Rect { left: 1900, top: 1000, right: 1916, bottom: 1032 };
    let placed = popup_placement(low, 3, work, 96);
    assert_eq!(placed, (1824, 880, 96, 116));
    assert!(popup_placement_fits_in(anchor, 100000, work, 96));
    assert!(!popup_placement_fits_in(anchor, 100000000, work, 96));
    assert!(!popup_placement_fits_in(anchor, 6, work, 1000000000));
}

#[test]
fn popup_messages_are_read() {
    assert_eq!(classify_popup_message(0x0200, 0, (5 << 16) | 7), PopupMessage::PointerMove(7, 5));
    assert_eq!(classify_popup_message(0x0100, 0x26, 0), PopupMessage::KeyDown(0x26));
    assert_eq!(classify_popup_message(0x0008, 0, 0), PopupMessage::Dismiss);
    assert_eq!(classify_popup_message(0x0010, 0, 0), PopupMessage::Dismiss);
    assert_eq!(classify_popup_message(0x0014, 0, 0), PopupMessage::EraseBackground);
    assert_eq!(classify_popup_message(0x9999, 0, 0), PopupMessage::Other);
}

fn sample_text() -> ep_start::localization::TextResources {
    let setting = || ep_start::localization::SettingText { title: String::new(), description: String::new() };
    ep_start::localization::TextResources {
        settings: String::new(),
        start: String::new(),
        behavior: String::new(),
        menu_background: String::new(),
        tiles: String::new(),
        debug: String::new(),
        overlay_opacity: setting(),
        background_blur: setting(),
        animation_duration: setting(),
        start_shortcut: setting(),
        start_button_click: setting(),
        group_columns: setting(),
        tiles_per_row: setting(),
        rounded_tiles: setting(),
        rounded_tile_bars: setting(),
        tile_animation_duration: setting(),
        tile_background_opacity: setting(),
        tile_bar_background_opacity: setting(),
        restart_shell: setting(),
        shortcut_win_shift: "Win + Shift".to_string(),
        shortcut_win: "Win".to_string(),
        on: String::new(),
        off: String::new(),
        restart_now: String::new(),
        undo: String::new(),
        save: String::new(),
        open_settings: String::new(),
        exit: String::new(),
    }
}
