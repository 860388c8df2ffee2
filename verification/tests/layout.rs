use ep_start::geometry::Rect;
use ep_start::settings::SettingsUi;
use ep_start::settings::action::ActionId;
use ep_start::settings::fixed_layout::SettingsLayout;
use ep_start::settings::item::SettingId;
use ep_start::settings::layout::{SettingsUiLayout, layout_fits};

fn client(width: i32, height: i32) -> Rect {
    Rect { left: 0, top: 0, right: width, bottom: height }
}

#[test]
fn minimized_client_size_does_not_break_layout() {
    let ui = SettingsUi::settings_page();
    let layout = SettingsUiLayout::calculate(&ui, Rect::default(), 96, 0);
    assert!(layout.content.scroll_max >= 0);
}

#[test]
fn minimized_window_stacks_rows_and_scrolls() {
    let ui = SettingsUi::settings_page();
    let layout = SettingsUiLayout::calculate(&ui, Rect::default(), 96, 0);
    assert_eq!(layout.content.scroll_max, 1951);
    assert!(!layout.sidebar.expanded);
}

#[test]
fn default_window_lays_out_the_page() {
    let ui = SettingsUi::settings_page();
    let layout = ui.layout(client(1100, 720), 96, 0);
    assert!(layout.sidebar.expanded);
    assert_eq!(layout.content.scroll_max, 542);
    assert_eq!(layout.content.sections.len(), 4);
    let first = &layout.content.sections[0];
    assert_eq!(first.title, Rect { left: 278, top: 74, right: 1054, bottom: 112 });
    assert_eq!(first.items[0].card, Rect { left: 278, top: 112, right: 1054, bottom: 176 });
    assert_eq!(first.items[0].control, Rect { left: 754, top: 122, right: 1032, bottom: 166 });
    assert_eq!(layout.footer.actions.len(), 2);
}

#[test]
fn scrolling_moves_the_rows_up() {
    let ui = SettingsUi::settings_page();
    let top = ui.layout(client(1100, 720), 96, 0);
    let scrolled = ui.layout(client(1100, 720), 96, 100);
    let a = top.content.sections[0].items[0].card;
    let b = scrolled.content.sections[0].items[0].card;
    assert_eq!(b.top, a.top - 100);
    let beyond = ui.layout(client(1100, 720), 96, 5000);
    assert_eq!(beyond.content.sections[0].title.top, 74 - 542);
}

#[test]
fn scrollbar_thumb_follows_the_track() {
    let ui = SettingsUi::settings_page();
    let layout = ui.layout(client(1100, 720), 96, 0);
    let bar = layout.content.scrollbar.unwrap();
    assert_eq!(bar.track, Rect { left: 1087, top: 82, right: 1091, bottom: 644 });
    assert_eq!(bar.thumb, Rect { left: 1087, top: 82, right: 1091, bottom: 372 });
    assert_eq!(layout.scroll_from_thumb(82), 0);
    assert_eq!(layout.scroll_from_thumb(218), 271);
    assert_eq!(layout.scroll_from_thumb(82 + 272), 542);
    assert_eq!(layout.scroll_from_thumb(-100000), 0);
    assert_eq!(layout.scroll_from_thumb(100000), 542);
    assert!(layout.hit_scroll_thumb(1089, 100));
    assert!(layout.hit_scroll_track(1089, 600));
    assert!(!layout.hit_scroll_thumb(1089, 600));
}

#[test]
fn finds_rows_by_setting_and_by_point() {
    let ui = SettingsUi::settings_page();
    let layout = ui.layout(client(1100, 720), 96, 0);
    let row = layout.item(SettingId::Shortcut).unwrap();
    assert_eq!(row.id, SettingId::Shortcut);
    assert_eq!(layout.hit_control(800, 140), Some(SettingId::Shortcut));
    assert_eq!(layout.hit_control(300, 140), None);
}

#[test]
fn footer_buttons_are_hit() {
    let ui = SettingsUi::settings_page();
    let layout = ui.layout(client(1100, 720), 96, 0);
    let save = layout.footer.actions[1].area;
    assert_eq!(layout.hit_action(save.left + 1, save.top + 1), Some(ActionId::Save));
    assert_eq!(layout.hit_action(0, 0), None);
}

#[test]
fn fixed_page_layout() {
    let layout = SettingsLayout::calculate(client(1100, 720), 96, 0);
    assert_eq!(layout.scroll_max, 0);
    assert!(layout.scrollbar.is_none());
    assert_eq!(layout.rows.len(), 5);
    assert_eq!(layout.rows[0].card.top, 112);
    assert_eq!(layout.tile_section_title.top, 336);
    assert_eq!(layout.rows[3].card.top, 374);
    assert_eq!(layout.save_button, Rect { left: 972, top: 666, right: 1076, bottom: 706 });
    assert_eq!(layout.undo_button, Rect { left: 858, top: 666, right: 962, bottom: 706 });
    assert!(layout.hit_save(1000, 680));
    assert!(!layout.hit_undo(1000, 680));
    assert_eq!(layout.row(SettingId::TilesPerRow).unwrap().id, SettingId::TilesPerRow);
    assert_eq!(layout.row(SettingId::Shortcut), None);
    let control = layout.rows[1].control;
    assert_eq!(layout.hit_control(control.left + 1, control.top + 1), Some(SettingId::Blur));
}

#[test]
fn fixed_page_scrolls_in_a_low_window() {
    let layout = SettingsLayout::calculate(client(700, 400), 96, 1000);
    assert!(layout.scroll_max > 0);
    assert!(layout.scrollbar.is_some());
    assert_eq!(layout.scroll_from_thumb(-5), 0);
}

#[test]
fn very_wide_window_lays_out_the_page() {
    let wide = client(100000, 720);
    let ui = SettingsUi::settings_page();
    assert!(layout_fits(&ui, wide, 96, 0));
    let layout = SettingsUiLayout::calculate(&ui, wide, 96, 0);
    assert!(layout.sidebar.expanded);
    assert_eq!(layout.content.scroll_max, 542);
    assert_eq!(layout.content.sections.len(), 4);
    assert_eq!(layout.content.sections[0].items[0].card.right, 100000 - 46);
}

#[test]
fn empty_window_lays_out_at_a_high_dpi() {
    let ui = SettingsUi::settings_page();
    assert!(layout_fits(&ui, Rect::default(), 6000, 0));
    let layout = SettingsUiLayout::calculate(&ui, Rect::default(), 6000, 0);
    assert!(!layout.sidebar.expanded);
    assert_eq!(layout.content.page_title.right, 430 * 6000 / 96);
    assert!(layout.content.scroll_max > 0);
}

#[test]
fn layout_refuses_sizes_that_overflow() {
    let ui = SettingsUi::settings_page();
    assert!(layout_fits(&ui, client(1100, 720), 96, 0));
    assert!(layout_fits(&ui, client(1100, 720), 192, 0));
    assert!(!layout_fits(&ui, client(1100, 720), i32::MAX, 0));
    assert!(!layout_fits(&ui, Rect { left: i32::MIN, top: 0, right: i32::MAX, bottom: 10 }, 96, 0));
    assert!(!layout_fits(&ui, client(i32::MAX, 10), 96, 0));
    // The page title reaches 430 logical units: at 5000000 dpi it no longer scales.
    assert!(!layout_fits(&ui, Rect::default(), 5000000, 0));
}
