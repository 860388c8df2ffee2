//! The texts of the user interface in the user's language, and the strings that
//! the settings page shows for each value.

use crate::configuration::{AppPreferences, StartShortcut};
use crate::settings::action::ActionId;
use crate::settings::item::SettingId;
use crate::settings::section::SectionId;
use crate::settings::SidebarItemId;
use vstd::prelude::*;
use vstd::string::*;

verus! {

/// The title and the description of a setting.
pub struct SettingText {
    pub title: String,
    pub description: String,
}

/// Every text the user interface shows, in one language.
pub struct TextResources {
    pub settings: String,
    pub start: String,
    pub behavior: String,
    pub menu_background: String,
    pub tiles: String,
    pub debug: String,
    pub overlay_opacity: SettingText,
    pub background_blur: SettingText,
    pub animation_duration: SettingText,
    pub start_shortcut: SettingText,
    pub start_button_click: SettingText,
    pub group_columns: SettingText,
    pub tiles_per_row: SettingText,
    pub rounded_tiles: SettingText,
    pub rounded_tile_bars: SettingText,
    pub tile_animation_duration: SettingText,
    pub tile_background_opacity: SettingText,
    pub tile_bar_background_opacity: SettingText,
    pub restart_shell: SettingText,
    pub shortcut_win_shift: String,
    pub shortcut_win: String,
    pub on: String,
    pub off: String,
    pub restart_now: String,
    pub undo: String,
    pub save: String,
    pub open_settings: String,
    pub exit: String,
}

/// The languages the application ships texts for.
#[derive(Clone, Copy, Debug, PartialEq, Eq, Structural)]
pub enum Language {
    SimplifiedChinese,
    English,
}

/// Chinese for a locale name that starts with `zh`, English for any other.
pub open spec fn spec_language_for_locale(locale: Seq<char>) -> Language {
    if locale.len() >= 2 && locale[0] == 'z' && locale[1] == 'h' {
        Language::SimplifiedChinese
    } else {
        Language::English
    }
}

/// The language whose texts are shown for the lower-case locale name `locale`.
pub fn language_for_locale(locale: &str) -> (r: Language)
    ensures
        r == spec_language_for_locale(locale@),
{
    if locale.unicode_len() >= 2 && locale.get_char(0) == 'z' && locale.get_char(1) == 'h' {
        Language::SimplifiedChinese
    } else {
        Language::English
    }
}

/// The character of the decimal digit `d`.
pub open spec fn digit_char(d: nat) -> char {
    if d == 0 {
        '0'
    } else if d == 1 {
        '1'
    } else if d == 2 {
        '2'
    } else if d == 3 {
        '3'
    } else if d == 4 {
        '4'
    } else if d == 5 {
        '5'
    } else if d == 6 {
        '6'
    } else if d == 7 {
        '7'
    } else if d == 8 {
        '8'
    } else {
        '9'
    }
}

/// The decimal notation of `n`, without leading zeros.
pub open spec fn spec_decimal(n: nat) -> Seq<char>
    decreases n,
{
    if n < 10 {
        seq![digit_char(n)]
    } else {
        spec_decimal(n / 10).push(digit_char(n % 10))
    }
}

fn digit_text(d: u32) -> (r: &'static str)
    requires
        d < 10,
    ensures
        r@ == seq![digit_char(d as nat)],
{
    proof {
        reveal_strlit("0");
        reveal_strlit("1");
        reveal_strlit("2");
        reveal_strlit("3");
        reveal_strlit("4");
        reveal_strlit("5");
        reveal_strlit("6");
        reveal_strlit("7");
        reveal_strlit("8");
        reveal_strlit("9");
    }
    match d {
        0 => "0",
        1 => "1",
        2 => "2",
        3 => "3",
        4 => "4",
        5 => "5",
        6 => "6",
        7 => "7",
        8 => "8",
        _ => "9",
    }
}

/// The decimal notation of `n`.
pub fn decimal(n: u32) -> (r: String)
    ensures
        r@ == spec_decimal(n as nat),
    decreases n,
{
    if n < 10 {
        String::from_str(digit_text(n))
    } else {
        let mut text = decimal(n / 10);
        text.append(digit_text(n % 10));
        text
    }
}

/// The label of a sidebar entry.
pub fn sidebar_label(text: &TextResources, id: SidebarItemId) -> (r: &String)
    ensures
        r == &text.start,
{
    match id {
        SidebarItemId::Start => &text.start,
    }
}

pub open spec fn spec_section_label(text: &TextResources, id: SectionId) -> &String {
    match id {
        SectionId::Behavior => &text.behavior,
        SectionId::MenuBackground => &text.menu_background,
        SectionId::Tiles => &text.tiles,
        SectionId::Debug => &text.debug,
    }
}

/// The title of a section.
pub fn section_label(text: &TextResources, id: SectionId) -> (r: &String)
    ensures
        r == spec_section_label(text, id),
{
    match id {
        SectionId::Behavior => &text.behavior,
        SectionId::MenuBackground => &text.menu_background,
        SectionId::Tiles => &text.tiles,
        SectionId::Debug => &text.debug,
    }
}

/// The caption of a footer button.
pub fn action_label(text: &TextResources, id: ActionId) -> (r: &String)
    ensures
        r == (match id {
            ActionId::Undo => &text.undo,
            ActionId::Save => &text.save,
        }),
{
    match id {
        ActionId::Undo => &text.undo,
        ActionId::Save => &text.save,
    }
}

pub open spec fn spec_setting_text(text: &TextResources, id: SettingId) -> &SettingText {
    match id {
        SettingId::Overlay => &text.overlay_opacity,
        SettingId::Blur => &text.background_blur,
        SettingId::AnimationDuration => &text.animation_duration,
        SettingId::Shortcut => &text.start_shortcut,
        SettingId::StartButtonClick => &text.start_button_click,
        SettingId::BarColumns => &text.group_columns,
        SettingId::TilesPerRow => &text.tiles_per_row,
        SettingId::RoundedTiles => &text.rounded_tiles,
        SettingId::RoundedTileBars => &text.rounded_tile_bars,
        SettingId::TileAnimationDuration => &text.tile_animation_duration,
        SettingId::TileBackgroundOpacity => &text.tile_background_opacity,
        SettingId::TileBarBackgroundOpacity => &text.tile_bar_background_opacity,
        SettingId::RestartShell => &text.restart_shell,
    }
}

/// The title and description of a setting row.
pub fn setting_text(text: &TextResources, id: SettingId) -> (r: &SettingText)
    ensures
        r == spec_setting_text(text, id),
{
    match id {
        SettingId::Overlay => &text.overlay_opacity,
        SettingId::Blur => &text.background_blur,
        SettingId::AnimationDuration => &text.animation_duration,
        SettingId::Shortcut => &text.start_shortcut,
        SettingId::StartButtonClick => &text.start_button_click,
        SettingId::BarColumns => &text.group_columns,
        SettingId::TilesPerRow => &text.tiles_per_row,
        SettingId::RoundedTiles => &text.rounded_tiles,
        SettingId::RoundedTileBars => &text.rounded_tile_bars,
        SettingId::TileAnimationDuration => &text.tile_animation_duration,
        SettingId::TileBackgroundOpacity => &text.tile_background_opacity,
        SettingId::TileBarBackgroundOpacity => &text.tile_bar_background_opacity,
        SettingId::RestartShell => &text.restart_shell,
    }
}

pub open spec fn spec_setting_icon(id: SettingId) -> Seq<char> {
    match id {
        SettingId::Overlay => "◐"@,
        SettingId::Blur => "≋"@,
        SettingId::AnimationDuration => "↔"@,
        SettingId::Shortcut => "⌨"@,
        SettingId::StartButtonClick => "⊞"@,
        SettingId::BarColumns => "▦"@,
        SettingId::TilesPerRow => "≡"@,
        SettingId::RoundedTiles => "▢"@,
        SettingId::RoundedTileBars => "▤"@,
        SettingId::TileAnimationDuration => "↝"@,
        SettingId::TileBackgroundOpacity => "◩"@,
        SettingId::TileBarBackgroundOpacity => "▥"@,
        SettingId::RestartShell => "↻"@,
    }
}

/// The symbol drawn as the icon of a setting row.
pub fn setting_icon(id: SettingId) -> (r: &'static str)
    ensures
        r@ == spec_setting_icon(id),
{
    match id {
        SettingId::Overlay => "◐",
        SettingId::Blur => "≋",
        SettingId::AnimationDuration => "↔",
        SettingId::Shortcut => "⌨",
        SettingId::StartButtonClick => "⊞",
        SettingId::BarColumns => "▦",
        SettingId::TilesPerRow => "≡",
        SettingId::RoundedTiles => "▢",
        SettingId::RoundedTileBars => "▤",
        SettingId::TileAnimationDuration => "↝",
        SettingId::TileBackgroundOpacity => "◩",
        SettingId::TileBarBackgroundOpacity => "▥",
        SettingId::RestartShell => "↻",
    }
}

pub open spec fn spec_setting_range(id: SettingId) -> (Seq<char>, Seq<char>) {
    match id {
        SettingId::Overlay | SettingId::Blur | SettingId::TileBackgroundOpacity
        | SettingId::TileBarBackgroundOpacity => ("0%"@, "100%"@),
        SettingId::AnimationDuration => ("0 ms"@, "5000 ms"@),
        SettingId::TileAnimationDuration => ("0 ms"@, "1000 ms"@),
        _ => (""@, ""@),
    }
}

/// The labels at the two ends of a slider; empty for rows without a slider.
pub fn setting_range(id: SettingId) -> (r: (&'static str, &'static str))
    ensures
        (r.0@, r.1@) == spec_setting_range(id),
{
    match id {
        SettingId::Overlay | SettingId::Blur | SettingId::TileBackgroundOpacity
        | SettingId::TileBarBackgroundOpacity => ("0%", "100%"),
        SettingId::AnimationDuration => ("0 ms", "5000 ms"),
        SettingId::TileAnimationDuration => ("0 ms", "1000 ms"),
        _ => ("", ""),
    }
}

/// How far along its slider a value is, as a fraction `numerator / denominator`;
/// `0 / 1` for rows without a slider.
pub open spec fn spec_setting_ratio(preferences: AppPreferences, id: SettingId) -> (u32, u32) {
    let start = preferences.start;
    match id {
        SettingId::Overlay => (start.overlay_opacity_percent as u32, 100),
        SettingId::Blur => (start.blur_percent as u32, 100),
        SettingId::AnimationDuration => (start.opening_duration_ms, 5000),
        SettingId::TileAnimationDuration => (start.tile_animation_duration_ms, 1000),
        SettingId::TileBackgroundOpacity => (start.tile_background_opacity_percent as u32, 100),
        SettingId::TileBarBackgroundOpacity => (start.tile_bar_background_opacity_percent as u32, 100),
        _ => (0, 1),
    }
}

pub fn setting_ratio(preferences: &AppPreferences, id: SettingId) -> (r: (u32, u32))
    ensures
        r == spec_setting_ratio(*preferences, id),
{
    let start = preferences.start;
    match id {
        SettingId::Overlay => (start.overlay_opacity_percent as u32, 100),
        SettingId::Blur => (start.blur_percent as u32, 100),
        SettingId::AnimationDuration => (start.opening_duration_ms, 5000),
        SettingId::TileAnimationDuration => (start.tile_animation_duration_ms, 1000),
        SettingId::TileBackgroundOpacity => (start.tile_background_opacity_percent as u32, 100),
        SettingId::TileBarBackgroundOpacity => (start.tile_bar_background_opacity_percent as u32, 100),
        _ => (0, 1),
    }
}

pub open spec fn percent_text(value: nat) -> Seq<char> {
    spec_decimal(value) + "%"@
}

pub open spec fn milliseconds_text(value: nat) -> Seq<char> {
    spec_decimal(value) + " ms"@
}

pub open spec fn switch_text(text: &TextResources, on: bool) -> Seq<char> {
    if on {
        text.on@
    } else {
        text.off@
    }
}

/// The value a setting row shows for `preferences`.
pub open spec fn spec_setting_value(text: &TextResources, preferences: AppPreferences, id: SettingId) -> Seq<char> {
    let start = preferences.start;
    match id {
        SettingId::Overlay => percent_text(start.overlay_opacity_percent as nat),
        SettingId::Blur => percent_text(start.blur_percent as nat),
        SettingId::AnimationDuration => milliseconds_text(start.opening_duration_ms as nat),
        SettingId::Shortcut => match start.shortcut {
            StartShortcut::WinShift => text.shortcut_win_shift@,
            StartShortcut::Win => text.shortcut_win@,
        },
        SettingId::StartButtonClick => switch_text(text, start.open_on_start_button_click),
        SettingId::BarColumns => spec_decimal(start.tile_bar_columns as nat),
        SettingId::TilesPerRow => spec_decimal(start.tiles_per_row as nat),
        SettingId::RoundedTiles => switch_text(text, start.rounded_tiles),
        SettingId::RoundedTileBars => switch_text(text, start.rounded_tile_bars),
        SettingId::TileAnimationDuration => milliseconds_text(start.tile_animation_duration_ms as nat),
        SettingId::TileBackgroundOpacity => percent_text(start.tile_background_opacity_percent as nat),
        SettingId::TileBarBackgroundOpacity => percent_text(start.tile_bar_background_opacity_percent as nat),
        SettingId::RestartShell => text.restart_now@,
    }
}

/// A slider row shows the value its slider stands at: the numerator of its
/// ratio, in percent where the slider runs to 100 and in milliseconds where it
/// runs to 5000 or 1000.
pub proof fn lemma_slider_row_shows_its_position(text: &TextResources, preferences: AppPreferences, id: SettingId)
    ensures
        spec_setting_ratio(preferences, id).1 == 100 ==> spec_setting_value(text, preferences, id) == percent_text(
            spec_setting_ratio(preferences, id).0 as nat,
        ),
        (spec_setting_ratio(preferences, id).1 == 5000 || spec_setting_ratio(preferences, id).1 == 1000)
            ==> spec_setting_value(text, preferences, id) == milliseconds_text(
            spec_setting_ratio(preferences, id).0 as nat,
        ),
{
}

fn percent(value: u32) -> (r: String)
    ensures
        r@ == percent_text(value as nat),
{
    let mut result = decimal(value);
    result.append("%");
    result
}

fn milliseconds(value: u32) -> (r: String)
    ensures
        r@ == milliseconds_text(value as nat),
{
    let mut result = decimal(value);
    result.append(" ms");
    result
}

fn on_off(text: &TextResources, on: bool) -> (r: String)
    ensures
        r@ == switch_text(text, on),
{
    if on {
        text.on.clone()
    } else {
        text.off.clone()
    }
}

/// The value a setting row shows for `preferences`.
pub fn setting_value(text: &TextResources, preferences: &AppPreferences, id: SettingId) -> (r: String)
    ensures
        r@ == spec_setting_value(text, *preferences, id),
{
    let start = preferences.start;
    match id {
        SettingId::Overlay => percent(start.overlay_opacity_percent as u32),
        SettingId::Blur => percent(start.blur_percent as u32),
        SettingId::AnimationDuration => milliseconds(start.opening_duration_ms),
        SettingId::Shortcut => match start.shortcut {
            StartShortcut::WinShift => text.shortcut_win_shift.clone(),
            StartShortcut::Win => text.shortcut_win.clone(),
        },
        SettingId::StartButtonClick => on_off(text, start.open_on_start_button_click),
        SettingId::BarColumns => decimal(start.tile_bar_columns as u32),
        SettingId::TilesPerRow => decimal(start.tiles_per_row as u32),
        SettingId::RoundedTiles => on_off(text, start.rounded_tiles),
        SettingId::RoundedTileBars => on_off(text, start.rounded_tile_bars),
        SettingId::TileAnimationDuration => milliseconds(start.tile_animation_duration_ms),
        SettingId::TileBackgroundOpacity => percent(start.tile_background_opacity_percent as u32),
        SettingId::TileBarBackgroundOpacity => percent(start.tile_bar_background_opacity_percent as u32),
        SettingId::RestartShell => text.restart_now.clone(),
    }
}

} // verus!
