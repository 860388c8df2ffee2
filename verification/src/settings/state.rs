//! The state of the settings window between two messages: the saved and the
//! edited preferences, what the pointer is over or pressing, what it drags and
//! how far the page is scrolled. The window procedure hands each message to one
//! of these methods and carries out what it answers.

use super::action::ActionId;
use super::components::{choice_control_contains, setting_button_contains, switch_control_contains};
use super::item::{ControlKind, SettingId};
use super::components::{
    CHOICE_CONTROL_HEIGHT, CHOICE_CONTROL_WIDTH, INLINE_BUTTON_HEIGHT, INLINE_BUTTON_WIDTH, spec_control_bounds,
    spec_switch_hit_area,
};
use super::layout::{
    clamp_int, device_rect_ok, dpi_ok, is_first_match, ItemQuery, SettingsUiLayout, layout_inputs_ok, layout_placed,
    spec_find,
};
use super::SettingsUi;
use crate::configuration::{AppPreferences, StartPreferences, StartShortcut};
use crate::geometry::{Rect, div_toward_zero};
use crate::localization::{TextResources, spec_decimal, spec_setting_value};
use super::choice_popup::spec_choice_values;
use vstd::prelude::*;

verus! {

/// A part of the page the pointer can hover and press.
#[derive(Clone, Copy, Debug, PartialEq, Eq, Structural)]
pub enum InteractionId {
    Setting(SettingId),
    Action(ActionId),
}

/// Which parts of the page the pointer hovers and presses, and for each part
/// known so far whether its switch is on. The animations of the window move
/// toward these targets.
pub struct InteractionTargets {
    pub entries: Vec<(InteractionId, bool)>,
    pub hovered: Option<InteractionId>,
    pub pressed: Option<InteractionId>,
}

/// Whether `id` has an entry.
pub open spec fn spec_known(entries: Seq<(InteractionId, bool)>, id: InteractionId) -> bool {
    exists|i: int| 0 <= i < entries.len() && (#[trigger] entries[i]).0 == id
}

/// The switch target of `id`: that of its entry, off where it has none.
pub open spec fn spec_toggle_target(entries: Seq<(InteractionId, bool)>, id: InteractionId) -> bool {
    exists|i: int| 0 <= i < entries.len() && (#[trigger] entries[i]).0 == id && entries[i].1
}

/// No part has two entries.
pub open spec fn entries_distinct(entries: Seq<(InteractionId, bool)>) -> bool {
    forall|i: int, j: int| 0 <= i < entries.len() && 0 <= j < entries.len() && i != j ==> (#[trigger] entries[i]).0
        != (#[trigger] entries[j]).0
}

fn same_target(a: Option<InteractionId>, b: Option<InteractionId>) -> (r: bool)
    ensures
        r == (a == b),
{
    match (a, b) {
        (Some(x), Some(y)) => x == y,
        (None, None) => true,
        _ => false,
    }
}

impl InteractionTargets {
    pub open spec fn wf(&self) -> bool {
        &&& entries_distinct(self.entries@)
        &&& (self.hovered matches Some(id) ==> spec_known(self.entries@, id))
        &&& (self.pressed matches Some(id) ==> spec_known(self.entries@, id))
    }

    /// Nothing hovered or pressed; the start button switch known, on where
    /// `switch_enabled`.
    pub fn new(switch_enabled: bool) -> (r: Self)
        ensures
            r.wf(),
            r.hovered is None,
            r.pressed is None,
            r.entries@ == seq![(InteractionId::Setting(SettingId::StartButtonClick), switch_enabled)],
    {
        let mut entries: Vec<(InteractionId, bool)> = Vec::new();
        entries.push((InteractionId::Setting(SettingId::StartButtonClick), switch_enabled));
        Self { entries, hovered: None, pressed: None }
    }

    /// The index of the entry of `id`, added switched off where there is none.
    fn ensure_entry(&mut self, id: InteractionId) -> (r: usize)
        requires
            old(self).wf(),
        ensures
            final(self).wf(),
            r < final(self).entries@.len(),
            final(self).entries@[r as int].0 == id,
            final(self).hovered == old(self).hovered,
            final(self).pressed == old(self).pressed,
            forall|other: InteractionId| #[trigger] spec_toggle_target(final(self).entries@, other) == spec_toggle_target(old(self).entries@, other),
            forall|other: InteractionId| spec_known(old(self).entries@, other) ==> #[trigger] spec_known(final(self).entries@, other),
            forall|other: InteractionId| other != id ==> spec_known(final(self).entries@, other) == #[trigger] spec_known(old(self).entries@, other),
    {
        let mut index: usize = 0;
        while index < self.entries.len()
            invariant
                0 <= index <= self.entries@.len(),
                forall|j: int| 0 <= j < index ==> (#[trigger] self.entries@[j]).0 != id,
                self.wf(),
                self.entries@ == old(self).entries@,
                self.hovered == old(self).hovered,
                self.pressed == old(self).pressed,
            decreases self.entries@.len() - index,
        {
            if self.entries[index].0 == id {
                return index;
            }
            index += 1;
        }
        let ghost before = self.entries@;
        self.entries.push((id, false));
        proof {
            let after = self.entries@;
            assert forall|i: int, j: int| 0 <= i < after.len() && 0 <= j < after.len() && i != j implies (#[trigger] after[i]).0
                != (#[trigger] after[j]).0 by {
                if i < before.len() && j < before.len() {
                    assert(before[i] == after[i] && before[j] == after[j]);
                }
            }
            assert forall|other: InteractionId| #[trigger] spec_toggle_target(after, other) == spec_toggle_target(before, other) by {
                if spec_toggle_target(after, other) {
                    let i = choose|i: int| 0 <= i < after.len() && (#[trigger] after[i]).0 == other && after[i].1;
                    assert(i < before.len());
                    assert(before[i] == after[i]);
                }
                if spec_toggle_target(before, other) {
                    let i = choose|i: int| 0 <= i < before.len() && (#[trigger] before[i]).0 == other && before[i].1;
                    assert(after[i] == before[i]);
                }
            }
            assert forall|other: InteractionId| spec_known(before, other) implies #[trigger] spec_known(after, other) by {
                let i = choose|i: int| 0 <= i < before.len() && (#[trigger] before[i]).0 == other;
                assert(after[i] == before[i]);
            }
            assert forall|other: InteractionId| other != id implies spec_known(after, other) == #[trigger] spec_known(before, other) by {
                if spec_known(after, other) {
                    let i = choose|i: int| 0 <= i < after.len() && (#[trigger] after[i]).0 == other;
                    assert(i < before.len());
                    assert(before[i] == after[i]);
                }
                if spec_known(before, other) {
                    let i = choose|i: int| 0 <= i < before.len() && (#[trigger] before[i]).0 == other;
                    assert(after[i] == before[i]);
                }
            }
        }
        self.entries.len() - 1
    }

    /// Hover `hovered`, adding an entry for it; `true` where it changed.
    pub fn set_hovered(&mut self, hovered: Option<InteractionId>) -> (r: bool)
        requires
            old(self).wf(),
        ensures
            final(self).wf(),
            r == (old(self).hovered != hovered),
            final(self).hovered == hovered,
            final(self).pressed == old(self).pressed,
            forall|other: InteractionId| #[trigger] spec_toggle_target(final(self).entries@, other) == spec_toggle_target(old(self).entries@, other),
            r && hovered is Some ==> spec_known(final(self).entries@, hovered->0),
            !r || hovered is None ==> final(self).entries@ == old(self).entries@,
    {
        if same_target(self.hovered, hovered) {
            return false;
        }
        if let Some(id) = hovered {
            let index = self.ensure_entry(id);
            proof {
                assert(self.entries@[index as int].0 == id);
            }
        }
        self.hovered = hovered;
        true
    }

    /// Press `pressed`, adding an entry for it; `true` where it changed.
    pub fn set_pressed(&mut self, pressed: Option<InteractionId>) -> (r: bool)
        requires
            old(self).wf(),
        ensures
            final(self).wf(),
            r == (old(self).pressed != pressed),
            final(self).pressed == pressed,
            final(self).hovered == old(self).hovered,
            forall|other: InteractionId| #[trigger] spec_toggle_target(final(self).entries@, other) == spec_toggle_target(old(self).entries@, other),
            r && pressed is Some ==> spec_known(final(self).entries@, pressed->0),
            !r || pressed is None ==> final(self).entries@ == old(self).entries@,
    {
        if same_target(self.pressed, pressed) {
            return false;
        }
        if let Some(id) = pressed {
            let index = self.ensure_entry(id);
            proof {
                assert(self.entries@[index as int].0 == id);
            }
        }
        self.pressed = pressed;
        true
    }

    /// Turn the switch target of `id` on or off, adding an entry for it.
    pub fn set_toggle(&mut self, id: InteractionId, enabled: bool)
        requires
            old(self).wf(),
        ensures
            final(self).wf(),
            final(self).hovered == old(self).hovered,
            final(self).pressed == old(self).pressed,
            spec_known(final(self).entries@, id),
            spec_toggle_target(final(self).entries@, id) == enabled,
            forall|other: InteractionId|
                other != id ==> #[trigger] spec_toggle_target(final(self).entries@, other) == spec_toggle_target(old(self).entries@, other),
            forall|other: InteractionId| spec_known(old(self).entries@, other) ==> #[trigger] spec_known(final(self).entries@, other),
    {
        let index = self.ensure_entry(id);
        let ghost before = self.entries@;
        self.entries.set(index, (id, enabled));
        proof {
            let after = self.entries@;
            assert(after[index as int].0 == id);
            assert forall|i: int, j: int| 0 <= i < after.len() && 0 <= j < after.len() && i != j implies (#[trigger] after[i]).0
                != (#[trigger] after[j]).0 by {
                assert(before[i].0 == after[i].0 && before[j].0 == after[j].0);
            }
            if enabled {
                assert(after[index as int].1);
            } else {
                if spec_toggle_target(after, id) {
                    let i = choose|i: int| 0 <= i < after.len() && (#[trigger] after[i]).0 == id && after[i].1;
                    assert(i == index);
                }
            }
            assert forall|other: InteractionId|
                other != id implies #[trigger] spec_toggle_target(after, other) == spec_toggle_target(before, other) by {
                if spec_toggle_target(after, other) {
                    let i = choose|i: int| 0 <= i < after.len() && (#[trigger] after[i]).0 == other && after[i].1;
                    assert(before[i] == after[i]);
                }
                if spec_toggle_target(before, other) {
                    let i = choose|i: int| 0 <= i < before.len() && (#[trigger] before[i]).0 == other && before[i].1;
                    assert(i != index);
                    assert(after[i] == before[i]);
                }
            }
            assert forall|other: InteractionId| spec_known(before, other) implies #[trigger] spec_known(after, other) by {
                let i = choose|i: int| 0 <= i < before.len() && (#[trigger] before[i]).0 == other;
                assert(after[i].0 == before[i].0);
            }
        }
    }

    /// Forget where the pointer is: nothing hovered or pressed.
    pub fn clear_pointer(&mut self)
        requires
            old(self).wf(),
        ensures
            final(self).wf(),
            final(self).hovered is None,
            final(self).pressed is None,
            final(self).entries@ == old(self).entries@,
    {
        self.set_hovered(None);
        self.set_pressed(None);
    }

    /// What the animations of `id` move toward: hovered, pressed (only while
    /// also hovered) and switched on.
    pub fn targets(&self, id: InteractionId) -> (r: (bool, bool, bool))
        ensures
            r.0 == (self.hovered == Some(id)),
            r.1 == (self.pressed == Some(id) && self.hovered == Some(id)),
            r.2 == spec_toggle_target(self.entries@, id),
    {
        let hovered = same_target(self.hovered, Some(id));
        let pressed = same_target(self.pressed, Some(id)) && hovered;
        let mut toggle = false;
        let mut index: usize = 0;
        while index < self.entries.len()
            invariant
                0 <= index <= self.entries@.len(),
                toggle == exists|i: int| 0 <= i < index && (#[trigger] self.entries@[i]).0 == id && self.entries@[i].1,
            decreases self.entries@.len() - index,
        {
            let (entry, on) = self.entries[index];
            if entry == id && on {
                toggle = true;
            }
            proof {
                if toggle {
                    if entry == id && on {
                        assert(self.entries@[index as int].0 == id && self.entries@[index as int].1);
                    }
                }
            }
            index += 1;
        }
        (hovered, pressed, toggle)
    }
}

/// What the pointer drags.
#[derive(Clone, Copy, Debug, PartialEq, Eq, Structural)]
pub enum PointerDrag {
    /// The thumb of the slider of a setting.
    Slider(SettingId),
    /// The scrollbar thumb, held this many device pixels below its top edge.
    Scrollbar(i64),
}

/// What the window does after the button was released.
#[derive(Clone, Copy, Debug, PartialEq, Eq, Structural)]
pub enum PointerUpAction {
    /// Nothing to do.
    Nothing,
    ReleaseCapture,
    Choice(SettingId),
    /// Carry out what activating the part means, then release the pointer.
    Activate(InteractionId),
}

/// What the window does after the button went down.
#[derive(Clone, Copy, Debug, PartialEq, Eq, Structural)]
pub enum PointerDownAction {
    /// The press went to nothing.
    Nothing,
    /// Capture the pointer.
    Capture,
    /// Capture the pointer and set the slider of the setting from the pointer.
    CaptureSlider(SettingId),
}

/// What the window does after the pointer moved.
#[derive(Clone, Copy, Debug, PartialEq, Eq, Structural)]
pub enum PointerMoveAction {
    Nothing,
    Repaint,
    /// Set the slider of the setting from the pointer.
    UpdateSlider(SettingId),
}

/// What activating a part of the page means.
#[derive(Clone, Copy, Debug, PartialEq, Eq, Structural)]
pub enum Activation {
    Undo,
    Save,
    ToggleSwitch(SettingId),
    RestartShell,
    Nothing,
}

/// What activating `target` means.
pub open spec fn spec_activation(target: InteractionId) -> Activation {
    match target {
        InteractionId::Action(ActionId::Undo) => Activation::Undo,
        InteractionId::Action(ActionId::Save) => Activation::Save,
        InteractionId::Setting(SettingId::StartButtonClick) => Activation::ToggleSwitch(SettingId::StartButtonClick),
        InteractionId::Setting(SettingId::RoundedTiles) => Activation::ToggleSwitch(SettingId::RoundedTiles),
        InteractionId::Setting(SettingId::RoundedTileBars) => Activation::ToggleSwitch(SettingId::RoundedTileBars),
        InteractionId::Setting(SettingId::RestartShell) => Activation::RestartShell,
        _ => Activation::Nothing,
    }
}

pub fn activation(target: InteractionId) -> (r: Activation)
    ensures
        r == spec_activation(target),
{
    match target {
        InteractionId::Action(ActionId::Undo) => Activation::Undo,
        InteractionId::Action(ActionId::Save) => Activation::Save,
        InteractionId::Setting(SettingId::StartButtonClick) => Activation::ToggleSwitch(SettingId::StartButtonClick),
        InteractionId::Setting(SettingId::RoundedTiles) => Activation::ToggleSwitch(SettingId::RoundedTiles),
        InteractionId::Setting(SettingId::RoundedTileBars) => Activation::ToggleSwitch(SettingId::RoundedTileBars),
        InteractionId::Setting(SettingId::RestartShell) => Activation::RestartShell,
        _ => Activation::Nothing,
    }
}

/// Activating a footer action does what the action names, so no footer action
/// is without effect: Save saves and Undo undoes. Activating a switch row of
/// the settings page toggles that very switch, and its button row does
/// something too.
pub proof fn lemma_activation_follows_target(action: ActionId, k: int, i: int)
    ensures
        spec_activation(InteractionId::Action(action)) != Activation::Nothing,
        (spec_activation(InteractionId::Action(action)) == Activation::Save) == (action == ActionId::Save),
        (spec_activation(InteractionId::Action(action)) == Activation::Undo) == (action == ActionId::Undo),
        0 <= k < super::settings_page_sections().len() && 0 <= i < super::settings_page_sections()[k].1.len()
            && super::settings_page_sections()[k].1[i].control == ControlKind::Switch ==> spec_activation(
            InteractionId::Setting(super::settings_page_sections()[k].1[i].id),
        ) == Activation::ToggleSwitch(super::settings_page_sections()[k].1[i].id),
        0 <= k < super::settings_page_sections().len() && 0 <= i < super::settings_page_sections()[k].1.len()
            && super::settings_page_sections()[k].1[i].control == ControlKind::Button ==> spec_activation(
            InteractionId::Setting(super::settings_page_sections()[k].1[i].id),
        ) != Activation::Nothing,
{
    let sections = super::settings_page_sections();
    if 0 <= k < sections.len() && 0 <= i < sections[k].1.len() {
        assert(k == 0 || k == 1 || k == 2 || k == 3);
        if k == 0 {
            assert(i == 0 || i == 1);
        } else if k == 1 {
            assert(i == 0 || i == 1 || i == 2);
        } else if k == 2 {
            assert(i == 0 || i == 1 || i == 2 || i == 3 || i == 4 || i == 5 || i == 6);
        } else {
            assert(i == 0);
        }
    }
}

/// A choice row shows the entry its list marks as current: a number row the
/// decimal of its own value, the shortcut row the name of the chosen shortcut.
/// After a value of its list is chosen, a number row shows that value.
pub proof fn lemma_choice_row_shows_its_value(
    text: &TextResources,
    preferences: AppPreferences,
    field: SettingId,
    selected: u8,
)
    ensures
        (field == SettingId::BarColumns || field == SettingId::TilesPerRow) ==> spec_setting_value(
            text,
            preferences,
            field,
        ) == spec_decimal(spec_choice_value(preferences, field).unwrap() as nat),
        field == SettingId::Shortcut ==> spec_setting_value(text, preferences, field) == (if spec_choice_value(
            preferences,
            field,
        ) == Some(0u8) {
            text.shortcut_win_shift@
        } else {
            text.shortcut_win@
        }),
        (field == SettingId::BarColumns || field == SettingId::TilesPerRow) && spec_choice_values(field).unwrap().contains(
            selected,
        ) ==> (spec_choose(preferences, field, selected) matches Some(chosen) && spec_setting_value(text, chosen, field)
            == spec_decimal(selected as nat)),
{
    if field == SettingId::BarColumns && spec_choice_values(field).unwrap().contains(selected) {
        let values = spec_choice_values(field).unwrap();
        let i = choose|i: int| 0 <= i < values.len() && values[i] == selected;
        assert(1 <= selected <= 6);
    }
    if field == SettingId::TilesPerRow && spec_choice_values(field).unwrap().contains(selected) {
        let values = spec_choice_values(field).unwrap();
        let i = choose|i: int| 0 <= i < values.len() && values[i] == selected;
        assert(3 <= selected <= 5);
    }
}

/// A choice row about to open its list: the current value and the control area.
#[derive(Clone, Copy, Debug, PartialEq, Eq, Structural)]
pub struct ChoiceRequest {
    pub current: u8,
    pub control: Rect,
}


/// Whether `(x, y)` is on the part of a control of `kind` that answers the
/// pointer: anywhere on a slider, on the box of a choice, on a switch or its
/// label, on the button of a button row.
pub open spec fn spec_control_hit(kind: ControlKind, control: Rect, dpi: int, x: int, y: int) -> bool {
    match kind {
        ControlKind::Slider => true,
        ControlKind::Choice => spec_control_bounds(
            control,
            dpi,
            CHOICE_CONTROL_WIDTH as int,
            CHOICE_CONTROL_HEIGHT as int,
        ).spec_contains(x, y),
        ControlKind::Switch => spec_switch_hit_area(control, dpi).spec_contains(x, y),
        ControlKind::Button => spec_control_bounds(
            control,
            dpi,
            INLINE_BUTTON_WIDTH as int,
            INLINE_BUTTON_HEIGHT as int,
        ).spec_contains(x, y),
    }
}

/// The setting whose control of `kind` is hit at `(x, y)`: the first row whose
/// control area holds the point, looked up again by its setting, kept where that
/// row's control is of `kind` and the point is on its active part.
pub open spec fn spec_hit_test(layout: SettingsUiLayout, dpi: int, x: i32, y: i32, kind: ControlKind) -> Option<SettingId> {
    match spec_find(layout.all_items(), ItemQuery::ControlAt(x, y)) {
        Some(hit) => match spec_find(layout.all_items(), ItemQuery::Setting(hit.id)) {
            Some(item) => if item.control_kind == kind && spec_control_hit(kind, item.control, dpi, x as int, y as int) {
                Some(item.id)
            } else {
                None
            },
            None => None,
        },
        None => None,
    }
}

/// The layout can be handed to the pointer handlers: its controls lie within
/// the device coordinate range and it cannot scroll backwards.
pub open spec fn layout_usable(layout: SettingsUiLayout) -> bool {
    layout.controls_ok() && layout.content.scroll_max >= 0
}

/// Whether `(x, y)` is on the scrollbar thumb.
pub open spec fn on_thumb(layout: SettingsUiLayout, x: i32, y: i32) -> bool {
    layout.content.scrollbar matches Some(bar) && bar.thumb.spec_contains(x as int, y as int)
}

/// Whether `(x, y)` is on the scrollbar track.
pub open spec fn on_track(layout: SettingsUiLayout, x: i32, y: i32) -> bool {
    layout.content.scrollbar matches Some(bar) && bar.track.spec_contains(x as int, y as int)
}

/// `position` held to the scrollable range of `layout`.
pub open spec fn scroll_target(layout: SettingsUiLayout, position: int) -> int {
    clamp_int(position, 0, layout.content.scroll_max as int)
}

fn hit_test(layout: &SettingsUiLayout, dpi: i32, x: i32, y: i32, kind: ControlKind) -> (r: Option<SettingId>)
    requires
        layout.controls_ok(),
        dpi_ok(dpi as int),
    ensures
        r == spec_hit_test(*layout, dpi as int, x, y, kind),
{
    let id = match layout.hit_control(x, y) {
        Some(id) => id,
        None => return None,
    };
    let item = match layout.item(id) {
        Some(item) => item,
        None => return None,
    };
    if item.control_kind != kind {
        return None;
    }
    let inside = match kind {
        ControlKind::Slider => true,
        ControlKind::Choice => choice_control_contains(item.control, dpi, x, y),
        ControlKind::Switch => switch_control_contains(item.control, dpi, x, y),
        ControlKind::Button => setting_button_contains(item.control, dpi, x, y),
    };
    if inside {
        Some(item.id)
    } else {
        None
    }
}

/// The settings window's state.
pub struct SettingsState {
    pub saved_preferences: AppPreferences,
    pub draft_preferences: AppPreferences,
    pub ui: SettingsUi,
    pub interactions: InteractionTargets,
    pub pointer_drag: Option<PointerDrag>,
    pub scroll_y: i32,
}

/// Largest distance the scrollbar thumb may be held from its top edge.
pub const DRAG_OFFSET_LIMIT: i64 = 0x1_0000_0000;

/// The value of a choice row in `preferences`.
pub open spec fn spec_choice_value(preferences: AppPreferences, field: SettingId) -> Option<u8> {
    match field {
        SettingId::Shortcut => Some(
            match preferences.start.shortcut {
                StartShortcut::WinShift => 0u8,
                StartShortcut::Win => 1u8,
            },
        ),
        SettingId::BarColumns => Some(preferences.start.tile_bar_columns),
        SettingId::TilesPerRow => Some(preferences.start.tiles_per_row),
        _ => None,
    }
}

/// `preferences` with the value `selected` chosen for the choice row `field`,
/// then brought into range; `None` for a row that is no choice.
pub open spec fn spec_choose(preferences: AppPreferences, field: SettingId, selected: u8) -> Option<AppPreferences> {
    let start = preferences.start;
    let chosen = match field {
        SettingId::Shortcut => Some(
            StartPreferences {
                shortcut: if selected == 1 {
                    StartShortcut::Win
                } else {
                    StartShortcut::WinShift
                },
                ..start
            },
        ),
        SettingId::BarColumns => Some(StartPreferences { tile_bar_columns: selected, ..start }),
        SettingId::TilesPerRow => Some(StartPreferences { tiles_per_row: selected, ..start }),
        _ => None,
    };
    match chosen {
        Some(start) => Some(AppPreferences { start: start.spec_normalized() }),
        None => None,
    }
}

/// `preferences` with the start button switch flipped.
pub open spec fn spec_toggled(preferences: AppPreferences) -> AppPreferences {
    AppPreferences {
        start: StartPreferences {
            open_on_start_button_click: !preferences.start.open_on_start_button_click,
            ..preferences.start
        },
    }
}

/// Flipping the start button switch twice gives back the preferences.
pub proof fn lemma_toggle_twice(preferences: AppPreferences)
    ensures
        spec_toggled(spec_toggled(preferences)) == preferences,
{
}

/// A value chosen in a list leaves the preferences in their allowed ranges.
pub proof fn lemma_choice_normalized(preferences: AppPreferences, field: SettingId, selected: u8)
    ensures
        spec_choose(preferences, field, selected) matches Some(chosen) ==> chosen.start.is_normalized(),
{
    let start = preferences.start;
    crate::configuration::lemma_normalize_idempotent(StartPreferences {
        shortcut: if selected == 1 { StartShortcut::Win } else { StartShortcut::WinShift },
        ..start
    });
    crate::configuration::lemma_normalize_idempotent(StartPreferences { tile_bar_columns: selected, ..start });
    crate::configuration::lemma_normalize_idempotent(StartPreferences { tiles_per_row: selected, ..start });
}

/// The opening duration set with its slider is at most 5000 ms and a multiple
/// of 50 ms.
pub proof fn lemma_slider_duration_on_step(preferences: AppPreferences, percent: u8)
    ensures
        spec_slide(preferences, SettingId::AnimationDuration, percent) matches Some(slid)
            && slid.start.opening_duration_ms <= 5000 && slid.start.opening_duration_ms % 50 == 0,
{
    let d = percent * 50;
    assert(d % 50 == 0) by (nonlinear_arith)
        requires
            d == percent * 50,
    ;
}

/// Every position the page is scrolled to lies between 0 and the layout's
/// largest scroll position.
pub proof fn lemma_scroll_target_in_range(layout: SettingsUiLayout, position: int)
    requires
        layout.content.scroll_max >= 0,
    ensures
        0 <= scroll_target(layout, position) <= layout.content.scroll_max,
{
}

/// `preferences` with the slider of `field` set to `percent` of its range;
/// `None` for a setting the pointer does not set this way.
pub open spec fn spec_slide(preferences: AppPreferences, field: SettingId, percent: u8) -> Option<AppPreferences> {
    let start = preferences.start;
    match field {
        SettingId::Overlay => Some(AppPreferences { start: StartPreferences { overlay_opacity_percent: percent, ..start } }),
        SettingId::Blur => Some(AppPreferences { start: StartPreferences { blur_percent: percent, ..start } }),
        SettingId::AnimationDuration => Some(
            AppPreferences {
                start: StartPreferences {
                    opening_duration_ms: if percent * 50 <= 5000 {
                        (percent * 50) as u32
                    } else {
                        5000
                    },
                    ..start
                },
            },
        ),
        _ => None,
    }
}

impl SettingsState {
    pub open spec fn wf(&self) -> bool {
        &&& self.interactions.wf()
        &&& (self.pointer_drag matches Some(PointerDrag::Scrollbar(offset)) ==> -DRAG_OFFSET_LIMIT <= offset
            <= DRAG_OFFSET_LIMIT)
    }

    /// The state of a window that shows `preferences` as saved and unedited.
    pub fn new(preferences: AppPreferences) -> (r: Self)
        ensures
            r.wf(),
            r.saved_preferences == preferences,
            r.draft_preferences == preferences,
            r.interactions.entries@ == seq![
                (InteractionId::Setting(SettingId::StartButtonClick), preferences.start.open_on_start_button_click),
            ],
            r.interactions.hovered is None,
            r.interactions.pressed is None,
            r.pointer_drag is None,
            r.scroll_y == 0,
    {
        Self {
            saved_preferences: preferences,
            draft_preferences: preferences,
            ui: SettingsUi::settings_page(),
            interactions: InteractionTargets::new(preferences.start.open_on_start_button_click),
            pointer_drag: None,
            scroll_y: 0,
        }
    }

    /// Whether the page lays out in `client` at `dpi`, at the current scroll
    /// position, within `i32`.
    pub fn layout_fits(&self, client: Rect, dpi: i32) -> (r: bool)
        ensures
            r == layout_inputs_ok(self.ui, client, dpi as int, self.scroll_y as int),
    {
        super::layout::layout_fits(&self.ui, client, dpi, self.scroll_y)
    }

    /// The page laid out in `client` at `dpi`, at the current scroll position.
    pub fn layout(&self, client: Rect, dpi: i32) -> (r: SettingsUiLayout)
        requires
            layout_inputs_ok(self.ui, client, dpi as int, self.scroll_y as int),
        ensures
            layout_placed(r, self.ui, client, dpi as int, self.scroll_y as int),
            layout_usable(r),
    {
        self.ui.layout(client, dpi, self.scroll_y)
    }

    /// The edited preferences differ from the saved ones.
    pub fn is_dirty(&self) -> (r: bool)
        ensures
            r == (self.draft_preferences != self.saved_preferences),
    {
        self.draft_preferences != self.saved_preferences
    }

    /// The window is shown: forget the pointer and scroll to the top.
    pub fn show(&mut self)
        requires
            old(self).wf(),
        ensures
            final(self).ui == old(self).ui,
            final(self).wf(),
            final(self).interactions.hovered is None,
            final(self).interactions.pressed is None,
            final(self).interactions.entries@ == old(self).interactions.entries@,
            final(self).scroll_y == 0,
            final(self).saved_preferences == old(self).saved_preferences,
            final(self).draft_preferences == old(self).draft_preferences,
            final(self).pointer_drag == old(self).pointer_drag,
    {
        self.interactions.clear_pointer();
        self.scroll_y = 0;
    }

    /// Throws the edits away; `true` where there were any.
    pub fn undo(&mut self) -> (r: bool)
        requires
            old(self).wf(),
        ensures
            final(self).ui == old(self).ui,
            final(self).wf(),
            r == (old(self).draft_preferences != old(self).saved_preferences),
            final(self).saved_preferences == old(self).saved_preferences,
            final(self).draft_preferences == old(self).saved_preferences,
            r ==> spec_toggle_target(
                final(self).interactions.entries@,
                InteractionId::Setting(SettingId::StartButtonClick),
            ) == old(self).saved_preferences.start.open_on_start_button_click,
            !r ==> final(self).interactions.entries@ == old(self).interactions.entries@,
            final(self).interactions.hovered == old(self).interactions.hovered,
            final(self).interactions.pressed == old(self).interactions.pressed,
            final(self).pointer_drag == old(self).pointer_drag,
            final(self).scroll_y == old(self).scroll_y,
    {
        if !self.is_dirty() {
            return false;
        }
        self.draft_preferences = self.saved_preferences;
        self.interactions.set_toggle(
            InteractionId::Setting(SettingId::StartButtonClick),
            self.draft_preferences.start.open_on_start_button_click,
        );
        true
    }

    /// The first half of saving: where there are edits, brings them into range
    /// and hands back the preferences to write.
    pub fn begin_save(&mut self) -> (r: Option<AppPreferences>)
        requires
            old(self).wf(),
        ensures
            final(self).ui == old(self).ui,
            final(self).wf(),
            old(self).draft_preferences == old(self).saved_preferences ==> r is None && *final(self) == *old(self),
            old(self).draft_preferences != old(self).saved_preferences ==> final(self).draft_preferences == (AppPreferences {
                start: old(self).draft_preferences.start.spec_normalized(),
            }) && r == Some(final(self).draft_preferences),
            final(self).saved_preferences == old(self).saved_preferences,
            final(self).interactions == old(self).interactions,
            final(self).pointer_drag == old(self).pointer_drag,
            final(self).scroll_y == old(self).scroll_y,
    {
        if !self.is_dirty() {
            return None;
        }
        self.draft_preferences.start.normalize();
        Some(self.draft_preferences)
    }

    /// The second half of saving: `loaded` was read back from the store. It
    /// becomes both the saved and the edited preferences; the start preferences
    /// are handed back for the running Start menu.
    pub fn finish_save(&mut self, loaded: AppPreferences) -> (r: StartPreferences)
        requires
            old(self).wf(),
        ensures
            final(self).ui == old(self).ui,
            final(self).wf(),
            r == loaded.start,
            final(self).saved_preferences == loaded,
            final(self).draft_preferences == loaded,
            spec_toggle_target(final(self).interactions.entries@, InteractionId::Setting(SettingId::StartButtonClick))
                == loaded.start.open_on_start_button_click,
            final(self).interactions.hovered == old(self).interactions.hovered,
            final(self).interactions.pressed == old(self).interactions.pressed,
            final(self).pointer_drag == old(self).pointer_drag,
            final(self).scroll_y == old(self).scroll_y,
    {
        self.saved_preferences = loaded;
        self.draft_preferences = loaded;
        self.interactions.set_toggle(
            InteractionId::Setting(SettingId::StartButtonClick),
            loaded.start.open_on_start_button_click,
        );
        loaded.start
    }

    /// The current value of the choice row `field`.
    pub fn choice_value(&self, field: SettingId) -> (r: Option<u8>)
        ensures
            r == spec_choice_value(self.draft_preferences, field),
    {
        match field {
            SettingId::Shortcut => Some(
                match self.draft_preferences.start.shortcut {
                    StartShortcut::WinShift => 0,
                    StartShortcut::Win => 1,
                },
            ),
            SettingId::BarColumns => Some(self.draft_preferences.start.tile_bar_columns),
            SettingId::TilesPerRow => Some(self.draft_preferences.start.tiles_per_row),
            _ => None,
        }
    }

    /// What opening the list of the choice row `field` needs: its current value
    /// and its control area; `None` where the page has no such row or the row is
    /// no choice.
    pub fn choice_request(&self, layout: &SettingsUiLayout, field: SettingId) -> (r: Option<ChoiceRequest>)
        ensures
            match r {
                Some(request) => spec_choice_value(self.draft_preferences, field) == Some(request.current)
                    && exists|p: int|
                    is_first_match(layout.all_items(), ItemQuery::Setting(field), p) && layout.all_items()[p].control
                        == request.control,
                None => spec_choice_value(self.draft_preferences, field) is None || forall|q: int|
                    0 <= q < layout.all_items().len() ==> (#[trigger] layout.all_items()[q]).id != field,
            },
    {
        let item = match layout.item(field) {
            Some(item) => item,
            None => return None,
        };
        match self.choice_value(field) {
            Some(current) => Some(ChoiceRequest { current, control: item.control }),
            None => None,
        }
    }

    /// The list of the choice row `field` closed on `selected`: take it and bring
    /// the preferences into range; `true` where `field` is a choice row.
    pub fn apply_choice(&mut self, field: SettingId, selected: u8) -> (r: bool)
        requires
            old(self).wf(),
        ensures
            final(self).ui == old(self).ui,
            final(self).wf(),
            r == spec_choose(old(self).draft_preferences, field, selected) is Some,
            r ==> Some(final(self).draft_preferences) == spec_choose(old(self).draft_preferences, field, selected),
            !r ==> final(self).draft_preferences == old(self).draft_preferences,
            final(self).saved_preferences == old(self).saved_preferences,
            final(self).interactions == old(self).interactions,
            final(self).pointer_drag == old(self).pointer_drag,
            final(self).scroll_y == old(self).scroll_y,
    {
        match field {
            SettingId::Shortcut => {
                self.draft_preferences.start.shortcut = if selected == 1 {
                    StartShortcut::Win
                } else {
                    StartShortcut::WinShift
                };
            },
            SettingId::BarColumns => {
                self.draft_preferences.start.tile_bar_columns = selected;
            },
            SettingId::TilesPerRow => {
                self.draft_preferences.start.tiles_per_row = selected;
            },
            _ => return false,
        }
        self.draft_preferences.start.normalize();
        true
    }

    /// Flips the switch of `field`; only the start button switch flips, other
    /// rows are left as they are. `true` where it flipped.
    pub fn toggle_switch(&mut self, field: SettingId) -> (r: bool)
        requires
            old(self).wf(),
        ensures
            final(self).ui == old(self).ui,
            final(self).wf(),
            r == (field == SettingId::StartButtonClick),
            r ==> final(self).draft_preferences == spec_toggled(old(self).draft_preferences) && spec_toggle_target(final(self).interactions.entries@, InteractionId::Setting(field))
                == final(self).draft_preferences.start.open_on_start_button_click,
            !r ==> final(self).draft_preferences == old(self).draft_preferences && final(self).interactions
                == old(self).interactions,
            final(self).interactions.hovered == old(self).interactions.hovered,
            final(self).interactions.pressed == old(self).interactions.pressed,
            final(self).saved_preferences == old(self).saved_preferences,
            final(self).pointer_drag == old(self).pointer_drag,
            final(self).scroll_y == old(self).scroll_y,
    {
        match field {
            SettingId::StartButtonClick => {
                self.draft_preferences.start.open_on_start_button_click =
                    !self.draft_preferences.start.open_on_start_button_click;
            },
            _ => return false,
        }
        self.interactions.set_toggle(InteractionId::Setting(field), self.draft_preferences.start.open_on_start_button_click);
        true
    }

    /// The slider of `field` was moved to `percent` of its track: overlay and
    /// blur take the percentage, the opening duration 50 ms per percent up to
    /// 5000 ms. `true` where `field` is one of these.
    pub fn set_slider_percent(&mut self, field: SettingId, percent: u8) -> (r: bool)
        requires
            old(self).wf(),
        ensures
            final(self).ui == old(self).ui,
            final(self).wf(),
            r == spec_slide(old(self).draft_preferences, field, percent) is Some,
            r ==> Some(final(self).draft_preferences) == spec_slide(old(self).draft_preferences, field, percent),
            !r ==> final(self).draft_preferences == old(self).draft_preferences,
            final(self).saved_preferences == old(self).saved_preferences,
            final(self).interactions == old(self).interactions,
            final(self).pointer_drag == old(self).pointer_drag,
            final(self).scroll_y == old(self).scroll_y,
    {
        match field {
            SettingId::Overlay => {
                self.draft_preferences.start.overlay_opacity_percent = percent;
            },
            SettingId::Blur => {
                self.draft_preferences.start.blur_percent = percent;
            },
            SettingId::AnimationDuration => {
                let duration = percent as u32 * 50;
                self.draft_preferences.start.opening_duration_ms = if duration <= 5000 {
                    duration
                } else {
                    5000
                };
            },
            _ => return false,
        }
        true
    }

    /// The slider row hit at `(x, y)`.
    pub fn hit_test_slider(&self, layout: &SettingsUiLayout, dpi: i32, x: i32, y: i32) -> (r: Option<SettingId>)
        requires
            layout.controls_ok(),
            dpi_ok(dpi as int),
        ensures
            r == spec_hit_test(*layout, dpi as int, x, y, ControlKind::Slider),
    {
        hit_test(layout, dpi, x, y, ControlKind::Slider)
    }

    /// The choice row whose box is hit at `(x, y)`.
    pub fn hit_test_choice(&self, layout: &SettingsUiLayout, dpi: i32, x: i32, y: i32) -> (r: Option<SettingId>)
        requires
            layout.controls_ok(),
            dpi_ok(dpi as int),
        ensures
            r == spec_hit_test(*layout, dpi as int, x, y, ControlKind::Choice),
    {
        hit_test(layout, dpi, x, y, ControlKind::Choice)
    }

    /// The switch row whose switch or label is hit at `(x, y)`.
    pub fn hit_test_switch(&self, layout: &SettingsUiLayout, dpi: i32, x: i32, y: i32) -> (r: Option<SettingId>)
        requires
            layout.controls_ok(),
            dpi_ok(dpi as int),
        ensures
            r == spec_hit_test(*layout, dpi as int, x, y, ControlKind::Switch),
    {
        hit_test(layout, dpi, x, y, ControlKind::Switch)
    }

    /// The button row whose button is hit at `(x, y)`.
    pub fn hit_test_button(&self, layout: &SettingsUiLayout, dpi: i32, x: i32, y: i32) -> (r: Option<SettingId>)
        requires
            layout.controls_ok(),
            dpi_ok(dpi as int),
        ensures
            r == spec_hit_test(*layout, dpi as int, x, y, ControlKind::Button),
    {
        hit_test(layout, dpi, x, y, ControlKind::Button)
    }

    /// The part the pointer hovers and presses at `(x, y)`: a footer button while
    /// there are edits, else a switch, else a button row.
    pub open spec fn spec_target_at(&self, layout: SettingsUiLayout, dpi: int, x: i32, y: i32) -> Option<InteractionId> {
        if self.draft_preferences != self.saved_preferences && layout.spec_action_at(x, y) is Some {
            Some(InteractionId::Action(layout.spec_action_at(x, y)->0))
        } else if spec_hit_test(layout, dpi, x, y, ControlKind::Switch) is Some {
            Some(InteractionId::Setting(spec_hit_test(layout, dpi, x, y, ControlKind::Switch)->0))
        } else if spec_hit_test(layout, dpi, x, y, ControlKind::Button) is Some {
            Some(InteractionId::Setting(spec_hit_test(layout, dpi, x, y, ControlKind::Button)->0))
        } else {
            None
        }
    }

    pub fn interactive_target_at(&self, layout: &SettingsUiLayout, dpi: i32, x: i32, y: i32) -> (r: Option<InteractionId>)
        requires
            layout.controls_ok(),
            dpi_ok(dpi as int),
        ensures
            r == self.spec_target_at(*layout, dpi as int, x, y),
    {
        if self.is_dirty() {
            if let Some(action) = layout.hit_action(x, y) {
                return Some(InteractionId::Action(action));
            }
        }
        if let Some(field) = self.hit_test_switch(layout, dpi, x, y) {
            return Some(InteractionId::Setting(field));
        }
        if let Some(field) = self.hit_test_button(layout, dpi, x, y) {
            return Some(InteractionId::Setting(field));
        }
        None
    }

    /// Scrolls to `position`, held to the scrollable range; `true` where the
    /// position changed.
    pub fn scroll_to(&mut self, layout: &SettingsUiLayout, position: i64) -> (r: bool)
        requires
            layout.content.scroll_max >= 0,
        ensures
            final(self).scroll_y == scroll_target(*layout, position as int),
            r == (old(self).scroll_y != final(self).scroll_y),
            final(self).ui == old(self).ui,
            final(self).saved_preferences == old(self).saved_preferences,
            final(self).draft_preferences == old(self).draft_preferences,
            final(self).interactions == old(self).interactions,
            final(self).pointer_drag == old(self).pointer_drag,
    {
        let maximum = layout.content.scroll_max as i64;
        let position = if position < 0 {
            0
        } else if position > maximum {
            maximum
        } else {
            position
        };
        let position = position as i32;
        if position == self.scroll_y {
            return false;
        }
        self.scroll_y = position;
        true
    }

    /// A press at `(x, y)` on the scrollbar starts dragging it: on the thumb,
    /// holding it where it was taken; on the track, centring the thumb on the
    /// pointer first. `true` where the press was on the scrollbar.
    pub fn begin_scroll_drag(&mut self, layout: &SettingsUiLayout, x: i32, y: i32) -> (r: bool)
        requires
            old(self).wf(),
            layout.content.scroll_max >= 0,
        ensures
            final(self).ui == old(self).ui,
            final(self).wf(),
            r == (on_thumb(*layout, x, y) || on_track(*layout, x, y)),
            on_thumb(*layout, x, y) ==> final(self).pointer_drag == Some(
                PointerDrag::Scrollbar((y - layout.content.scrollbar->0.thumb.top) as i64),
            ) && final(self).scroll_y == old(self).scroll_y,
            !on_thumb(*layout, x, y) && on_track(*layout, x, y) ==> {
                let bar = layout.content.scrollbar->0;
                let offset = div_toward_zero(bar.thumb.bottom - bar.thumb.top, 2);
                &&& final(self).pointer_drag == Some(PointerDrag::Scrollbar(offset as i64))
                &&& final(self).scroll_y == scroll_target(*layout, layout.spec_scroll_from_thumb(y - offset))
            },
            !r ==> final(self).pointer_drag == old(self).pointer_drag && final(self).scroll_y == old(self).scroll_y,
            final(self).saved_preferences == old(self).saved_preferences,
            final(self).draft_preferences == old(self).draft_preferences,
            final(self).interactions == old(self).interactions,
    {
        if layout.hit_scroll_thumb(x, y) {
            let thumb_top = match layout.content.scrollbar {
                Some(scrollbar) => scrollbar.thumb.top,
                None => 0,
            };
            self.pointer_drag = Some(PointerDrag::Scrollbar(y as i64 - thumb_top as i64));
            return true;
        }
        if layout.hit_scroll_track(x, y) {
            let scrollbar = match layout.content.scrollbar {
                Some(scrollbar) => scrollbar,
                None => return false,
            };
            let offset: i64 = (scrollbar.thumb.bottom as i64 - scrollbar.thumb.top as i64) / 2;
            let position = layout.scroll_from_thumb(y as i64 - offset);
            self.scroll_to(layout, position as i64);
            self.pointer_drag = Some(PointerDrag::Scrollbar(offset));
            return true;
        }
        false
    }

    /// The button went down at `(x, y)`: the scrollbar takes it first, then a
    /// slider, then a switch, button row or footer button, which become hovered
    /// and pressed.
    pub fn on_pointer_down(&mut self, layout: &SettingsUiLayout, dpi: i32, x: i32, y: i32) -> (r: PointerDownAction)
        requires
            old(self).wf(),
            layout_usable(*layout),
            dpi_ok(dpi as int),
        ensures
            final(self).ui == old(self).ui,
            final(self).wf(),
            final(self).saved_preferences == old(self).saved_preferences,
            final(self).draft_preferences == old(self).draft_preferences,
            on_thumb(*layout, x, y) || on_track(*layout, x, y) ==> r == PointerDownAction::Capture
                && final(self).interactions == old(self).interactions,
            !(on_thumb(*layout, x, y) || on_track(*layout, x, y)) ==> final(self).scroll_y == old(self).scroll_y,
            !(on_thumb(*layout, x, y) || on_track(*layout, x, y)) && spec_hit_test(*layout, dpi as int, x, y, ControlKind::Slider) is Some ==> {
                let field = spec_hit_test(*layout, dpi as int, x, y, ControlKind::Slider)->0;
                &&& r == PointerDownAction::CaptureSlider(field)
                &&& final(self).pointer_drag == Some(PointerDrag::Slider(field))
                &&& final(self).interactions == old(self).interactions
            },
            !(on_thumb(*layout, x, y) || on_track(*layout, x, y)) && spec_hit_test(*layout, dpi as int, x, y, ControlKind::Slider) is None
                && old(self).spec_target_at(*layout, dpi as int, x, y) is Some ==> {
                let target = old(self).spec_target_at(*layout, dpi as int, x, y);
                &&& r == PointerDownAction::Capture
                &&& final(self).interactions.hovered == target
                &&& final(self).interactions.pressed == target
                &&& spec_known(final(self).interactions.entries@, target->0)
                &&& forall|other: InteractionId| #[trigger] spec_toggle_target(final(self).interactions.entries@, other)
                    == spec_toggle_target(old(self).interactions.entries@, other)
                &&& final(self).pointer_drag == old(self).pointer_drag
            },
            !(on_thumb(*layout, x, y) || on_track(*layout, x, y)) && spec_hit_test(*layout, dpi as int, x, y, ControlKind::Slider) is None
                && old(self).spec_target_at(*layout, dpi as int, x, y) is None ==> r == PointerDownAction::Nothing
                && final(self).interactions == old(self).interactions && final(self).pointer_drag == old(self).pointer_drag,
    {
        if self.begin_scroll_drag(layout, x, y) {
            return PointerDownAction::Capture;
        }
        if let Some(field) = self.hit_test_slider(layout, dpi, x, y) {
            self.pointer_drag = Some(PointerDrag::Slider(field));
            return PointerDownAction::CaptureSlider(field);
        }
        if let Some(target) = self.interactive_target_at(layout, dpi, x, y) {
            self.interactions.set_hovered(Some(target));
            self.interactions.set_pressed(Some(target));
            return PointerDownAction::Capture;
        }
        PointerDownAction::Nothing
    }

    /// The pointer moved to `(x, y)` while the scrollbar thumb is dragged, held
    /// `offset` pixels below its top edge: scroll to match; `true` where the
    /// position changed.
    pub fn update_scroll_drag(&mut self, layout: &SettingsUiLayout, y: i32, offset: i64) -> (r: bool)
        requires
            layout.content.scroll_max >= 0,
            -DRAG_OFFSET_LIMIT <= offset <= DRAG_OFFSET_LIMIT,
        ensures
            final(self).scroll_y == scroll_target(*layout, layout.spec_scroll_from_thumb(y - offset)),
            r == (old(self).scroll_y != final(self).scroll_y),
            final(self).ui == old(self).ui,
            final(self).saved_preferences == old(self).saved_preferences,
            final(self).draft_preferences == old(self).draft_preferences,
            final(self).interactions == old(self).interactions,
            final(self).pointer_drag == old(self).pointer_drag,
    {
        let position = layout.scroll_from_thumb(y as i64 - offset);
        self.scroll_to(layout, position as i64)
    }

    /// The pointer moved to `(x, y)`: a dragged slider follows it, a dragged
    /// scrollbar scrolls, otherwise the part under the pointer becomes hovered.
    pub fn on_pointer_move(&mut self, layout: &SettingsUiLayout, dpi: i32, x: i32, y: i32) -> (r: PointerMoveAction)
        requires
            old(self).wf(),
            layout_usable(*layout),
            dpi_ok(dpi as int),
        ensures
            final(self).ui == old(self).ui,
            final(self).wf(),
            final(self).saved_preferences == old(self).saved_preferences,
            final(self).draft_preferences == old(self).draft_preferences,
            final(self).pointer_drag == old(self).pointer_drag,
            match old(self).pointer_drag {
                Some(PointerDrag::Slider(field)) => r == PointerMoveAction::UpdateSlider(field)
                    && final(self).interactions == old(self).interactions && final(self).scroll_y == old(self).scroll_y,
                Some(PointerDrag::Scrollbar(offset)) => final(self).scroll_y == scroll_target(
                    *layout,
                    layout.spec_scroll_from_thumb(y - offset),
                ) && final(self).interactions == old(self).interactions && r == (if final(self).scroll_y
                    != old(self).scroll_y {
                    PointerMoveAction::Repaint
                } else {
                    PointerMoveAction::Nothing
                }),
                None => {
                    let target = old(self).spec_target_at(*layout, dpi as int, x, y);
                    &&& final(self).interactions.hovered == target
                    &&& final(self).interactions.pressed == old(self).interactions.pressed
                    &&& forall|other: InteractionId| #[trigger] spec_toggle_target(final(self).interactions.entries@, other)
                        == spec_toggle_target(old(self).interactions.entries@, other)
                    &&& r == (if target != old(self).interactions.hovered {
                        PointerMoveAction::Repaint
                    } else {
                        PointerMoveAction::Nothing
                    })
                    &&& final(self).scroll_y == old(self).scroll_y
                },
            },
    {
        match self.pointer_drag {
            Some(PointerDrag::Slider(field)) => PointerMoveAction::UpdateSlider(field),
            Some(PointerDrag::Scrollbar(offset)) => {
                if self.update_scroll_drag(layout, y, offset) {
                    PointerMoveAction::Repaint
                } else {
                    PointerMoveAction::Nothing
                }
            },
            None => {
                let hovered = self.interactive_target_at(layout, dpi, x, y);
                if self.interactions.set_hovered(hovered) {
                    PointerMoveAction::Repaint
                } else {
                    PointerMoveAction::Nothing
                }
            },
        }
    }

    /// The button was released at `(x, y)`. A drag ends; a pressed part is
    /// released, and activated where the pointer is still on it; otherwise a
    /// release on the box of a choice row opens its list.
    pub fn on_pointer_up(&mut self, layout: &SettingsUiLayout, dpi: i32, x: i32, y: i32) -> (r: PointerUpAction)
        requires
            old(self).wf(),
            layout_usable(*layout),
            dpi_ok(dpi as int),
        ensures
            final(self).ui == old(self).ui,
            final(self).wf(),
            final(self).saved_preferences == old(self).saved_preferences,
            final(self).draft_preferences == old(self).draft_preferences,
            final(self).scroll_y == old(self).scroll_y,
            old(self).pointer_drag is Some ==> r == PointerUpAction::ReleaseCapture && final(self).pointer_drag is None
                && final(self).interactions == old(self).interactions,
            old(self).pointer_drag is None && old(self).interactions.pressed is Some ==> {
                let pressed = old(self).interactions.pressed->0;
                let activate = old(self).spec_target_at(*layout, dpi as int, x, y) == Some(pressed);
                &&& final(self).interactions.pressed is None
                &&& final(self).pointer_drag is None
                &&& activate ==> r == PointerUpAction::Activate(pressed) && final(self).interactions.hovered
                    == old(self).interactions.hovered
                &&& !activate ==> r == PointerUpAction::ReleaseCapture && final(self).interactions.hovered == (
                if pressed is Action && old(self).draft_preferences == old(self).saved_preferences {
                    None
                } else {
                    old(self).interactions.hovered
                })
                &&& forall|other: InteractionId| #[trigger] spec_toggle_target(final(self).interactions.entries@, other)
                    == spec_toggle_target(old(self).interactions.entries@, other)
            },
            old(self).pointer_drag is None && old(self).interactions.pressed is None ==> final(self).interactions
                == old(self).interactions && final(self).pointer_drag is None && r == (match spec_hit_test(
                *layout,
                dpi as int,
                x,
                y,
                ControlKind::Choice,
            ) {
                Some(field) => PointerUpAction::Choice(field),
                None => PointerUpAction::Nothing,
            }),
    {
        if self.pointer_drag.is_some() {
            self.pointer_drag = None;
            return PointerUpAction::ReleaseCapture;
        }
        if let Some(pressed) = self.interactions.pressed {
            let target = self.interactive_target_at(layout, dpi, x, y);
            let activate = same_target(target, Some(pressed));
            self.interactions.set_pressed(None);
            if activate {
                return PointerUpAction::Activate(pressed);
            }
            self.finish_release(pressed);
            return PointerUpAction::ReleaseCapture;
        }
        match self.hit_test_choice(layout, dpi, x, y) {
            Some(field) => PointerUpAction::Choice(field),
            None => PointerUpAction::Nothing,
        }
    }

    /// After a released part was handled: a footer button stops being hovered
    /// once no edits are left.
    pub fn finish_release(&mut self, released: InteractionId) -> (r: bool)
        requires
            old(self).wf(),
        ensures
            final(self).ui == old(self).ui,
            final(self).wf(),
            r == (released is Action && old(self).draft_preferences == old(self).saved_preferences),
            final(self).interactions.hovered == (if r {
                None
            } else {
                old(self).interactions.hovered
            }),
            final(self).interactions.pressed == old(self).interactions.pressed,
            final(self).interactions.entries@ == old(self).interactions.entries@,
            final(self).saved_preferences == old(self).saved_preferences,
            final(self).draft_preferences == old(self).draft_preferences,
            final(self).pointer_drag == old(self).pointer_drag,
            final(self).scroll_y == old(self).scroll_y,
    {
        let clear = match released {
            InteractionId::Action(_) => !self.is_dirty(),
            InteractionId::Setting(_) => false,
        };
        if clear {
            self.interactions.set_hovered(None);
        }
        clear
    }

    /// The window lost the pointer capture: nothing is pressed or dragged.
    pub fn on_capture_changed(&mut self)
        requires
            old(self).wf(),
        ensures
            final(self).ui == old(self).ui,
            final(self).wf(),
            final(self).interactions.pressed is None,
            final(self).interactions.hovered == old(self).interactions.hovered,
            final(self).interactions.entries@ == old(self).interactions.entries@,
            final(self).pointer_drag is None,
            final(self).saved_preferences == old(self).saved_preferences,
            final(self).draft_preferences == old(self).draft_preferences,
            final(self).scroll_y == old(self).scroll_y,
    {
        self.interactions.set_pressed(None);
        self.pointer_drag = None;
    }

    /// The pointer left the window: nothing is hovered.
    pub fn on_pointer_leave(&mut self)
        requires
            old(self).wf(),
        ensures
            final(self).ui == old(self).ui,
            final(self).wf(),
            final(self).interactions.hovered is None,
            final(self).interactions.pressed == old(self).interactions.pressed,
            final(self).interactions.entries@ == old(self).interactions.entries@,
            final(self).pointer_drag == old(self).pointer_drag,
            final(self).saved_preferences == old(self).saved_preferences,
            final(self).draft_preferences == old(self).draft_preferences,
            final(self).scroll_y == old(self).scroll_y,
    {
        self.interactions.set_hovered(None);
    }

    /// The window was resized to `client`: keep the scroll position within the
    /// new range; `true` unless the client area is empty.
    pub fn on_size(&mut self, layout: &SettingsUiLayout, client: Rect) -> (r: bool)
        requires
            layout.content.scroll_max >= 0,
        ensures
            r == (client.right > client.left && client.bottom > client.top),
            r ==> final(self).scroll_y == scroll_target(*layout, old(self).scroll_y as int),
            !r ==> final(self).scroll_y == old(self).scroll_y,
            final(self).ui == old(self).ui,
            final(self).saved_preferences == old(self).saved_preferences,
            final(self).draft_preferences == old(self).draft_preferences,
            final(self).interactions == old(self).interactions,
            final(self).pointer_drag == old(self).pointer_drag,
    {
        if client.right <= client.left || client.bottom <= client.top {
            return false;
        }
        let maximum = layout.content.scroll_max;
        self.scroll_y = if self.scroll_y < 0 {
            0
        } else if self.scroll_y > maximum {
            maximum
        } else {
            self.scroll_y
        };
        true
    }

    /// The wheel turned by `delta` (120 per notch): scroll 72 logical units per
    /// whole notch, down for a turn toward the user; `true` where the position
    /// changed.
    pub fn on_mouse_wheel(&mut self, layout: &SettingsUiLayout, delta: i32) -> (r: bool)
        requires
            layout.content.scroll_max >= 0,
        ensures
            final(self).scroll_y == scroll_target(*layout, old(self).scroll_y - div_toward_zero(delta as int, 120) * 72),
            r == (old(self).scroll_y != final(self).scroll_y),
            final(self).ui == old(self).ui,
            final(self).saved_preferences == old(self).saved_preferences,
            final(self).draft_preferences == old(self).draft_preferences,
            final(self).interactions == old(self).interactions,
            final(self).pointer_drag == old(self).pointer_drag,
    {
        let notches: i64 = delta as i64 / 120;
        let position: i64 = self.scroll_y as i64 - notches * 72;
        self.scroll_to(layout, position)
    }

    /// The slider being dragged, if any.
    pub fn active_slider(&self) -> (r: Option<SettingId>)
        ensures
            r == (match self.pointer_drag {
                Some(PointerDrag::Slider(field)) => Some(field),
                _ => None,
            }),
    {
        match self.pointer_drag {
            Some(PointerDrag::Slider(field)) => Some(field),
            _ => None,
        }
    }
}

} // verus!
