//! The settings shown on the page and the controls that edit them.

use crate::geometry::Rect;
use vstd::prelude::*;

verus! {

#[derive(Clone, Copy, Debug, PartialEq, Eq, Structural)]
pub enum SettingId {
    Overlay,
    Blur,
    AnimationDuration,
    Shortcut,
    StartButtonClick,
    BarColumns,
    TilesPerRow,
    RoundedTiles,
    RoundedTileBars,
    TileAnimationDuration,
    TileBackgroundOpacity,
    TileBarBackgroundOpacity,
    RestartShell,
}

#[derive(Clone, Copy, Debug, PartialEq, Eq, Structural)]
pub enum ControlKind {
    Slider,
    Choice,
    Switch,
    Button,
}

/// A setting row: which setting, and the control that edits it.
#[derive(Clone, Copy, Debug, PartialEq, Eq, Structural)]
pub struct SettingItem {
    pub id: SettingId,
    pub control: ControlKind,
}

/// Where a setting row and its parts are drawn, in device pixels.
#[derive(Clone, Copy, Debug, PartialEq, Eq, Structural)]
pub struct SettingItemLayout {
    pub id: SettingId,
    pub control_kind: ControlKind,
    pub card: Rect,
    pub icon: Rect,
    pub title: Rect,
    pub description: Rect,
    pub control: Rect,
}

impl SettingItem {
    pub fn new(id: SettingId, control: ControlKind) -> (r: Self)
        ensures
            r == (SettingItem { id, control }),
    {
        Self { id, control }
    }
}

} // verus!
