//! Titled groups of setting rows.

use super::item::{SettingId, SettingItem, SettingItemLayout};
use crate::geometry::Rect;
use vstd::prelude::*;

verus! {

#[derive(Clone, Copy, Debug, PartialEq, Eq, Structural)]
pub enum SectionId {
    Behavior,
    MenuBackground,
    Tiles,
    Debug,
}

/// A titled group of rows.
pub struct SettingSection {
    pub id: SectionId,
    pub items: Vec<SettingItem>,
}

/// Rows that belong to one setting and follow the sections, without a title.
pub struct SettingSubSection {
    pub parent: SettingId,
    pub items: Vec<SettingItem>,
}

pub struct SectionLayout {
    pub id: SectionId,
    pub bounds: Rect,
    pub title: Rect,
    pub items: Vec<SettingItemLayout>,
}

pub struct SubSectionLayout {
    pub parent: SettingId,
    pub bounds: Rect,
    pub items: Vec<SettingItemLayout>,
}

impl SettingSection {
    pub fn new(id: SectionId) -> (r: Self)
        ensures
            r.id == id,
            r.items@ == Seq::<SettingItem>::empty(),
    {
        Self { id, items: Vec::new() }
    }

    /// The section with `item` appended.
    pub fn item(self, item: SettingItem) -> (r: Self)
        ensures
            r.id == self.id,
            r.items@ == self.items@.push(item),
    {
        let mut section = self;
        section.items.push(item);
        section
    }
}

impl SettingSubSection {
    pub fn new(parent: SettingId) -> (r: Self)
        ensures
            r.parent == parent,
            r.items@ == Seq::<SettingItem>::empty(),
    {
        Self { parent, items: Vec::new() }
    }

    /// The sub-section with `item` appended.
    pub fn item(self, item: SettingItem) -> (r: Self)
        ensures
            r.parent == self.parent,
            r.items@ == self.items@.push(item),
    {
        let mut section = self;
        section.items.push(item);
        section
    }
}

} // verus!
