//! The buttons in the footer of the settings page.

use crate::geometry::Rect;
use vstd::prelude::*;

verus! {

#[derive(Clone, Copy, Debug, PartialEq, Eq, Structural)]
pub enum ActionId {
    Undo,
    Save,
}

#[derive(Clone, Copy, Debug, PartialEq, Eq, Structural)]
pub struct ActionDefinition {
    pub id: ActionId,
    pub primary: bool,
}

#[derive(Clone, Copy, Debug, PartialEq, Eq, Structural)]
pub struct ActionLayout {
    pub id: ActionId,
    pub area: Rect,
    pub primary: bool,
}

impl ActionDefinition {
    pub fn new(id: ActionId, primary: bool) -> (r: Self)
        ensures
            r == (ActionDefinition { id, primary }),
    {
        Self { id, primary }
    }
}

} // verus!
